use vstd::prelude::*;
use vstd::string::*;

verus! {

/// The characters of `text`, in order.
pub fn chars_of(text: &str) -> (chars: Vec<char>)
    ensures
        chars@ == text@,
{
    broadcast use group_string_axioms;

    let mut chars: Vec<char> = Vec::new();
    for c in it: text.chars()
        invariant
            it.seq() == text@,
            chars.len() == it.index(),
            forall|j: int| 0 <= j < chars.len() ==> chars[j] == it.seq()[j],
    {
        chars.push(c);
    }
    assert(chars@ =~= text@);
    chars
}

/// The length of `path` once the separators at its end are dropped.
pub open spec fn name_end(path: Seq<char>) -> int
    decreases path.len(),
{
    if path.len() > 0 && path.last() == '/' {
        name_end(path.drop_last())
    } else {
        path.len() as int
    }
}

/// Where the last component of `path` begins: behind its last separator, or
/// at 0 where it holds none.
pub open spec fn name_start(path: Seq<char>) -> int
    decreases path.len(),
{
    if path.len() > 0 && path.last() != '/' {
        name_start(path.drop_last())
    } else {
        path.len() as int
    }
}

/// The component `.`, which names the directory itself.
pub open spec fn dot() -> Seq<char> {
    seq!['.']
}

/// The component `..`, which names the parent directory.
pub open spec fn dot_dot() -> Seq<char> {
    seq!['.', '.']
}

/// The base name of `path`: its last component, separators at the end of the
/// path set aside. A path made of separators only, or one that ends in `.` or
/// `..`, has none.
pub open spec fn spec_base_name(path: Seq<char>) -> Option<Seq<char>> {
    let end = name_end(path);
    let start = name_start(path.take(end));
    let name = path.subrange(start, end);
    if name.len() == 0 || name == dot() || name == dot_dot() {
        None
    } else {
        Some(name)
    }
}

/// `dir` and `name` with one separator between them.
pub open spec fn spec_join(dir: Seq<char>, name: Seq<char>) -> Seq<char> {
    dir + seq!['/'] + name
}

/// `operand` as an absolute path: itself where it begins with a separator,
/// else placed under `cwd`.
pub open spec fn spec_resolve(cwd: Seq<char>, operand: Seq<char>) -> Seq<char> {
    if operand.len() > 0 && operand[0] == '/' {
        operand
    } else {
        spec_join(cwd, operand)
    }
}

/// The bounds of the last component lie inside the path, the component holds
/// no separator, a separator or the start of the path stands before it, and
/// only separators follow it.
pub proof fn lemma_name_bounds(path: Seq<char>)
    ensures
        0 <= name_start(path.take(name_end(path))) <= name_end(path) <= path.len(),
        forall|i: int| name_end(path) <= i < path.len() ==> path[i] == '/',
        name_end(path) > 0 ==> path[name_end(path) - 1] != '/',
        forall|i: int|
            name_start(path.take(name_end(path))) <= i < name_end(path) ==> path[i] != '/',
        name_start(path.take(name_end(path))) > 0 ==> path[name_start(
            path.take(name_end(path)),
        ) - 1] == '/',
{
    lemma_name_end(path);
    let head = path.take(name_end(path));
    lemma_name_start(head);
    assert forall|i: int| name_start(head) <= i < name_end(path) implies path[i] != '/' by {
        assert(head[i] != '/');
    }
    if name_start(head) > 0 {
        assert(head[name_start(head) - 1] == '/');
    }
}

proof fn lemma_name_end(path: Seq<char>)
    ensures
        0 <= name_end(path) <= path.len(),
        forall|i: int| name_end(path) <= i < path.len() ==> path[i] == '/',
        name_end(path) > 0 ==> path[name_end(path) - 1] != '/',
    decreases path.len(),
{
    if path.len() > 0 && path.last() == '/' {
        let front = path.drop_last();
        lemma_name_end(front);
        assert forall|i: int| name_end(path) <= i < path.len() implies path[i] == '/' by {
            if i < front.len() {
                assert(front[i] == '/');
            }
        }
        if name_end(path) > 0 {
            assert(front[name_end(path) - 1] != '/');
        }
    }
}

proof fn lemma_name_start(path: Seq<char>)
    ensures
        0 <= name_start(path) <= path.len(),
        forall|i: int| name_start(path) <= i < path.len() ==> path[i] != '/',
        name_start(path) > 0 ==> path[name_start(path) - 1] == '/',
    decreases path.len(),
{
    if path.len() > 0 && path.last() != '/' {
        let front = path.drop_last();
        lemma_name_start(front);
        assert forall|i: int| name_start(path) <= i < path.len() implies path[i] != '/' by {
            if i < front.len() {
                assert(front[i] != '/');
            }
        }
        if name_start(path) > 0 {
            assert(front[name_start(path) - 1] == '/');
        }
    }
}

/// A base name is not empty and holds no separator.
pub proof fn lemma_base_name_is_flat(path: Seq<char>)
    requires
        spec_base_name(path) is Some,
    ensures
        spec_base_name(path)->Some_0.len() > 0,
        !spec_base_name(path)->Some_0.contains('/'),
{
    lemma_name_bounds(path);
}

/// The base name of `path`, if it has one.
pub fn base_name(path: &str) -> (name: Option<String>)
    ensures
        match name {
            Some(n) => spec_base_name(path@) == Some(n@),
            None => spec_base_name(path@) is None,
        },
{
    let chars = chars_of(path);
    let mut end: usize = chars.len();
    proof {
        assert(path@.take(end as int) =~= path@);
    }
    while end > 0 && chars[end - 1] == '/'
        invariant
            end <= chars.len(),
            chars@ == path@,
            name_end(path@) == name_end(path@.take(end as int)),
        decreases end,
    {
        proof {
            assert(path@.take(end as int).drop_last() =~= path@.take(end - 1));
        }
        end -= 1;
    }
    let mut start: usize = end;
    while start > 0 && chars[start - 1] != '/'
        invariant
            start <= end <= chars.len(),
            chars@ == path@,
            name_start(path@.take(end as int)) == name_start(path@.take(start as int)),
        decreases start,
    {
        proof {
            assert(path@.take(start as int).drop_last() =~= path@.take(start - 1));
        }
        start -= 1;
    }
    proof {
        assert(path@.take(chars.len() as int) =~= path@);
        assert(name_end(path@) == end);
        assert(name_start(path@.take(end as int)) == start);
    }
    let length: usize = end - start;
    if length == 0 {
        None
    } else if length == 1 && chars[start] == '.' {
        proof {
            assert(path@.subrange(start as int, end as int) =~= dot());
        }
        None
    } else if length == 2 && chars[start] == '.' && chars[start + 1] == '.' {
        proof {
            assert(path@.subrange(start as int, end as int) =~= dot_dot());
        }
        None
    } else {
        proof {
            let name = path@.subrange(start as int, end as int);
            if name == dot() {
                assert(name[0] == '.');
            }
            if name == dot_dot() {
                assert(name[0] == '.' && name[1] == '.');
            }
        }
        Some(String::from_str(path.substring_char(start, end)))
    }
}

/// `dir` and `name` with one separator between them.
pub fn join(dir: &str, name: &str) -> (joined: String)
    ensures
        joined@ == spec_join(dir@, name@),
{
    proof {
        reveal_strlit("/");
        assert("/"@ =~= seq!['/']);
    }
    String::from_str(dir).concat("/").concat(name)
}

/// `operand` as an absolute path: itself where it begins with a separator,
/// else placed under `cwd`.
pub fn resolve(cwd: &str, operand: &str) -> (absolute: String)
    ensures
        absolute@ == spec_resolve(cwd@, operand@),
{
    if operand.unicode_len() > 0 && operand.get_char(0) == '/' {
        String::from_str(operand)
    } else {
        join(cwd, operand)
    }
}

} // verus!
