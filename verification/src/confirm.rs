use vstd::prelude::*;
use crate::paths::chars_of;

verus! {

/// White space as Unicode defines it.
pub open spec fn spec_is_space(c: char) -> bool {
    ||| '\u{9}' <= c <= '\u{D}'
    ||| c == ' '
    ||| c == '\u{85}'
    ||| c == '\u{A0}'
    ||| c == '\u{1680}'
    ||| '\u{2000}' <= c <= '\u{200A}'
    ||| c == '\u{2028}'
    ||| c == '\u{2029}'
    ||| c == '\u{202F}'
    ||| c == '\u{205F}'
    ||| c == '\u{3000}'
}

/// `text` without the white space at its end.
pub open spec fn trim_end(text: Seq<char>) -> Seq<char>
    decreases text.len(),
{
    if text.len() > 0 && spec_is_space(text.last()) {
        trim_end(text.drop_last())
    } else {
        text
    }
}

/// `text` without the white space at its start.
pub open spec fn trim_start(text: Seq<char>) -> Seq<char>
    decreases text.len(),
{
    if text.len() > 0 && spec_is_space(text[0]) {
        trim_start(text.drop_first())
    } else {
        text
    }
}

/// The word `y` or `yes`, in any mix of upper and lower case.
pub open spec fn is_yes(word: Seq<char>) -> bool {
    ||| word.len() == 1 && (word[0] == 'y' || word[0] == 'Y')
    ||| word.len() == 3 && (word[0] == 'y' || word[0] == 'Y') && (word[1] == 'e' || word[1]
        == 'E') && (word[2] == 's' || word[2] == 'S')
}

/// An answer confirms where, white space around it set aside, it is `y` or
/// `yes` in any mix of upper and lower case.
pub open spec fn spec_confirmed(answer: Seq<char>) -> bool {
    is_yes(trim_start(trim_end(answer)))
}

/// Whether `c` is white space.
#[verifier::when_used_as_spec(spec_is_space)]
pub fn is_space(c: char) -> (space: bool)
    ensures
        space == spec_is_space(c),
{
    ('\u{9}' <= c && c <= '\u{D}') || c == ' ' || c == '\u{85}' || c == '\u{A0}' || c
        == '\u{1680}' || ('\u{2000}' <= c && c <= '\u{200A}') || c == '\u{2028}' || c
        == '\u{2029}' || c == '\u{202F}' || c == '\u{205F}' || c == '\u{3000}'
}

/// Whether `answer` confirms.
pub fn confirmed(answer: &str) -> (yes: bool)
    ensures
        yes == spec_confirmed(answer@),
{
    let chars = chars_of(answer);
    let mut end: usize = chars.len();
    proof {
        assert(answer@.take(end as int) =~= answer@);
    }
    while end > 0 && is_space(chars[end - 1])
        invariant
            end <= chars.len(),
            chars@ == answer@,
            trim_end(answer@) == trim_end(answer@.take(end as int)),
        decreases end,
    {
        proof {
            assert(answer@.take(end as int).drop_last() =~= answer@.take(end - 1));
        }
        end -= 1;
    }
    let mut start: usize = 0;
    proof {
        assert(answer@.subrange(0, end as int) =~= answer@.take(end as int));
    }
    while start < end && is_space(chars[start])
        invariant
            start <= end <= chars.len(),
            chars@ == answer@,
            trim_start(trim_end(answer@)) == trim_start(
                answer@.subrange(start as int, end as int),
            ),
        decreases end - start,
    {
        proof {
            assert(answer@.subrange(start as int, end as int).drop_first() =~= answer@.subrange(
                start + 1,
                end as int,
            ));
        }
        start += 1;
    }
    let length: usize = end - start;
    proof {
        let word = answer@.subrange(start as int, end as int);
        assert(trim_start(word) == word);
        assert(word.len() == length);
        if length >= 1 {
            assert(word[0] == chars[start as int]);
        }
        if length == 3 {
            assert(word[1] == chars[start + 1]);
            assert(word[2] == chars[start + 2]);
        }
    }
    if length == 1 {
        chars[start] == 'y' || chars[start] == 'Y'
    } else if length == 3 {
        (chars[start] == 'y' || chars[start] == 'Y') && (chars[start + 1] == 'e' || chars[start
            + 1] == 'E') && (chars[start + 2] == 's' || chars[start + 2] == 'S')
    } else {
        false
    }
}

} // verus!
