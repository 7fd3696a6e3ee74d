use vstd::pervasive::unreached;
use vstd::prelude::*;
use vstd::string::*;
use crate::config::Config;
use crate::confirm::{confirmed, spec_confirmed};
use crate::database::{has_name, rows_of, FileDB, FileEntryDB, Row};
use crate::paths::{base_name, join, resolve, spec_base_name, spec_join, spec_resolve};
use crate::rrm_error::RRMError;
use crate::setting::{CmdArgs, Mode};
use crate::trash::{
    contains_name, names_of, plan_removals, removals_of, spec_removal_kind, spec_removals,
    PathKind, Removal, Transfer, TrashChild,
};

verus! {

/// What is to be done for one invocation, once the answer to the request for
/// confirmation is known.
#[derive(Debug, Clone, Copy, PartialEq, Eq, Structural)]
pub enum Task {
    /// Delete every child of the trash directory, then forget every record.
    Purge,
    /// Emptying the trash was asked for and not confirmed: do nothing.
    Nothing,
    /// Show the entries in the trash.
    List,
    /// Move the operands into the trash.
    Trash,
}

/// The trash manager: the operands of this invocation, the trash directory,
/// the index and the command line.
pub struct App {
    pub files: Vec<String>,
    pub trash_path: String,
    pub file_db: FileDB,
    pub cmd_args: CmdArgs,
}

/// The move that `spec_plan` decides on: the absolute path of the entry, its
/// path inside the trash directory, and its name there.
pub type Move = (Seq<char>, Seq<char>, Seq<char>);

impl View for Transfer {
    type V = Move;

    open spec fn view(&self) -> Move {
        (self.from@, self.to@, self.name@)
    }
}

/// What is to be done, from the operation that the flags select and the
/// answer given: only `y` or `yes` lets the trash be emptied.
pub open spec fn spec_task(mode: Mode, answer: Seq<char>) -> Task {
    match mode {
        Mode::Purge => if spec_confirmed(answer) {
            Task::Purge
        } else {
            Task::Nothing
        },
        Mode::List => Task::List,
        Mode::Trash => Task::Trash,
    }
}

/// The decision on one operand. An empty operand names nothing. Any other
/// is made absolute under `cwd`. It must be a link, a directory or a regular
/// file, and have a base name; that name must not be taken by a child of
/// the trash directory. Then the entry moves to that name inside the trash
/// directory.
pub open spec fn spec_plan(
    trash_path: Seq<char>,
    cwd: Seq<char>,
    operand: Seq<char>,
    kind: PathKind,
    children: Seq<Seq<char>>,
) -> Result<Move, RRMError> {
    let source = spec_resolve(cwd, operand);
    if operand.len() == 0 || kind == PathKind::Other {
        Err(RRMError::NotATarget)
    } else {
        match spec_base_name(source) {
            None => Err(RRMError::NotATarget),
            Some(name) => if children.contains(name) {
                Err(RRMError::NameCollision)
            } else {
                Ok((source, spec_join(trash_path, name), name))
            },
        }
    }
}

/// The records to show: those whose name is a child of the trash directory,
/// in the order of the index.
pub open spec fn spec_listed(rows: Seq<Row>, children: Seq<Seq<char>>) -> Seq<Row> {
    rows.filter(|r: Row| children.contains(r.0))
}

/// The first line of a listing.
pub open spec fn header_line() -> Seq<char> {
    "name ->\t\torigin"@
}

/// The line of a listing that shows one record.
pub open spec fn entry_line(row: Row) -> Seq<char> {
    row.0 + " ->\t\t"@ + row.1
}

/// The lines of a listing: the header, then one line for each record shown.
pub open spec fn spec_listing(rows: Seq<Row>, children: Seq<Seq<char>>) -> Seq<Seq<char>> {
    seq![header_line()] + spec_listed(rows, children).map_values(|r: Row| entry_line(r))
}

/// The lines of a vector, as character sequences.
pub open spec fn lines_of(lines: Seq<String>) -> Seq<Seq<char>> {
    lines.map_values(|l: String| l@)
}

/// The paths that exist once `from` was renamed to `to`.
pub open spec fn after_rename(present: Set<Seq<char>>, from: Seq<char>, to: Seq<char>) -> Set<
    Seq<char>,
> {
    present.remove(from).insert(to)
}

/// A listing shows a record only if its name is a child of the trash
/// directory and the record is in the index; and it shows every such record.
pub proof fn lemma_listed_is_intersection(rows: Seq<Row>, children: Seq<Seq<char>>)
    ensures
        forall|r: Row| #[trigger]
            spec_listed(rows, children).contains(r) <==> rows.contains(r) && children.contains(r.0),
{
    let keep = |r: Row| children.contains(r.0);
    let shown = spec_listed(rows, children);
    assert forall|r: Row| #[trigger] shown.contains(r) <==> rows.contains(r) && children.contains(
        r.0,
    ) by {
        if shown.contains(r) {
            let k = choose|k: int| 0 <= k < shown.len() && shown[k] == r;
            rows.lemma_filter_pred(keep, k);
            rows.lemma_filter_contains_rev(keep, r);
        }
        if rows.contains(r) && children.contains(r.0) {
            let k = choose|k: int| 0 <= k < rows.len() && rows[k] == r;
            rows.lemma_filter_contains(keep, k);
        }
    }
}

/// An operand whose base name is taken by a child of the trash directory is
/// refused with `NameCollision`, so that nothing is moved.
pub proof fn lemma_collision_is_refused(
    trash_path: Seq<char>,
    cwd: Seq<char>,
    operand: Seq<char>,
    kind: PathKind,
    children: Seq<Seq<char>>,
)
    requires
        operand.len() > 0,
        kind != PathKind::Other,
        spec_base_name(spec_resolve(cwd, operand)) matches Some(name) && children.contains(name),
    ensures
        spec_plan(trash_path, cwd, operand, kind, children) == Err::<Move, RRMError>(
            RRMError::NameCollision,
        ),
{
}

/// An empty operand is no target, whatever is found at the working
/// directory: the working directory itself is never moved on its account.
pub proof fn lemma_empty_operand_is_no_target(
    trash_path: Seq<char>,
    cwd: Seq<char>,
    kind: PathKind,
    children: Seq<Seq<char>>,
)
    ensures
        spec_plan(trash_path, cwd, Seq::empty(), kind, children) == Err::<Move, RRMError>(
            RRMError::NotATarget,
        ),
{
}

/// A move that was decided on takes the entry to its base name inside the
/// trash directory. Where the entry exists and `children` names every child
/// of the trash directory, the rename leaves the entry's new path present
/// and its old path absent.
pub proof fn lemma_move_relocates(
    trash_path: Seq<char>,
    cwd: Seq<char>,
    operand: Seq<char>,
    kind: PathKind,
    children: Seq<Seq<char>>,
    present: Set<Seq<char>>,
)
    requires
        spec_plan(trash_path, cwd, operand, kind, children) is Ok,
        present.contains(spec_resolve(cwd, operand)),
        forall|name: Seq<char>| #[trigger]
            present.contains(spec_join(trash_path, name)) ==> children.contains(name),
    ensures
        ({
            let planned = spec_plan(trash_path, cwd, operand, kind, children)->Ok_0;
            let source = spec_resolve(cwd, operand);
            let target = spec_join(trash_path, spec_base_name(source)->Some_0);
            &&& planned.0 == source
            &&& planned.1 == target
            &&& after_rename(present, planned.0, planned.1).contains(target)
            &&& !after_rename(present, planned.0, planned.1).contains(source)
        }),
{
    let source = spec_resolve(cwd, operand);
    let name = spec_base_name(source)->Some_0;
    assert(!children.contains(name));
    assert(!present.contains(spec_join(trash_path, name)));
}

/// Emptying the trash deletes every child of the trash directory and
/// nothing else: the plan holds one deletion for each child, at the child's
/// path inside the trash directory and in the way that fits its kind.
pub proof fn lemma_purge_covers_children(trash_path: Seq<char>, children: Seq<TrashChild>)
    ensures
        spec_removals(trash_path, children).len() == children.len(),
        forall|i: int|
            0 <= i < children.len() ==> (#[trigger] spec_removals(trash_path, children)[i]) == (
                spec_join(trash_path, children[i].name@),
                spec_removal_kind(children[i].kind),
            ),
{
}

proof fn lemma_filter_step<A>(s: Seq<A>, pred: spec_fn(A) -> bool, i: int)
    requires
        0 <= i < s.len(),
    ensures
        s.take(i + 1).filter(pred) == if pred(s[i]) {
            s.take(i).filter(pred).push(s[i])
        } else {
            s.take(i).filter(pred)
        },
{
    reveal(Seq::filter);
    assert(s.take(i + 1).drop_last() =~= s.take(i));
}

impl App {
    /// What every manager satisfies: its index is well formed.
    pub open spec fn wf(&self) -> bool {
        self.file_db.wf()
    }

    /// Puts the manager together from the command line, the settings and the
    /// opened index.
    pub fn create(
        cmd_args: CmdArgs,
        config: Config,
        file_db: FileDB,
    ) -> (created: Result<App, RRMError>)
        requires
            file_db.wf(),
        ensures
            created matches Ok(app) && app.wf() && app.files@ == cmd_args.files@ && app.trash_path
                == config.trash_path && app.file_db == file_db && app.cmd_args == cmd_args,
    {
        let mut files: Vec<String> = Vec::new();
        let mut i: usize = 0;
        while i < cmd_args.files.len()
            invariant
                i <= cmd_args.files.len(),
                files@ == cmd_args.files@.take(i as int),
            decreases cmd_args.files.len() - i,
        {
            files.push(cmd_args.files[i].clone());
            proof {
                assert(cmd_args.files@.take(i as int).push(cmd_args.files[i as int])
                    =~= cmd_args.files@.take(i + 1));
            }
            i += 1;
        }
        proof {
            assert(cmd_args.files@.take(i as int) =~= cmd_args.files@);
        }
        Ok(App { files, trash_path: config.trash_path, file_db, cmd_args })
    }

    /// Decides what this invocation does. `answer` is the line given in
    /// reply to the request for confirmation; it counts only where emptying
    /// the trash was asked for.
    pub fn execute(&self, answer: &str) -> (task: Task)
        ensures
            task == spec_task(self.cmd_args.spec_mode(), answer@),
    {
        match self.cmd_args.mode() {
            Mode::Purge => {
                if confirmed(answer) {
                    Task::Purge
                } else {
                    Task::Nothing
                }
            },
            Mode::List => Task::List,
            Mode::Trash => Task::Trash,
        }
    }

    /// Decides on the move of one operand into the trash. `kind` is what the
    /// operand, made absolute under `cwd`, refers to; `dir_files` are the
    /// names of the children of the trash directory. Nothing is changed.
    pub fn move_to_trash(
        &self,
        operand: &str,
        cwd: &str,
        kind: PathKind,
        dir_files: &Vec<String>,
    ) -> (planned: Result<Transfer, RRMError>)
        ensures
            match planned {
                Ok(transfer) => spec_plan(
                    self.trash_path@,
                    cwd@,
                    operand@,
                    kind,
                    names_of(dir_files@),
                ) == Ok::<Move, RRMError>(transfer@),
                Err(e) => spec_plan(self.trash_path@, cwd@, operand@, kind, names_of(dir_files@))
                    == Err::<Move, RRMError>(e),
            },
    {
        if operand.is_empty() {
            return Err(RRMError::NotATarget);
        }
        let source = resolve(cwd, operand);
        match kind {
            PathKind::Other => Err(RRMError::NotATarget),
            _ => match base_name(source.as_str()) {
                None => Err(RRMError::NotATarget),
                Some(name) => {
                    if contains_name(dir_files, &name) {
                        Err(RRMError::NameCollision)
                    } else {
                        let to = join(self.trash_path.as_str(), name.as_str());
                        Ok(Transfer { from: source, to, name })
                    }
                },
            },
        }
    }

    /// Records that the entry `name` was moved into the trash while the
    /// working directory was `cwd`.
    pub fn store_in_db(&mut self, name: &String, cwd: &str) -> (stored: Result<(), RRMError>)
        requires
            old(self).wf(),
        ensures
            final(self).wf(),
            final(self).files == old(self).files,
            final(self).trash_path == old(self).trash_path,
            final(self).cmd_args == old(self).cmd_args,
            match stored {
                Ok(_) => !has_name(old(self).file_db@, name@) && final(self).file_db@ == old(self).file_db@.push((name@, cwd@)),
                Err(e) => has_name(old(self).file_db@, name@) && e == RRMError::Duplicate
                    && final(self).file_db@ == old(self).file_db@,
            },
    {
        let entry = FileEntryDB { name: name.clone(), origin: String::from_str(cwd) };
        self.file_db.add(entry)
    }

    /// Plans the deletion of every child of the trash directory: one
    /// deletion for each child, in their order. The directory itself stays.
    pub fn permanenent_delete(&self, children: &Vec<TrashChild>) -> (plan: Vec<Removal>)
        ensures
            removals_of(plan@) == spec_removals(self.trash_path@, children@),
    {
        plan_removals(self.trash_path.as_str(), children)
    }

    /// Forgets every record, once every child of the trash directory is
    /// deleted.
    pub fn forget_all(&mut self)
        ensures
            final(self).wf(),
            final(self).file_db@ == Seq::<Row>::empty(),
            final(self).files == old(self).files,
            final(self).trash_path == old(self).trash_path,
            final(self).cmd_args == old(self).cmd_args,
    {
        self.file_db.clear_db();
    }

    /// The records to show: those of the index whose name is among
    /// `dir_files`, the names of the children of the trash directory.
    pub fn listed(&self, dir_files: &Vec<String>) -> (shown: Vec<FileEntryDB>)
        requires
            self.wf(),
        ensures
            rows_of(shown@) == spec_listed(self.file_db@, names_of(dir_files@)),
            forall|i: int|
                0 <= i < shown.len() ==> names_of(dir_files@).contains((#[trigger] shown[i]).name@),
    {
        let all = match self.file_db.get_all() {
            Ok(all) => all,
            Err(_) => unreached(),
        };
        let ghost rows = rows_of(all@);
        let ghost children = names_of(dir_files@);
        let ghost keep = |r: Row| children.contains(r.0);
        let mut shown: Vec<FileEntryDB> = Vec::new();
        let mut i: usize = 0;
        proof {
            reveal(Seq::filter);
            assert(rows.take(0).filter(keep) =~= Seq::<Row>::empty());
            assert(rows_of(shown@) =~= Seq::<Row>::empty());
        }
        while i < all.len()
            invariant
                i <= all.len(),
                rows == rows_of(all@),
                children == names_of(dir_files@),
                keep == |r: Row| children.contains(r.0),
                rows_of(shown@) == rows.take(i as int).filter(keep),
                forall|k: int|
                    0 <= k < shown.len() ==> children.contains((#[trigger] shown[k]).name@),
            decreases all.len() - i,
        {
            proof {
                lemma_filter_step(rows, keep, i as int);
                assert(rows[i as int] == all[i as int]@);
            }
            if contains_name(dir_files, &all[i].name) {
                let entry = FileEntryDB {
                    name: all[i].name.clone(),
                    origin: all[i].origin.clone(),
                };
                proof {
                    assert(rows_of(shown@.push(entry)) =~= rows_of(shown@).push(entry@));
                }
                shown.push(entry);
            }
            i += 1;
        }
        proof {
            assert(rows.take(i as int) =~= rows);
        }
        shown
    }

    /// The lines of the listing: the header, then one line for each record
    /// of the index whose name is among `dir_files`.
    pub fn list_trash(&self, dir_files: &Vec<String>) -> (listing: Result<Vec<String>, RRMError>)
        requires
            self.wf(),
        ensures
            listing matches Ok(lines) && lines_of(lines@) == spec_listing(
                self.file_db@,
                names_of(dir_files@),
            ),
    {
        let shown = self.listed(dir_files);
        let ghost rows = rows_of(shown@);
        let mut lines: Vec<String> = Vec::new();
        lines.push(String::from_str("name ->\t\torigin"));
        let mut i: usize = 0;
        while i < shown.len()
            invariant
                i <= shown.len(),
                rows == rows_of(shown@),
                lines.len() == i + 1,
                lines[0]@ == header_line(),
                forall|k: int| 0 <= k < i ==> (#[trigger] lines[k + 1])@ == entry_line(rows[k]),
            decreases shown.len() - i,
        {
            let line = String::from_str(shown[i].name.as_str()).concat(" ->\t\t").concat(
                shown[i].origin.as_str(),
            );
            proof {
                assert(rows[i as int] == shown[i as int]@);
            }
            lines.push(line);
            i += 1;
        }
        proof {
            let expected = seq![header_line()] + rows.map_values(|r: Row| entry_line(r));
            assert(lines_of(lines@).len() == expected.len());
            assert forall|k: int| 0 <= k < expected.len() implies lines_of(lines@)[k]
                == expected[k] by {
                if k > 0 {
                    assert(lines[(k - 1) + 1]@ == entry_line(rows[k - 1]));
                }
            }
            assert(lines_of(lines@) =~= expected);
        }
        Ok(lines)
    }
}

} // verus!
