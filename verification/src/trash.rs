use vstd::prelude::*;
use crate::paths::{join, spec_join};
use crate::rrm_error::RRMError;

verus! {

/// What a path refers to. A symbolic link is a link, whatever it points at.
#[derive(Debug, Clone, Copy, PartialEq, Eq, Structural)]
pub enum PathKind {
    Symlink,
    Directory,
    RegularFile,
    /// Anything else: a socket, a device, or nothing at all.
    Other,
}

/// What has to be done so that the trash directory exists.
#[derive(Debug, Clone, Copy, PartialEq, Eq, Structural)]
pub enum TrashSetup {
    /// The directory is there.
    Ready,
    /// The directory has to be created, with the directories above it.
    Create,
}

/// How the move of an entry into the trash ended.
#[derive(Debug, Clone, Copy, PartialEq, Eq, Structural)]
pub enum MoveOutcome {
    /// The entry was renamed into the trash directory.
    Moved,
    /// The entry and the trash directory are on different volumes.
    CrossDevice,
    /// The rename failed for another reason.
    Failed,
}

/// How a child of the trash directory is deleted.
#[derive(Debug, Clone, Copy, PartialEq, Eq, Structural)]
pub enum RemovalKind {
    /// The child is unlinked.
    Unlink,
    /// The child is removed together with everything below it.
    RemoveTree,
}

/// A direct child of the trash directory.
#[derive(Debug, Clone, PartialEq, Eq)]
pub struct TrashChild {
    pub name: String,
    pub kind: PathKind,
}

/// The deletion of one child of the trash directory.
#[derive(Debug, Clone, PartialEq, Eq)]
pub struct Removal {
    pub path: String,
    pub how: RemovalKind,
}

/// The move of one entry into the trash directory.
#[derive(Debug, Clone, PartialEq, Eq)]
pub struct Transfer {
    /// The absolute path of the entry.
    pub from: String,
    /// The path that the entry gets inside the trash directory.
    pub to: String,
    /// The name of the entry inside the trash directory.
    pub name: String,
}

/// The kind of a path, from the three tests on it. A link counts as a link
/// even where it points at a directory or a file.
pub open spec fn spec_classify(is_symlink: bool, is_dir: bool, is_file: bool) -> PathKind {
    if is_symlink {
        PathKind::Symlink
    } else if is_dir {
        PathKind::Directory
    } else if is_file {
        PathKind::RegularFile
    } else {
        PathKind::Other
    }
}

/// The kind of a path, from the three tests on it.
#[verifier::when_used_as_spec(spec_classify)]
pub fn classify(is_symlink: bool, is_dir: bool, is_file: bool) -> (kind: PathKind)
    ensures
        kind == spec_classify(is_symlink, is_dir, is_file),
{
    if is_symlink {
        PathKind::Symlink
    } else if is_dir {
        PathKind::Directory
    } else if is_file {
        PathKind::RegularFile
    } else {
        PathKind::Other
    }
}

/// What the trash directory needs, from what was found at its path. `exists`
/// is `None` where the test for existence itself failed; the test follows a
/// symbolic link, so it says `false` of a link whose target is missing. A
/// symbolic link is refused, whatever it points at and whether or not its
/// target is there. A path at which nothing is found is created; one that
/// is there must be a real directory: a regular file is refused.
pub open spec fn spec_create_trash(exists: Option<bool>, is_symlink: bool, is_file: bool) -> Result<
    TrashSetup,
    RRMError,
> {
    match exists {
        None => Err(RRMError::TrashNotVerified),
        Some(there) => if is_symlink {
            Err(RRMError::TrashNotDir)
        } else if !there {
            Ok(TrashSetup::Create)
        } else if is_file {
            Err(RRMError::TrashNotDir)
        } else {
            Ok(TrashSetup::Ready)
        },
    }
}

/// A symbolic link at the place of the trash directory is never accepted
/// and never created over: once it is known that the place could be tested,
/// the answer is `TrashNotDir`.
pub proof fn lemma_link_is_never_trash(exists: bool, is_file: bool)
    ensures
        spec_create_trash(Some(exists), true, is_file) == Err::<TrashSetup, RRMError>(
            RRMError::TrashNotDir,
        ),
{
}

/// Decides what the trash directory needs, from what was found at its path.
pub fn create_trash(
    exists: Option<bool>,
    is_symlink: bool,
    is_file: bool,
) -> (setup: Result<TrashSetup, RRMError>)
    ensures
        setup == spec_create_trash(exists, is_symlink, is_file),
{
    match exists {
        None => Err(RRMError::TrashNotVerified),
        Some(there) => {
            if is_symlink {
                Err(RRMError::TrashNotDir)
            } else if !there {
                Ok(TrashSetup::Create)
            } else if is_file {
                Err(RRMError::TrashNotDir)
            } else {
                Ok(TrashSetup::Ready)
            }
        },
    }
}

/// How a child of that kind is deleted: links and regular files are
/// unlinked, everything else is removed as a tree.
pub open spec fn spec_removal_kind(kind: PathKind) -> RemovalKind {
    if kind == PathKind::Symlink || kind == PathKind::RegularFile {
        RemovalKind::Unlink
    } else {
        RemovalKind::RemoveTree
    }
}

/// How a child of that kind is deleted.
#[verifier::when_used_as_spec(spec_removal_kind)]
pub fn removal_kind(kind: PathKind) -> (how: RemovalKind)
    ensures
        how == spec_removal_kind(kind),
{
    match kind {
        PathKind::Symlink | PathKind::RegularFile => RemovalKind::Unlink,
        _ => RemovalKind::RemoveTree,
    }
}

/// What a failed or finished move means for the operand.
pub fn move_result(outcome: MoveOutcome) -> (result: Result<(), RRMError>)
    ensures
        result == match outcome {
            MoveOutcome::Moved => Ok::<(), RRMError>(()),
            MoveOutcome::CrossDevice => Err(RRMError::CrossDeviceMove),
            MoveOutcome::Failed => Err(RRMError::IO),
        },
{
    match outcome {
        MoveOutcome::Moved => Ok(()),
        MoveOutcome::CrossDevice => Err(RRMError::CrossDeviceMove),
        MoveOutcome::Failed => Err(RRMError::IO),
    }
}

/// The names of a listing, as character sequences.
pub open spec fn names_of(files: Seq<String>) -> Seq<Seq<char>> {
    files.map_values(|f: String| f@)
}

/// Whether `name` is one of `files`.
pub fn contains_name(files: &Vec<String>, name: &String) -> (found: bool)
    ensures
        found == names_of(files@).contains(name@),
{
    let mut i: usize = 0;
    while i < files.len()
        invariant
            i <= files.len(),
            forall|j: int| 0 <= j < i ==> (#[trigger] files[j])@ != name@,
        decreases files.len() - i,
    {
        if files[i] == *name {
            proof {
                assert(names_of(files@)[i as int] == name@);
            }
            return true;
        }
        i += 1;
    }
    proof {
        let names = names_of(files@);
        assert forall|j: int| 0 <= j < names.len() implies names[j] != name@ by {
            assert(files[j]@ != name@);
        }
    }
    false
}

/// The deletions that empty a trash directory with these children: one for
/// each child, in their order.
pub open spec fn spec_removals(trash_path: Seq<char>, children: Seq<TrashChild>) -> Seq<
    (Seq<char>, RemovalKind),
> {
    children.map_values(
        |c: TrashChild| (spec_join(trash_path, c.name@), spec_removal_kind(c.kind)),
    )
}

impl View for Removal {
    type V = (Seq<char>, RemovalKind);

    open spec fn view(&self) -> (Seq<char>, RemovalKind) {
        (self.path@, self.how)
    }
}

/// The deletions of a plan, as pairs of a path and a way to delete.
pub open spec fn removals_of(plan: Seq<Removal>) -> Seq<(Seq<char>, RemovalKind)> {
    plan.map_values(|r: Removal| r@)
}

/// Plans the deletion of every child of the trash directory.
pub fn plan_removals(trash_path: &str, children: &Vec<TrashChild>) -> (plan: Vec<Removal>)
    ensures
        removals_of(plan@) == spec_removals(trash_path@, children@),
{
    let mut plan: Vec<Removal> = Vec::new();
    let mut i: usize = 0;
    while i < children.len()
        invariant
            i <= children.len(),
            plan.len() == i,
            forall|j: int|
                0 <= j < i ==> (#[trigger] plan[j]).path@ == spec_join(
                    trash_path@,
                    children[j].name@,
                ) && plan[j].how == spec_removal_kind(children[j].kind),
        decreases children.len() - i,
    {
        let path = join(trash_path, children[i].name.as_str());
        plan.push(Removal { path, how: removal_kind(children[i].kind) });
        i += 1;
    }
    proof {
        assert(removals_of(plan@) =~= spec_removals(trash_path@, children@));
    }
    plan
}

} // verus!
