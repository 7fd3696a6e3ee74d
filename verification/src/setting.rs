use vstd::prelude::*;
use crate::rrm_error::RRMError;

verus! {

/// What the command line asked for.
#[derive(Debug, Clone, PartialEq, Eq)]
pub struct CmdArgs {
    /// The operands, in the order given.
    pub files: Vec<String>,
    /// Where to look for the settings file instead of the default place.
    pub config_path: Option<String>,
    /// List the entries in the trash.
    pub list: bool,
    /// Empty the trash and the index.
    pub clear_trash: bool,
    /// Reserved for restoring the entry removed last.
    pub undo: bool,
}

/// The operation of one invocation.
#[derive(Debug, Clone, Copy, PartialEq, Eq, Structural)]
pub enum Mode {
    /// Delete everything in the trash, after confirmation.
    Purge,
    /// Show the entries in the trash with their origins.
    List,
    /// Move the operands into the trash.
    Trash,
}

impl CmdArgs {
    /// The operation that the flags select: emptying the trash comes before
    /// listing, listing before trashing. The flags that lose are ignored.
    pub open spec fn spec_mode(&self) -> Mode {
        if self.clear_trash {
            Mode::Purge
        } else if self.list {
            Mode::List
        } else {
            Mode::Trash
        }
    }

    /// Gathers the values that the command line was split into.
    pub fn parse_cmd_args(
        files: Vec<String>,
        config_path: Option<String>,
        list: bool,
        clear_trash: bool,
        undo: bool,
    ) -> (parsed: Result<CmdArgs, RRMError>)
        ensures
            parsed == Ok::<CmdArgs, RRMError>(
                (CmdArgs { files, config_path, list, clear_trash, undo }),
            ),
    {
        Ok(CmdArgs { files, config_path, list, clear_trash, undo })
    }

    /// The operation that the flags select.
    #[verifier::when_used_as_spec(spec_mode)]
    pub fn mode(&self) -> (mode: Mode)
        ensures
            mode == self.spec_mode(),
    {
        if self.clear_trash {
            Mode::Purge
        } else if self.list {
            Mode::List
        } else {
            Mode::Trash
        }
    }
}

} // verus!
