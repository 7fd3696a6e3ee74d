use vstd::prelude::*;

verus! {

/// Everything that can go wrong while setting up or running the trash manager.
#[derive(Debug, Clone, PartialEq, Eq)]
pub enum RRMError {
    /// The per-user configuration directory cannot be located.
    SettingsPathUnknown,
    /// A file was expected at the given path and is not there.
    FileNotFound(String),
    /// The settings file is present but malformed.
    SettingsFileParse,
    /// An underlying filesystem call failed.
    IO,
    /// The trash path exists and is a regular file or a symbolic link.
    TrashNotDir,
    /// The existence of the trash path could not be determined.
    TrashNotVerified,
    /// The index could not be opened or queried.
    IndexUnavailable,
    /// An entry with the same name already occupies the trash directory.
    NameCollision,
    /// The source and the trash directory are on different volumes.
    CrossDeviceMove,
    /// The operand is not a regular file, a directory or a symbolic link.
    NotATarget,
    /// The index already holds an entry with that name.
    Duplicate,
    /// The index holds no entry with that name.
    NotFound,
}

/// An error with its path as a character sequence.
pub enum ErrorView {
    SettingsPathUnknown,
    FileNotFound(Seq<char>),
    SettingsFileParse,
    IO,
    TrashNotDir,
    TrashNotVerified,
    IndexUnavailable,
    NameCollision,
    CrossDeviceMove,
    NotATarget,
    Duplicate,
    NotFound,
}

impl View for RRMError {
    type V = ErrorView;

    open spec fn view(&self) -> ErrorView {
        match self {
            RRMError::SettingsPathUnknown => ErrorView::SettingsPathUnknown,
            RRMError::FileNotFound(path) => ErrorView::FileNotFound(path@),
            RRMError::SettingsFileParse => ErrorView::SettingsFileParse,
            RRMError::IO => ErrorView::IO,
            RRMError::TrashNotDir => ErrorView::TrashNotDir,
            RRMError::TrashNotVerified => ErrorView::TrashNotVerified,
            RRMError::IndexUnavailable => ErrorView::IndexUnavailable,
            RRMError::NameCollision => ErrorView::NameCollision,
            RRMError::CrossDeviceMove => ErrorView::CrossDeviceMove,
            RRMError::NotATarget => ErrorView::NotATarget,
            RRMError::Duplicate => ErrorView::Duplicate,
            RRMError::NotFound => ErrorView::NotFound,
        }
    }
}

impl RRMError {
    /// The same error once more.
    pub fn copy(&self) -> (same: RRMError)
        ensures
            same == *self,
    {
        match self {
            RRMError::SettingsPathUnknown => RRMError::SettingsPathUnknown,
            RRMError::FileNotFound(path) => RRMError::FileNotFound(path.clone()),
            RRMError::SettingsFileParse => RRMError::SettingsFileParse,
            RRMError::IO => RRMError::IO,
            RRMError::TrashNotDir => RRMError::TrashNotDir,
            RRMError::TrashNotVerified => RRMError::TrashNotVerified,
            RRMError::IndexUnavailable => RRMError::IndexUnavailable,
            RRMError::NameCollision => RRMError::NameCollision,
            RRMError::CrossDeviceMove => RRMError::CrossDeviceMove,
            RRMError::NotATarget => RRMError::NotATarget,
            RRMError::Duplicate => RRMError::Duplicate,
            RRMError::NotFound => RRMError::NotFound,
        }
    }

    /// The text shown to the user for each kind of error.
    pub open spec fn message_text(&self) -> Seq<char> {
        match self {
            RRMError::SettingsPathUnknown => "Failed to read settings path"@,
            RRMError::FileNotFound(_) => "Could not find file"@,
            RRMError::SettingsFileParse => "Failed to parse settings file"@,
            RRMError::IO => "IO Error"@,
            RRMError::TrashNotDir => "Trash is not a directory"@,
            RRMError::TrashNotVerified => "Failed to verify path"@,
            RRMError::IndexUnavailable => "Failed to open database"@,
            RRMError::NameCollision => "An entry with the same name is already in the trash"@,
            RRMError::CrossDeviceMove => "The trash is on another volume"@,
            RRMError::NotATarget => "The path is not pointing to anything"@,
            RRMError::Duplicate => "The entry is already recorded"@,
            RRMError::NotFound => "The entry is not recorded"@,
        }
    }

    /// Renders the error for the user.
    pub fn message(&self) -> (text: String)
        ensures
            text@ == self.message_text(),
    {
        match self {
            RRMError::SettingsPathUnknown => String::from_str("Failed to read settings path"),
            RRMError::FileNotFound(_) => String::from_str("Could not find file"),
            RRMError::SettingsFileParse => String::from_str("Failed to parse settings file"),
            RRMError::IO => String::from_str("IO Error"),
            RRMError::TrashNotDir => String::from_str("Trash is not a directory"),
            RRMError::TrashNotVerified => String::from_str("Failed to verify path"),
            RRMError::IndexUnavailable => String::from_str("Failed to open database"),
            RRMError::NameCollision => String::from_str(
                "An entry with the same name is already in the trash",
            ),
            RRMError::CrossDeviceMove => String::from_str("The trash is on another volume"),
            RRMError::NotATarget => String::from_str("The path is not pointing to anything"),
            RRMError::Duplicate => String::from_str("The entry is already recorded"),
            RRMError::NotFound => String::from_str("The entry is not recorded"),
        }
    }
}

} // verus!
