use vstd::prelude::*;
use vstd::string::*;
use crate::paths::{join, spec_join};
use crate::rrm_error::{ErrorView, RRMError};
use crate::setting::CmdArgs;

verus! {

/// The name of the settings file inside the configuration directory.
pub const CONFIG_FILE: &'static str = "rrm_settings.toml";

/// The trash directory that is used where no settings file exists.
pub const TRASH_PATH: &'static str = "/tmp/rrm/trash";

/// The name of the index file inside the data directory.
pub const DATABASE: &'static str = "trashDB.db";

/// The key of the settings file that holds the trash directory.
pub const TRASH_PATH_KEY: &'static str = "trash_path";

/// The settings of the trash manager.
#[derive(Debug, Clone, PartialEq, Eq)]
pub struct Config {
    /// The directory that receives the moved entries.
    pub trash_path: String,
}

/// What was found at the place of the settings file.
#[derive(Debug, Clone, PartialEq, Eq)]
pub enum SettingsProbe {
    /// Nothing is there.
    Absent,
    /// Something is there that is not a regular file.
    NotAFile,
    /// A file is there and could not be read.
    Unreadable,
    /// A file is there, with this text.
    Contents(String),
}

/// The error of `toml`'s parser, `toml::de::Error`. Nothing is known of
/// what it holds.
#[verifier::external_type_specification]
#[verifier::external_body]
pub struct ExTomlError(toml::de::Error);

/// What a TOML document holds under a key of its top level: `None` where
/// `text` is no TOML document, `Some(None)` where the document has no string
/// under `key`, `Some(Some(value))` where it has the string `value` there.
pub uninterp spec fn toml_string_field(text: Seq<char>, key: Seq<char>) -> Option<Option<Seq<char>>>;

/// Parses `text` with `toml::from_str` into a `toml::Table` and looks `key`
/// up with `toml::map::Map::get`. Not proved: that the outcome is
/// `toml_string_field` of the text and the key, an error of the parser
/// standing for "no document" and any value but a string for "no string".
#[verifier::external_body]
fn read_string_field(text: &str, key: &str) -> (field: Result<Option<String>, toml::de::Error>)
    ensures
        toml_string_field(text@, key@) == match field {
            Ok(Some(value)) => Some(Some(value@)),
            Ok(None) => Some(None),
            Err(_) => None,
        },
{
    let table = toml::from_str::<toml::Table>(text)?;
    match table.get(key) {
        Some(toml::Value::String(value)) => Ok(Some(value.clone())),
        _ => Ok(None),
    }
}

/// The place of the settings file: the one given on the command line, else
/// the settings file's name inside the configuration directory.
pub open spec fn spec_settings_path(config_path: Option<String>, config_dir: Seq<char>) -> Seq<
    char,
> {
    match config_path {
        Some(given) => given@,
        None => spec_join(config_dir, CONFIG_FILE@),
    }
}

/// A path given on the command line is the place of the settings file,
/// whatever the configuration directory is; without one, the settings file
/// is looked for inside the configuration directory.
pub proof fn lemma_given_path_overrides(config_path: Option<String>, config_dir: Seq<char>)
    ensures
        config_path matches Some(given) ==> spec_settings_path(config_path, config_dir) == given@,
        config_path is None ==> spec_settings_path(config_path, config_dir) == spec_join(
            config_dir,
            CONFIG_FILE@,
        ),
{
}

/// The directories of the project: the one that holds the settings file and
/// the one that holds the index.
#[derive(Debug, Clone, PartialEq, Eq)]
pub struct ProjectPaths {
    pub config_dir: String,
    pub data_dir: String,
}

/// The directories of the project, where the platform could name them.
pub fn project_dirs(found: Option<ProjectPaths>) -> (located: Result<ProjectPaths, RRMError>)
    ensures
        located == match found {
            Some(paths) => Ok::<ProjectPaths, RRMError>(paths),
            None => Err(RRMError::SettingsPathUnknown),
        },
{
    match found {
        Some(paths) => Ok(paths),
        None => Err(RRMError::SettingsPathUnknown),
    }
}

/// The place of the settings file. A path given on the command line
/// overrides the default place.
pub fn settings_path(cmd_args: &CmdArgs, config_dir: &str) -> (path: String)
    ensures
        path@ == spec_settings_path(cmd_args.config_path, config_dir@),
{
    match &cmd_args.config_path {
        Some(given) => given.clone(),
        None => join(config_dir, CONFIG_FILE),
    }
}

/// The place of the index file inside the data directory.
pub fn database_path(data_dir: &str) -> (path: String)
    ensures
        path@ == spec_join(data_dir@, DATABASE@),
{
    join(data_dir, DATABASE)
}

/// The trash directory that the settings name, from what was found at
/// `path`: the built-in one where nothing is there; the string under the
/// trash key where a settings file is there. Anything else at that place,
/// a file that cannot be read, a text that is no document and a document
/// without a string under the key are errors.
pub open spec fn spec_load(path: Seq<char>, probe: SettingsProbe) -> Result<Seq<char>, ErrorView> {
    match probe {
        SettingsProbe::Absent => Ok(TRASH_PATH@),
        SettingsProbe::NotAFile => Err(ErrorView::FileNotFound(path)),
        SettingsProbe::Unreadable => Err(ErrorView::IO),
        SettingsProbe::Contents(text) => match toml_string_field(text@, TRASH_PATH_KEY@) {
            Some(Some(value)) => Ok(value),
            _ => Err(ErrorView::SettingsFileParse),
        },
    }
}

impl Config {
    /// The settings that a parsed settings file yields: the string under the
    /// trash key. A text that is no document, or a document without a string
    /// there, is malformed.
    pub fn from_field(field: Option<Option<String>>) -> (loaded: Result<Config, RRMError>)
        ensures
            match field {
                Some(Some(value)) => loaded matches Ok(config) && config.trash_path@ == value@,
                _ => loaded == Err::<Config, RRMError>(RRMError::SettingsFileParse),
            },
    {
        match field {
            Some(Some(value)) => Ok(Config { trash_path: value }),
            _ => Err(RRMError::SettingsFileParse),
        }
    }

    /// The settings, from what was found at `path`. Where nothing is there,
    /// the built-in trash directory is used; a file that is there must be a
    /// readable, well-formed settings file.
    pub fn load(path: &str, probe: SettingsProbe) -> (loaded: Result<Config, RRMError>)
        ensures
            match loaded {
                Ok(config) => spec_load(path@, probe) == Ok::<Seq<char>, ErrorView>(
                    config.trash_path@,
                ),
                Err(e) => spec_load(path@, probe) == Err::<Seq<char>, ErrorView>(e@),
            },
    {
        match probe {
            SettingsProbe::Absent => Ok(Config { trash_path: String::from_str(TRASH_PATH) }),
            SettingsProbe::NotAFile => Err(RRMError::FileNotFound(String::from_str(path))),
            SettingsProbe::Unreadable => Err(RRMError::IO),
            SettingsProbe::Contents(text) => {
                match read_string_field(text.as_str(), TRASH_PATH_KEY) {
                    Ok(field) => Config::from_field(Some(field)),
                    Err(_) => Config::from_field(None),
                }
            },
        }
    }
}

} // verus!
