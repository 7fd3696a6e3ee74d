use vstd::pervasive::unreached;
use vstd::prelude::*;
use crate::app::App;
use crate::config::{
    database_path, project_dirs, settings_path, spec_load, spec_settings_path, Config,
    ProjectPaths, SettingsProbe, CONFIG_FILE, DATABASE, TRASH_PATH,
};
use crate::database::{rows_of, unique_names, FileDB, FileEntryDB, Row};
use crate::paths::spec_join;
use crate::rrm_error::{ErrorView, RRMError};
use crate::setting::CmdArgs;
use crate::trash::{create_trash, spec_create_trash, TrashSetup};

verus! {

/// The preparation of the trash manager, at the point where it waits for
/// what the caller finds out.
pub enum Setup {
    /// Waits for the directories of the project.
    AwaitDirs { cmd_args: CmdArgs },
    /// Waits for what is at the place of the settings file.
    AwaitSettings { cmd_args: CmdArgs, data_dir: String, settings: String },
    /// Waits for the text of the settings file.
    AwaitSettingsText { cmd_args: CmdArgs, data_dir: String, settings: String },
    /// Waits for the data directory to be created.
    AwaitDataDir { cmd_args: CmdArgs, data_dir: String, config: Config },
    /// Waits for the records that the store holds.
    AwaitRows { cmd_args: CmdArgs, config: Config },
    /// Waits for what is at the place of the trash directory.
    AwaitTrashProbe { cmd_args: CmdArgs, config: Config, file_db: FileDB },
    /// Waits for the trash directory to be created.
    AwaitTrashCreated { cmd_args: CmdArgs, config: Config, file_db: FileDB },
}

/// What the caller found out while it carried out the action before.
#[derive(Debug, Clone, PartialEq, Eq)]
pub enum SetupEvent {
    /// The directories of the project, where the platform could name them.
    Dirs(Option<ProjectPaths>),
    /// Whether something is at the place of the settings file, and whether
    /// it is a regular file.
    SettingsFound { exists: bool, is_file: bool },
    /// The text of the settings file.
    Contents(String),
    /// The records that the store holds.
    Rows(Vec<FileEntryDB>),
    /// What is at the place of the trash directory; `exists` is `None` where
    /// the test for existence itself failed.
    TrashFound { exists: Option<bool>, is_symlink: bool, is_file: bool },
    /// The action was carried out.
    Done,
    /// The action could not be carried out.
    Failed,
}

/// What the caller has to do next.
#[derive(Debug, Clone, PartialEq, Eq)]
pub enum SetupAction {
    /// Find the directories of the project; answer with `Dirs`.
    LocateDirs,
    /// Look at this place for the settings file; answer with
    /// `SettingsFound`.
    ProbeSettings(String),
    /// Read the settings file at this place; answer with `Contents`.
    ReadSettings(String),
    /// Create this directory, with the directories above it; answer with
    /// `Done`.
    CreateDirs(String),
    /// Open the store at this place, or create it, and read its records;
    /// answer with `Rows`.
    OpenStore(String),
    /// Look at this place for the trash directory; answer with
    /// `TrashFound`.
    ProbeTrash(String),
}

/// How one step of the preparation ends.
pub enum SetupStep {
    /// The preparation goes on: the caller has to carry out the action.
    Ask(Setup, SetupAction),
    /// The preparation is over: the manager is ready.
    Ready(App),
    /// The preparation failed.
    Failed(RRMError),
}

/// The preparation over character sequences.
pub enum SetupView {
    AwaitDirs { cmd_args: CmdArgs },
    AwaitSettings { cmd_args: CmdArgs, data_dir: Seq<char>, settings: Seq<char> },
    AwaitSettingsText { cmd_args: CmdArgs, data_dir: Seq<char>, settings: Seq<char> },
    AwaitDataDir { cmd_args: CmdArgs, data_dir: Seq<char>, trash_path: Seq<char> },
    AwaitRows { cmd_args: CmdArgs, trash_path: Seq<char> },
    AwaitTrashProbe { cmd_args: CmdArgs, trash_path: Seq<char>, index: Seq<Row> },
    AwaitTrashCreated { cmd_args: CmdArgs, trash_path: Seq<char>, index: Seq<Row> },
}

/// An action of the preparation over character sequences.
pub enum SetupActionView {
    LocateDirs,
    ProbeSettings(Seq<char>),
    ReadSettings(Seq<char>),
    CreateDirs(Seq<char>),
    OpenStore(Seq<char>),
    ProbeTrash(Seq<char>),
}

/// The end of a step over character sequences.
pub enum SetupStepView {
    Ask(SetupView, SetupActionView),
    Ready { cmd_args: CmdArgs, trash_path: Seq<char>, index: Seq<Row> },
    Failed(ErrorView),
}

impl View for Setup {
    type V = SetupView;

    open spec fn view(&self) -> SetupView {
        match self {
            Setup::AwaitDirs { cmd_args } => SetupView::AwaitDirs { cmd_args: *cmd_args },
            Setup::AwaitSettings { cmd_args, data_dir, settings } => SetupView::AwaitSettings {
                cmd_args: *cmd_args,
                data_dir: data_dir@,
                settings: settings@,
            },
            Setup::AwaitSettingsText {
                cmd_args,
                data_dir,
                settings,
            } => SetupView::AwaitSettingsText {
                cmd_args: *cmd_args,
                data_dir: data_dir@,
                settings: settings@,
            },
            Setup::AwaitDataDir { cmd_args, data_dir, config } => SetupView::AwaitDataDir {
                cmd_args: *cmd_args,
                data_dir: data_dir@,
                trash_path: config.trash_path@,
            },
            Setup::AwaitRows { cmd_args, config } => SetupView::AwaitRows {
                cmd_args: *cmd_args,
                trash_path: config.trash_path@,
            },
            Setup::AwaitTrashProbe { cmd_args, config, file_db } => SetupView::AwaitTrashProbe {
                cmd_args: *cmd_args,
                trash_path: config.trash_path@,
                index: file_db@,
            },
            Setup::AwaitTrashCreated {
                cmd_args,
                config,
                file_db,
            } => SetupView::AwaitTrashCreated {
                cmd_args: *cmd_args,
                trash_path: config.trash_path@,
                index: file_db@,
            },
        }
    }
}

impl View for SetupAction {
    type V = SetupActionView;

    open spec fn view(&self) -> SetupActionView {
        match self {
            SetupAction::LocateDirs => SetupActionView::LocateDirs,
            SetupAction::ProbeSettings(path) => SetupActionView::ProbeSettings(path@),
            SetupAction::ReadSettings(path) => SetupActionView::ReadSettings(path@),
            SetupAction::CreateDirs(path) => SetupActionView::CreateDirs(path@),
            SetupAction::OpenStore(path) => SetupActionView::OpenStore(path@),
            SetupAction::ProbeTrash(path) => SetupActionView::ProbeTrash(path@),
        }
    }
}

impl View for SetupStep {
    type V = SetupStepView;

    open spec fn view(&self) -> SetupStepView {
        match self {
            SetupStep::Ask(setup, action) => SetupStepView::Ask(setup@, action@),
            SetupStep::Ready(app) => SetupStepView::Ready {
                cmd_args: app.cmd_args,
                trash_path: app.trash_path@,
                index: app.file_db@,
            },
            SetupStep::Failed(e) => SetupStepView::Failed(e@),
        }
    }
}

/// What holds of every preparation that is reached: no two records of the
/// index carry the same name.
pub open spec fn spec_setup_wf(s: SetupView) -> bool {
    match s {
        SetupView::AwaitTrashProbe { index, .. } => unique_names(index),
        SetupView::AwaitTrashCreated { index, .. } => unique_names(index),
        _ => true,
    }
}

/// How the preparation goes on once it is known what is at the place of the
/// settings file: with the trash directory that the settings name, or not at
/// all.
pub open spec fn spec_with_settings(
    cmd_args: CmdArgs,
    data_dir: Seq<char>,
    settings: Seq<char>,
    probe: SettingsProbe,
) -> SetupStepView {
    match spec_load(settings, probe) {
        Ok(trash_path) => SetupStepView::Ask(
            SetupView::AwaitDataDir { cmd_args, data_dir, trash_path },
            SetupActionView::CreateDirs(data_dir),
        ),
        Err(e) => SetupStepView::Failed(e),
    }
}

/// One step of the preparation, in this order: the directories of the
/// project must be known; the settings are read from the place given on the
/// command line, else from the default place, where a file is there; the
/// data directory is
/// created; the store is opened and its records are read; the trash
/// directory is accepted or created. The first thing that goes wrong ends
/// the preparation. An event that does not answer the action before counts
/// as the failure of that action.
pub open spec fn spec_setup_step(s: SetupView, event: SetupEvent) -> SetupStepView {
    match s {
        SetupView::AwaitDirs { cmd_args } => match event {
            SetupEvent::Dirs(Some(dirs)) => {
                let settings = spec_settings_path(cmd_args.config_path, dirs.config_dir@);
                SetupStepView::Ask(
                    SetupView::AwaitSettings { cmd_args, data_dir: dirs.data_dir@, settings },
                    SetupActionView::ProbeSettings(settings),
                )
            },
            _ => SetupStepView::Failed(ErrorView::SettingsPathUnknown),
        },
        SetupView::AwaitSettings { cmd_args, data_dir, settings } => match event {
            SetupEvent::SettingsFound { exists, is_file } => if !exists {
                spec_with_settings(cmd_args, data_dir, settings, SettingsProbe::Absent)
            } else if !is_file {
                spec_with_settings(cmd_args, data_dir, settings, SettingsProbe::NotAFile)
            } else {
                SetupStepView::Ask(
                    SetupView::AwaitSettingsText { cmd_args, data_dir, settings },
                    SetupActionView::ReadSettings(settings),
                )
            },
            _ => SetupStepView::Failed(ErrorView::IO),
        },
        SetupView::AwaitSettingsText { cmd_args, data_dir, settings } => match event {
            SetupEvent::Contents(text) => spec_with_settings(
                cmd_args,
                data_dir,
                settings,
                SettingsProbe::Contents(text),
            ),
            _ => SetupStepView::Failed(ErrorView::IO),
        },
        SetupView::AwaitDataDir { cmd_args, data_dir, trash_path } => match event {
            SetupEvent::Done => SetupStepView::Ask(
                SetupView::AwaitRows { cmd_args, trash_path },
                SetupActionView::OpenStore(spec_join(data_dir, DATABASE@)),
            ),
            _ => SetupStepView::Failed(ErrorView::IO),
        },
        SetupView::AwaitRows { cmd_args, trash_path } => match event {
            SetupEvent::Rows(rows) => if unique_names(rows_of(rows@)) {
                SetupStepView::Ask(
                    SetupView::AwaitTrashProbe { cmd_args, trash_path, index: rows_of(rows@) },
                    SetupActionView::ProbeTrash(trash_path),
                )
            } else {
                SetupStepView::Failed(ErrorView::IndexUnavailable)
            },
            _ => SetupStepView::Failed(ErrorView::IndexUnavailable),
        },
        SetupView::AwaitTrashProbe { cmd_args, trash_path, index } => match event {
            SetupEvent::TrashFound { exists, is_symlink, is_file } => match spec_create_trash(
                exists,
                is_symlink,
                is_file,
            ) {
                Ok(TrashSetup::Ready) => SetupStepView::Ready { cmd_args, trash_path, index },
                Ok(TrashSetup::Create) => SetupStepView::Ask(
                    SetupView::AwaitTrashCreated { cmd_args, trash_path, index },
                    SetupActionView::CreateDirs(trash_path),
                ),
                Err(e) => SetupStepView::Failed(e@),
            },
            _ => SetupStepView::Failed(ErrorView::TrashNotVerified),
        },
        SetupView::AwaitTrashCreated { cmd_args, trash_path, index } => match event {
            SetupEvent::Done => SetupStepView::Ready { cmd_args, trash_path, index },
            _ => SetupStepView::Failed(ErrorView::IO),
        },
    }
}

/// The settings file is looked for at the place given on the command line,
/// whatever the default place is, and at the default place without one.
/// Where nothing is at that place, the built-in trash directory is used; a
/// settings file that is malformed ends the preparation.
pub proof fn lemma_settings_precedence(cmd_args: CmdArgs, dirs: ProjectPaths, text: String)
    ensures
        ({
            let place = match cmd_args.config_path {
                Some(given) => given@,
                None => spec_join(dirs.config_dir@, CONFIG_FILE@),
            };
            let data_dir = dirs.data_dir@;
            let waiting = SetupView::AwaitSettings { cmd_args, data_dir, settings: place };
            let reading = SetupView::AwaitSettingsText { cmd_args, data_dir, settings: place };
            let absent = SetupEvent::SettingsFound { exists: false, is_file: false };
            &&& spec_setup_step(SetupView::AwaitDirs { cmd_args }, SetupEvent::Dirs(Some(dirs)))
                == SetupStepView::Ask(waiting, SetupActionView::ProbeSettings(place))
            &&& spec_setup_step(waiting, absent) == SetupStepView::Ask(
                SetupView::AwaitDataDir { cmd_args, data_dir, trash_path: TRASH_PATH@ },
                SetupActionView::CreateDirs(data_dir),
            )
            &&& spec_load(place, SettingsProbe::Contents(text)) is Err ==> spec_setup_step(
                reading,
                SetupEvent::Contents(text),
            ) == SetupStepView::Failed(ErrorView::SettingsFileParse)
        }),
{
}

impl Setup {
    /// What every preparation satisfies.
    pub open spec fn wf(&self) -> bool {
        spec_setup_wf(self@)
    }

    /// Begins the preparation for this command line.
    pub fn begin(cmd_args: CmdArgs) -> (start: (Setup, SetupAction))
        ensures
            start.0.wf(),
            start.0@ == (SetupView::AwaitDirs { cmd_args }),
            start.1@ == SetupActionView::LocateDirs,
    {
        (Setup::AwaitDirs { cmd_args }, SetupAction::LocateDirs)
    }

    fn ready(cmd_args: CmdArgs, config: Config, file_db: FileDB) -> (step: SetupStep)
        requires
            file_db.wf(),
        ensures
            step@ == (SetupStepView::Ready {
                cmd_args,
                trash_path: config.trash_path@,
                index: file_db@,
            }),
            step matches SetupStep::Ready(app) && app.wf() && app.files@ == cmd_args.files@,
    {
        match App::create(cmd_args, config, file_db) {
            Ok(app) => SetupStep::Ready(app),
            Err(_) => unreached(),
        }
    }

    fn with_settings(
        cmd_args: CmdArgs,
        data_dir: String,
        settings: String,
        probe: SettingsProbe,
    ) -> (step: SetupStep)
        ensures
            step@ == spec_with_settings(cmd_args, data_dir@, settings@, probe),
            step matches SetupStep::Ask(next, _) ==> next.wf(),
            !(step is Ready),
    {
        match Config::load(settings.as_str(), probe) {
            Ok(config) => {
                let action = SetupAction::CreateDirs(data_dir.clone());
                SetupStep::Ask(Setup::AwaitDataDir { cmd_args, data_dir, config }, action)
            },
            Err(e) => SetupStep::Failed(e),
        }
    }

    /// One step: takes note of what the caller found out while it carried
    /// out the action before, and says how the preparation goes on.
    pub fn step(self, event: SetupEvent) -> (step: SetupStep)
        requires
            self.wf(),
        ensures
            step@ == spec_setup_step(self@, event),
            step matches SetupStep::Ask(next, _) ==> next.wf(),
            step matches SetupStep::Ready(app) ==> app.wf() && app.files@ == app.cmd_args.files@,
    {
        match self {
            Setup::AwaitDirs { cmd_args } => match event {
                SetupEvent::Dirs(found) => match project_dirs(found) {
                    Ok(dirs) => {
                        let settings = settings_path(&cmd_args, dirs.config_dir.as_str());
                        let action = SetupAction::ProbeSettings(settings.clone());
                        SetupStep::Ask(
                            Setup::AwaitSettings { cmd_args, data_dir: dirs.data_dir, settings },
                            action,
                        )
                    },
                    Err(e) => SetupStep::Failed(e),
                },
                _ => SetupStep::Failed(RRMError::SettingsPathUnknown),
            },
            Setup::AwaitSettings { cmd_args, data_dir, settings } => match event {
                SetupEvent::SettingsFound { exists, is_file } => {
                    if !exists {
                        Setup::with_settings(cmd_args, data_dir, settings, SettingsProbe::Absent)
                    } else if !is_file {
                        Setup::with_settings(cmd_args, data_dir, settings, SettingsProbe::NotAFile)
                    } else {
                        let action = SetupAction::ReadSettings(settings.clone());
                        SetupStep::Ask(
                            Setup::AwaitSettingsText { cmd_args, data_dir, settings },
                            action,
                        )
                    }
                },
                _ => SetupStep::Failed(RRMError::IO),
            },
            Setup::AwaitSettingsText { cmd_args, data_dir, settings } => match event {
                SetupEvent::Contents(text) => Setup::with_settings(
                    cmd_args,
                    data_dir,
                    settings,
                    SettingsProbe::Contents(text),
                ),
                _ => SetupStep::Failed(RRMError::IO),
            },
            Setup::AwaitDataDir { cmd_args, data_dir, config } => match event {
                SetupEvent::Done => {
                    let action = SetupAction::OpenStore(database_path(data_dir.as_str()));
                    SetupStep::Ask(Setup::AwaitRows { cmd_args, config }, action)
                },
                _ => SetupStep::Failed(RRMError::IO),
            },
            Setup::AwaitRows { cmd_args, config } => match event {
                SetupEvent::Rows(rows) => match FileDB::new(rows) {
                    Ok(file_db) => {
                        let action = SetupAction::ProbeTrash(config.trash_path.clone());
                        SetupStep::Ask(Setup::AwaitTrashProbe { cmd_args, config, file_db }, action)
                    },
                    Err(e) => SetupStep::Failed(e),
                },
                _ => SetupStep::Failed(RRMError::IndexUnavailable),
            },
            Setup::AwaitTrashProbe { cmd_args, config, file_db } => match event {
                SetupEvent::TrashFound { exists, is_symlink, is_file } => match create_trash(
                    exists,
                    is_symlink,
                    is_file,
                ) {
                    Ok(TrashSetup::Ready) => Setup::ready(cmd_args, config, file_db),
                    Ok(TrashSetup::Create) => {
                        let action = SetupAction::CreateDirs(config.trash_path.clone());
                        SetupStep::Ask(
                            Setup::AwaitTrashCreated { cmd_args, config, file_db },
                            action,
                        )
                    },
                    Err(e) => SetupStep::Failed(e),
                },
                _ => SetupStep::Failed(RRMError::TrashNotVerified),
            },
            Setup::AwaitTrashCreated { cmd_args, config, file_db } => match event {
                SetupEvent::Done => Setup::ready(cmd_args, config, file_db),
                _ => SetupStep::Failed(RRMError::IO),
            },
        }
    }
}

} // verus!
