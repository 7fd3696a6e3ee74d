use rrm::config::{
    database_path, project_dirs, settings_path, Config, ProjectPaths, SettingsProbe, CONFIG_FILE,
    DATABASE, TRASH_PATH,
};
use rrm::rrm_error::RRMError;
use rrm::setting::{CmdArgs, Mode};

fn args(config_path: Option<&str>, list: bool, clear_trash: bool, undo: bool) -> CmdArgs {
    CmdArgs::parse_cmd_args(
        vec!["a.txt".to_string()],
        config_path.map(|p| p.to_string()),
        list,
        clear_trash,
        undo,
    )
    .unwrap()
}

#[test]
fn parse_cmd_args_keeps_every_value() {
    let parsed = CmdArgs::parse_cmd_args(
        vec!["a.txt".to_string(), "d/".to_string()],
        Some("/etc/rrm.toml".to_string()),
        true,
        false,
        true,
    );
    assert_eq!(
        parsed,
        Ok(CmdArgs {
            files: vec!["a.txt".to_string(), "d/".to_string()],
            config_path: Some("/etc/rrm.toml".to_string()),
            list: true,
            clear_trash: false,
            undo: true,
        })
    );
}

#[test]
fn mode_is_trash_without_flags() {
    assert_eq!(args(None, false, false, false).mode(), Mode::Trash);
    assert_eq!(args(None, false, false, true).mode(), Mode::Trash);
}

#[test]
fn mode_is_list_with_the_list_flag() {
    assert_eq!(args(None, true, false, false).mode(), Mode::List);
}

#[test]
fn purge_comes_before_list() {
    assert_eq!(args(None, false, true, false).mode(), Mode::Purge);
    assert_eq!(args(None, true, true, true).mode(), Mode::Purge);
}

#[test]
fn constants_have_their_values() {
    assert_eq!(CONFIG_FILE, "rrm_settings.toml");
    assert_eq!(TRASH_PATH, "/tmp/rrm/trash");
    assert_eq!(DATABASE, "trashDB.db");
}

#[test]
fn a_given_config_path_overrides_the_default() {
    let given = args(Some("/etc/rrm.toml"), false, false, false);
    assert_eq!(settings_path(&given, "/home/alice/.config/rrm"), "/etc/rrm.toml");
}

#[test]
fn the_default_settings_path_is_inside_the_config_dir() {
    let none = args(None, false, false, false);
    assert_eq!(
        settings_path(&none, "/home/alice/.config/rrm"),
        "/home/alice/.config/rrm/rrm_settings.toml"
    );
}

#[test]
fn the_index_file_is_inside_the_data_dir() {
    assert_eq!(
        database_path("/home/alice/.local/share/rrm"),
        "/home/alice/.local/share/rrm/trashDB.db"
    );
}

#[test]
fn project_dirs_that_are_unknown_are_an_error() {
    assert_eq!(project_dirs(None), Err(RRMError::SettingsPathUnknown));
    let paths = ProjectPaths { config_dir: "/c".to_string(), data_dir: "/d".to_string() };
    assert_eq!(project_dirs(Some(paths.clone())), Ok(paths));
}

#[test]
fn an_absent_settings_file_gives_the_built_in_trash() {
    assert_eq!(
        Config::load("/home/alice/.config/rrm/rrm_settings.toml", SettingsProbe::Absent),
        Ok(Config { trash_path: "/tmp/rrm/trash".to_string() })
    );
}

#[test]
fn a_settings_path_that_is_no_file_is_not_found() {
    assert_eq!(
        Config::load("/etc", SettingsProbe::NotAFile),
        Err(RRMError::FileNotFound("/etc".to_string()))
    );
}

#[test]
fn an_unreadable_settings_file_is_an_io_error() {
    assert_eq!(Config::load("/etc/rrm.toml", SettingsProbe::Unreadable), Err(RRMError::IO));
}

#[test]
fn a_settings_file_names_the_trash() {
    let text = "trash_path = \"/home/alice/trash\"\n".to_string();
    assert_eq!(
        Config::load("/etc/rrm.toml", SettingsProbe::Contents(text)),
        Ok(Config { trash_path: "/home/alice/trash".to_string() })
    );
}

#[test]
fn a_settings_file_may_hold_other_keys() {
    let text = "# settings\ncolour = true\ntrash_path = '/srv/trash'\n[extra]\nn = 1\n".to_string();
    assert_eq!(
        Config::load("/etc/rrm.toml", SettingsProbe::Contents(text)),
        Ok(Config { trash_path: "/srv/trash".to_string() })
    );
}

#[test]
fn a_malformed_settings_file_is_refused() {
    let text = "trash_path = /home/alice/trash".to_string();
    assert_eq!(
        Config::load("/etc/rrm.toml", SettingsProbe::Contents(text)),
        Err(RRMError::SettingsFileParse)
    );
    let text = "trash_path \"x\"".to_string();
    assert_eq!(
        Config::load("/etc/rrm.toml", SettingsProbe::Contents(text)),
        Err(RRMError::SettingsFileParse)
    );
}

#[test]
fn a_settings_file_without_the_key_is_refused() {
    assert_eq!(
        Config::load("/etc/rrm.toml", SettingsProbe::Contents(String::new())),
        Err(RRMError::SettingsFileParse)
    );
    let text = "trash = \"/home/alice/trash\"\n".to_string();
    assert_eq!(
        Config::load("/etc/rrm.toml", SettingsProbe::Contents(text)),
        Err(RRMError::SettingsFileParse)
    );
}

#[test]
fn a_trash_path_that_is_no_string_is_refused() {
    let text = "trash_path = 7\n".to_string();
    assert_eq!(
        Config::load("/etc/rrm.toml", SettingsProbe::Contents(text)),
        Err(RRMError::SettingsFileParse)
    );
}

#[test]
fn from_field_takes_only_a_string() {
    assert_eq!(
        Config::from_field(Some(Some("/t".to_string()))),
        Ok(Config { trash_path: "/t".to_string() })
    );
    assert_eq!(Config::from_field(Some(None)), Err(RRMError::SettingsFileParse));
    assert_eq!(Config::from_field(None), Err(RRMError::SettingsFileParse));
}
