use rrm::app::App;
use rrm::config::Config;
use rrm::database::{FileDB, FileEntryDB};
use rrm::dispatch::{Action, Dispatcher, Event, Phase, Turn, PROMPT, WILL_CLEAR, WILL_NOT_CLEAR};
use rrm::rrm_error::RRMError;
use rrm::setting::CmdArgs;
use rrm::trash::{MoveOutcome, PathKind, RemovalKind, TrashChild};

const TRASH: &str = "/tmp/rrm/trash";

/// A disk and a store that exist only in memory.
struct World {
    /// Absolute paths outside the trash directory, each with its kind and,
    /// for a link, its target.
    entries: Vec<(String, PathKind, String)>,
    /// The children of the trash directory: name, kind, target.
    trash: Vec<(String, PathKind, String)>,
    /// The rows of the store.
    store: Vec<FileEntryDB>,
    cwd: String,
    answer: String,
    other_volume: bool,
    store_fails: bool,
    removal_fails_at: Option<String>,
    printed: Vec<String>,
    reported: Vec<RRMError>,
    actions: Vec<String>,
}

impl World {
    fn new(cwd: &str) -> World {
        World {
            entries: Vec::new(),
            trash: Vec::new(),
            store: Vec::new(),
            cwd: cwd.to_string(),
            answer: String::new(),
            other_volume: false,
            store_fails: false,
            removal_fails_at: None,
            printed: Vec::new(),
            reported: Vec::new(),
            actions: Vec::new(),
        }
    }

    fn file(&mut self, path: &str) {
        self.entries.push((path.to_string(), PathKind::RegularFile, String::new()));
    }

    fn dir(&mut self, path: &str) {
        self.entries.push((path.to_string(), PathKind::Directory, String::new()));
    }

    fn link(&mut self, path: &str, target: &str) {
        self.entries.push((path.to_string(), PathKind::Symlink, target.to_string()));
    }

    fn in_trash(&mut self, name: &str, kind: PathKind) {
        self.trash.push((name.to_string(), kind, String::new()));
    }

    fn has_entry(&self, path: &str) -> bool {
        self.entries.iter().any(|e| e.0 == path)
    }

    fn trash_names(&self) -> Vec<String> {
        self.trash.iter().map(|c| c.0.clone()).collect()
    }

    fn place(&self, path: &str) -> Option<usize> {
        let plain = path.trim_end_matches('/');
        self.entries.iter().position(|e| e.0 == plain)
    }

    fn perform(&mut self, action: Action) -> Option<Event> {
        match action {
            Action::Finish(_) => None,
            Action::Confirm => Some(Event::Answer(self.answer.clone())),
            Action::ListChildren => Some(Event::Children(
                self.trash
                    .iter()
                    .map(|c| TrashChild { name: c.0.clone(), kind: c.1 })
                    .collect(),
            )),
            Action::ListNames => Some(Event::Names(self.trash_names())),
            Action::WorkingDir => Some(Event::Cwd(self.cwd.clone())),
            Action::Probe(path) => {
                let kind = match self.place(&path) {
                    Some(i) => self.entries[i].1,
                    None => PathKind::Other,
                };
                Some(Event::Probed { kind, dir_files: self.trash_names() })
            }
            Action::Rename(transfer) => {
                assert_eq!(transfer.to, format!("{}/{}", TRASH, transfer.name));
                if self.other_volume {
                    return Some(Event::Moved(MoveOutcome::CrossDevice));
                }
                match self.place(&transfer.from) {
                    Some(i) => {
                        let moved = self.entries.remove(i);
                        self.trash.push((transfer.name, moved.1, moved.2));
                        Some(Event::Moved(MoveOutcome::Moved))
                    }
                    None => Some(Event::Moved(MoveOutcome::Failed)),
                }
            }
            Action::Remove(removal) => {
                if self.removal_fails_at.as_ref() == Some(&removal.path) {
                    return Some(Event::Failed);
                }
                let found = self.trash.iter().position(|c| format!("{}/{}", TRASH, c.0) == removal.path);
                match found {
                    Some(i) => {
                        let unlinked = removal.how == RemovalKind::Unlink;
                        assert_eq!(unlinked, self.trash[i].1 != PathKind::Directory);
                        self.trash.remove(i);
                        Some(Event::Done)
                    }
                    None => Some(Event::Failed),
                }
            }
            Action::ClearStore => {
                if self.store_fails {
                    return Some(Event::Failed);
                }
                self.store.clear();
                Some(Event::Done)
            }
            Action::Record(entry) => {
                if self.store_fails || self.store.iter().any(|r| r.name == entry.name) {
                    return Some(Event::Failed);
                }
                self.store.push(entry);
                Some(Event::Done)
            }
        }
    }

    /// Runs one invocation to its end and gives its result and the index
    /// that the dispatcher ends with.
    fn run(&mut self, files: &[&str], list: bool, clear: bool) -> (Result<(), RRMError>, Vec<FileEntryDB>) {
        self.printed.clear();
        self.reported.clear();
        self.actions.clear();
        let operands: Vec<String> = files.iter().map(|f| f.to_string()).collect();
        let args = CmdArgs::parse_cmd_args(operands, None, list, clear, false).unwrap();
        let config = Config { trash_path: TRASH.to_string() };
        let app = App::create(args, config, FileDB::new(self.store.clone()).unwrap()).unwrap();
        let mut dispatcher = Dispatcher::new(app);
        let mut event = Event::Started;
        let mut turns = 0;
        loop {
            turns += 1;
            assert!(turns < 1000);
            let Turn { print, report, action } = dispatcher.step(event);
            self.printed.extend(print);
            self.reported.extend(report);
            self.actions.push(format!("{:?}", action));
            if let Action::Finish(result) = action {
                assert_eq!(dispatcher.phase(), Phase::Finished);
                return (result, dispatcher.app().file_db.get_all().unwrap());
            }
            event = self.perform(action).unwrap();
        }
    }
}

fn entry(name: &str, origin: &str) -> FileEntryDB {
    FileEntryDB { name: name.to_string(), origin: origin.to_string() }
}

fn lines(list: &[&str]) -> Vec<String> {
    list.iter().map(|l| l.to_string()).collect()
}

#[test]
fn session_trash_a_regular_file() {
    let mut world = World::new("/tmp/work");
    world.file("/tmp/work/a.txt");
    let (result, index) = world.run(&["a.txt"], false, false);
    assert_eq!(result, Ok(()));
    assert_eq!(world.trash_names(), lines(&["a.txt"]));
    assert!(!world.has_entry("/tmp/work/a.txt"));
    assert_eq!(world.store, vec![entry("a.txt", "/tmp/work")]);
    assert_eq!(index, world.store);
    assert_eq!(world.reported, Vec::<RRMError>::new());
}

#[test]
fn session_trash_a_symlink() {
    let mut world = World::new("/home/u");
    world.link("/home/u/link", "/tmp/real");
    world.file("/tmp/real");
    let (result, _) = world.run(&["link"], false, false);
    assert_eq!(result, Ok(()));
    assert_eq!(
        world.trash,
        vec![("link".to_string(), PathKind::Symlink, "/tmp/real".to_string())]
    );
    assert!(world.has_entry("/tmp/real"));
    assert!(!world.has_entry("/home/u/link"));
    assert_eq!(world.store, vec![entry("link", "/home/u")]);
}

#[test]
fn session_trash_a_directory() {
    let mut world = World::new("/tmp/work");
    world.dir("/tmp/work/d");
    let (result, _) = world.run(&["d/"], false, false);
    assert_eq!(result, Ok(()));
    assert_eq!(world.trash, vec![("d".to_string(), PathKind::Directory, String::new())]);
    assert!(!world.has_entry("/tmp/work/d"));
    assert_eq!(world.store, vec![entry("d", "/tmp/work")]);
}

#[test]
fn session_collision() {
    let mut world = World::new("/tmp/work");
    world.file("/tmp/work/a.txt");
    world.in_trash("a.txt", PathKind::RegularFile);
    let (result, index) = world.run(&["a.txt"], false, false);
    assert_eq!(result, Ok(()));
    assert_eq!(world.reported, vec![RRMError::NameCollision]);
    assert!(world.has_entry("/tmp/work/a.txt"));
    assert_eq!(world.trash_names(), lines(&["a.txt"]));
    assert_eq!(index, Vec::<FileEntryDB>::new());
    assert!(!world.actions.iter().any(|a| a.starts_with("Rename")));
}

#[test]
fn session_list_after_mixed_ops() {
    let mut world = World::new("/tmp/work");
    world.file("/tmp/work/a.txt");
    world.dir("/tmp/work/d");
    assert_eq!(world.run(&["a.txt"], false, false).0, Ok(()));
    assert_eq!(world.run(&["d/"], false, false).0, Ok(()));
    let (result, _) = world.run(&[], true, false);
    assert_eq!(result, Ok(()));
    assert_eq!(
        world.printed,
        lines(&["name ->\t\torigin", "a.txt ->\t\t/tmp/work", "d ->\t\t/tmp/work"])
    );
}

#[test]
fn session_purge_then_list() {
    let mut world = World::new("/tmp/work");
    world.file("/tmp/work/a.txt");
    world.dir("/tmp/work/d");
    world.link("/tmp/work/l", "/tmp/real");
    assert_eq!(world.run(&["a.txt", "d", "l"], false, false).0, Ok(()));
    assert_eq!(world.store.len(), 3);
    world.answer = "yes\n".to_string();
    let (result, index) = world.run(&[], false, true);
    assert_eq!(result, Ok(()));
    assert_eq!(world.printed, lines(&[PROMPT, WILL_CLEAR]));
    assert_eq!(world.trash_names(), Vec::<String>::new());
    assert_eq!(world.store, Vec::<FileEntryDB>::new());
    assert_eq!(index, Vec::<FileEntryDB>::new());
    let (result, _) = world.run(&[], true, false);
    assert_eq!(result, Ok(()));
    assert_eq!(world.printed, lines(&["name ->\t\torigin"]));
}

#[test]
fn session_purge_of_an_empty_trash_clears_the_store() {
    let mut world = World::new("/tmp/work");
    world.store.push(entry("stale", "/x"));
    world.answer = "Y".to_string();
    let (result, index) = world.run(&[], false, true);
    assert_eq!(result, Ok(()));
    assert_eq!(world.store, Vec::<FileEntryDB>::new());
    assert_eq!(index, Vec::<FileEntryDB>::new());
    assert_eq!(
        world.actions,
        lines(&["Confirm", "ListChildren", "ClearStore", "Finish(Ok(()))"])
    );
}

#[test]
fn session_purge_declined() {
    let mut world = World::new("/tmp/work");
    world.in_trash("a.txt", PathKind::RegularFile);
    world.store.push(entry("a.txt", "/tmp/work"));
    for answer in ["n\n", "\n", "", "no", "yes please", "ja"] {
        world.answer = answer.to_string();
        let (result, index) = world.run(&["ignored"], true, true);
        assert_eq!(result, Ok(()));
        assert_eq!(world.printed, lines(&[PROMPT, WILL_NOT_CLEAR]));
        assert_eq!(world.actions, lines(&["Confirm", "Finish(Ok(()))"]));
        assert_eq!(world.trash_names(), lines(&["a.txt"]));
        assert_eq!(world.store, vec![entry("a.txt", "/tmp/work")]);
        assert_eq!(index, world.store);
    }
}

#[test]
fn session_purge_stops_at_the_first_deletion_that_fails() {
    let mut world = World::new("/tmp/work");
    world.in_trash("a.txt", PathKind::RegularFile);
    world.in_trash("d", PathKind::Directory);
    world.in_trash("z", PathKind::RegularFile);
    world.store = vec![entry("a.txt", "/w"), entry("d", "/w"), entry("z", "/w")];
    world.removal_fails_at = Some("/tmp/rrm/trash/d".to_string());
    world.answer = "y\n".to_string();
    let (result, index) = world.run(&[], false, true);
    assert_eq!(result, Err(RRMError::IO));
    assert_eq!(world.trash_names(), lines(&["d", "z"]));
    assert_eq!(world.store.len(), 3);
    assert_eq!(index, world.store);
    assert!(!world.actions.iter().any(|a| a == "ClearStore"));
}

#[test]
fn session_purge_reports_a_store_that_cannot_be_cleared() {
    let mut world = World::new("/tmp/work");
    world.in_trash("a.txt", PathKind::RegularFile);
    world.store = vec![entry("a.txt", "/w")];
    world.store_fails = true;
    world.answer = "yes".to_string();
    let (result, index) = world.run(&[], false, true);
    assert_eq!(result, Err(RRMError::IndexUnavailable));
    assert_eq!(world.trash_names(), Vec::<String>::new());
    assert_eq!(index, vec![entry("a.txt", "/w")]);
}

#[test]
fn session_list_shows_no_ghosts() {
    let mut world = World::new("/tmp/work");
    world.store = vec![entry("a.txt", "/w"), entry("gone", "/w"), entry("d", "/home/u")];
    world.in_trash("d", PathKind::Directory);
    world.in_trash("orphan", PathKind::RegularFile);
    world.in_trash("a.txt", PathKind::RegularFile);
    let (result, _) = world.run(&[], true, false);
    assert_eq!(result, Ok(()));
    assert_eq!(
        world.printed,
        lines(&["name ->\t\torigin", "a.txt ->\t\t/w", "d ->\t\t/home/u"])
    );
}

#[test]
fn session_batch_goes_on_after_failures() {
    let mut world = World::new("/tmp/work");
    world.file("/tmp/work/a.txt");
    world.file("/tmp/work/sub/a.txt");
    world.dir("/tmp/work/d");
    world.file("/etc/hosts");
    let (result, index) =
        world.run(&["a.txt", "missing", "sub/a.txt", "..", "d/", "/etc/hosts"], false, false);
    assert_eq!(result, Ok(()));
    assert_eq!(
        world.reported,
        vec![RRMError::NotATarget, RRMError::NameCollision, RRMError::NotATarget]
    );
    assert_eq!(world.trash_names(), lines(&["a.txt", "d", "hosts"]));
    assert!(world.has_entry("/tmp/work/sub/a.txt"));
    assert_eq!(
        index,
        vec![entry("a.txt", "/tmp/work"), entry("d", "/tmp/work"), entry("hosts", "/tmp/work")]
    );
    assert_eq!(world.store, index);
}

#[test]
fn session_move_to_another_volume_is_reported() {
    let mut world = World::new("/tmp/work");
    world.file("/tmp/work/a.txt");
    world.file("/tmp/work/b.txt");
    world.other_volume = true;
    let (result, index) = world.run(&["a.txt", "b.txt"], false, false);
    assert_eq!(result, Ok(()));
    assert_eq!(world.reported, vec![RRMError::CrossDeviceMove, RRMError::CrossDeviceMove]);
    assert!(world.has_entry("/tmp/work/a.txt"));
    assert_eq!(index, Vec::<FileEntryDB>::new());
}

#[test]
fn session_a_record_that_cannot_be_written_leaves_an_orphan() {
    let mut world = World::new("/tmp/work");
    world.file("/tmp/work/a.txt");
    world.file("/tmp/work/b.txt");
    world.store_fails = true;
    let (result, index) = world.run(&["a.txt", "b.txt"], false, false);
    assert_eq!(result, Ok(()));
    assert_eq!(world.reported, vec![RRMError::IndexUnavailable, RRMError::IndexUnavailable]);
    assert_eq!(world.trash_names(), lines(&["a.txt", "b.txt"]));
    assert_eq!(index, Vec::<FileEntryDB>::new());
    world.store_fails = false;
    let (_, _) = world.run(&[], true, false);
    assert_eq!(world.printed, lines(&["name ->\t\torigin"]));
}

#[test]
fn session_a_stale_record_makes_the_new_entry_a_duplicate() {
    let mut world = World::new("/tmp/work");
    world.file("/tmp/work/a.txt");
    world.store = vec![entry("a.txt", "/first")];
    let (result, index) = world.run(&["a.txt"], false, false);
    assert_eq!(result, Ok(()));
    assert_eq!(world.reported, vec![RRMError::Duplicate]);
    assert_eq!(world.trash_names(), lines(&["a.txt"]));
    assert_eq!(index, vec![entry("a.txt", "/first")]);
}

#[test]
fn session_an_empty_operand_leaves_the_working_directory() {
    let mut world = World::new("/tmp/work");
    world.dir("/tmp/work");
    world.file("/tmp/work/a.txt");
    let (result, index) = world.run(&["", "a.txt"], false, false);
    assert_eq!(result, Ok(()));
    assert_eq!(world.reported, vec![RRMError::NotATarget]);
    assert!(world.has_entry("/tmp/work"));
    assert_eq!(world.trash_names(), lines(&["a.txt"]));
    assert_eq!(index, vec![entry("a.txt", "/tmp/work")]);
}

#[test]
fn session_without_operands_does_nothing() {
    let mut world = World::new("/tmp/work");
    let (result, _) = world.run(&[], false, false);
    assert_eq!(result, Ok(()));
    assert_eq!(world.actions, lines(&["Finish(Ok(()))"]));
}

#[test]
fn an_event_that_answers_nothing_counts_as_a_failure() {
    let args = CmdArgs::parse_cmd_args(Vec::new(), None, true, false, false).unwrap();
    let config = Config { trash_path: TRASH.to_string() };
    let app = App::create(args, config, FileDB::new(Vec::new()).unwrap()).unwrap();
    let mut dispatcher = Dispatcher::new(app);
    assert_eq!(dispatcher.phase(), Phase::Start);
    assert_eq!(dispatcher.step(Event::Started).action, Action::ListNames);
    assert_eq!(dispatcher.phase(), Phase::AwaitListing);
    assert_eq!(dispatcher.step(Event::Done).action, Action::Finish(Err(RRMError::IO)));
    assert_eq!(dispatcher.phase(), Phase::Finished);
    assert_eq!(dispatcher.step(Event::Started).action, Action::Finish(Err(RRMError::IO)));
    assert_eq!(dispatcher.step(Event::Names(Vec::new())).action, Action::Finish(Err(RRMError::IO)));
}

#[test]
fn the_working_directory_must_be_known() {
    let args =
        CmdArgs::parse_cmd_args(vec!["a.txt".to_string()], None, false, false, false).unwrap();
    let config = Config { trash_path: TRASH.to_string() };
    let app = App::create(args, config, FileDB::new(Vec::new()).unwrap()).unwrap();
    let mut dispatcher = Dispatcher::new(app);
    assert_eq!(dispatcher.step(Event::Started).action, Action::WorkingDir);
    assert_eq!(dispatcher.step(Event::Failed).action, Action::Finish(Err(RRMError::IO)));
}
