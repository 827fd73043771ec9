use hone::error::{DirAction, IoAction, StoreError, Subject};
use hone::path::{dir_from_parent, display_name, get_file_dir, name_from_segment};
use hone::presence::is_listed;
use hone::store::{
    load_outcome, resolve_dir, save_outcome, DirProbe, Stored, Written,
    RECENT_FILES_FILENAME, SESSION_FILENAME,
};

#[test]
fn file_dir_of_nested_file() {
    assert_eq!(get_file_dir("/a/b/c.txt".to_string()), Ok("/a/b".to_string()));
}

#[test]
fn file_dir_of_root_is_path_error() {
    let result = get_file_dir("/".to_string());
    assert_eq!(result, Err(StoreError::Path));
    assert_eq!(result.unwrap_err().message(), "Failed to get directory");
}

#[test]
fn file_dir_of_empty_path_is_path_error() {
    assert_eq!(get_file_dir(String::new()), Err(StoreError::Path));
}

#[test]
fn file_dir_of_bare_name_is_empty() {
    assert_eq!(get_file_dir("notes.txt".to_string()), Ok(String::new()));
}

#[test]
fn file_dir_of_top_level_file_is_root() {
    assert_eq!(get_file_dir("/notes.txt".to_string()), Ok("/".to_string()));
}

#[test]
fn dir_from_parent_maps_both_cases() {
    assert_eq!(dir_from_parent(Some("/a".to_string())), Ok("/a".to_string()));
    assert_eq!(dir_from_parent(None), Err(StoreError::Path));
}

#[test]
fn display_name_is_final_segment() {
    assert_eq!(display_name(&"/a/b/c.txt".to_string()), "c.txt");
    assert_eq!(display_name(&"c.txt".to_string()), "c.txt");
    assert_eq!(display_name(&"/a/b/".to_string()), "b");
}

#[test]
fn display_name_falls_back_to_whole_path() {
    assert_eq!(display_name(&"/".to_string()), "/");
    assert_eq!(display_name(&"/a/..".to_string()), "/a/..");
    assert_eq!(display_name(&String::new()), "");
}

#[test]
fn name_from_segment_maps_both_cases() {
    assert_eq!(name_from_segment(Some("x.md".to_string()), &"/d/x.md".to_string()), "x.md");
    assert_eq!(name_from_segment(None, &"/d/..".to_string()), "/d/..");
}

#[test]
fn is_listed_finds_exact_paths_only() {
    let paths = vec!["/a".to_string(), "/b/c".to_string()];
    assert!(is_listed(&paths, &"/a".to_string()));
    assert!(is_listed(&paths, &"/b/c".to_string()));
    assert!(!is_listed(&paths, &"/b".to_string()));
    assert!(!is_listed(&paths, &"/A".to_string()));
    assert!(!is_listed(&Vec::new(), &"/a".to_string()));
}

#[test]
fn messages_of_every_error() {
    let io_read = StoreError::Io {
        action: IoAction::Read,
        subject: Subject::File,
        cause: "No such file or directory (os error 2)".to_string(),
    };
    assert_eq!(io_read.message(), "Failed to read file: No such file or directory (os error 2)");
    let io_write = StoreError::Io {
        action: IoAction::Write,
        subject: Subject::File,
        cause: "denied".to_string(),
    };
    assert_eq!(io_write.message(), "Failed to write file: denied");
    let parse = StoreError::Parse { subject: Subject::Session, cause: "line 1".to_string() };
    assert_eq!(parse.message(), "Failed to parse session: line 1");
    let encode = StoreError::Serialize { subject: Subject::RecentFiles, cause: "x".to_string() };
    assert_eq!(encode.message(), "Failed to serialize recent files: x");
    let locate = StoreError::Directory { step: DirAction::Locate, cause: "unknown".to_string() };
    assert_eq!(locate.message(), "Failed to get app data directory: unknown");
    let create = StoreError::Directory { step: DirAction::Create, cause: "denied".to_string() };
    assert_eq!(create.message(), "Failed to create app data directory: denied");
    assert_eq!(StoreError::Path.message(), "Failed to get directory");
    assert_eq!(StoreError::NotFound.message(), "File does not exist");
    let empty = StoreError::Parse { subject: Subject::File, cause: String::new() };
    assert_eq!(empty.message(), "Failed to parse file: ");
}

#[test]
fn resolve_dir_judges_each_probe() {
    assert_eq!(resolve_dir(DirProbe::Present), Ok(()));
    assert_eq!(resolve_dir(DirProbe::Created), Ok(()));
    assert_eq!(
        resolve_dir(DirProbe::Unknown("no home".to_string())),
        Err(StoreError::Directory { step: DirAction::Locate, cause: "no home".to_string() })
    );
    assert_eq!(
        resolve_dir(DirProbe::CreateFailed("read-only".to_string())),
        Err(StoreError::Directory { step: DirAction::Create, cause: "read-only".to_string() })
    );
}

#[test]
fn store_file_names() {
    assert_eq!(RECENT_FILES_FILENAME, "recent_files.json");
    assert_eq!(SESSION_FILENAME, "session.json");
}

#[test]
fn load_outcome_judges_each_finding() {
    assert_eq!(load_outcome(Subject::File, Stored::Absent, 7u32), Ok(7));
    assert_eq!(load_outcome(Subject::File, Stored::Parsed(3u32), 7u32), Ok(3));
    assert_eq!(
        load_outcome(Subject::File, Stored::Unreadable("e".to_string()), 7u32),
        Err(StoreError::Io { action: IoAction::Read, subject: Subject::File, cause: "e".to_string() })
    );
    assert_eq!(
        load_outcome(Subject::Session, Stored::Malformed("m".to_string()), 7u32),
        Err(StoreError::Parse { subject: Subject::Session, cause: "m".to_string() })
    );
}

#[test]
fn save_outcome_judges_each_attempt() {
    assert_eq!(save_outcome(Subject::File, Written::Done), Ok(()));
    assert_eq!(
        save_outcome(Subject::File, Written::Unserializable("s".to_string())),
        Err(StoreError::Serialize { subject: Subject::File, cause: "s".to_string() })
    );
    assert_eq!(
        save_outcome(Subject::File, Written::Unwritable("w".to_string())),
        Err(StoreError::Io { action: IoAction::Write, subject: Subject::File, cause: "w".to_string() })
    );
}

#[test]
fn menu_items_send_their_notifications() {
    assert_eq!(hone::menu::notification_for("open"), Some("menu-open"));
    assert_eq!(hone::menu::notification_for("save"), Some("menu-save"));
    assert_eq!(hone::menu::notification_for("save_as"), Some("menu-save-as"));
    assert_eq!(hone::menu::notification_for(hone::menu::MENU_SAVE_AS), Some("menu-save-as"));
    assert_eq!(hone::menu::notification_for("quit"), None);
    assert_eq!(hone::menu::notification_for("Open"), None);
    assert_eq!(hone::menu::notification_for(""), None);
}
