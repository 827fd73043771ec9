use hone::error::StoreError;
use hone::recent::{
    add_recent_file, get_recent_files, load_recent_files_data, require_existing,
    save_recent_files_data, timestamp_or_zero, RecentFile, RecentFilesData, MAX_RECENT_FILES,
};
use hone::store::{Persist, Stored, Written};

fn file(path: &str, name: &str, accessed_at: u64) -> RecentFile {
    RecentFile { path: path.to_string(), name: name.to_string(), accessed_at }
}

fn paths(data: &RecentFilesData) -> Vec<String> {
    data.files.iter().map(|f| f.path.clone()).collect()
}

#[test]
fn add_missing_path_is_not_found_and_leaves_list() {
    let mut data = RecentFilesData { files: vec![file("/a/one.txt", "one.txt", 5)] };
    let result = add_recent_file(&mut data, "/a/ghost.txt".to_string(), false, 9);
    assert_eq!(result, Err(StoreError::NotFound));
    assert_eq!(data, RecentFilesData { files: vec![file("/a/one.txt", "one.txt", 5)] });
    assert_eq!(StoreError::NotFound.message(), "File does not exist");
}

#[test]
fn add_puts_named_entry_in_front() {
    let mut data = RecentFilesData { files: vec![file("/a/one.txt", "one.txt", 5)] };
    let result = add_recent_file(&mut data, "/docs/notes/two.md".to_string(), true, 42);
    assert_eq!(result, Ok(()));
    assert_eq!(
        data.files,
        vec![file("/docs/notes/two.md", "two.md", 42), file("/a/one.txt", "one.txt", 5)]
    );
}

#[test]
fn add_same_path_twice_keeps_one_entry_with_later_time() {
    let mut data = RecentFilesData::default();
    assert_eq!(add_recent_file(&mut data, "/a/one.txt".to_string(), true, 100), Ok(()));
    assert_eq!(add_recent_file(&mut data, "/a/two.txt".to_string(), true, 101), Ok(()));
    assert_eq!(add_recent_file(&mut data, "/a/one.txt".to_string(), true, 250), Ok(()));
    assert_eq!(
        data.files,
        vec![file("/a/one.txt", "one.txt", 250), file("/a/two.txt", "two.txt", 101)]
    );
    assert_eq!(data.files.iter().filter(|f| f.path == "/a/one.txt").count(), 1);
}

#[test]
fn add_eleven_paths_keeps_latest_ten() {
    let mut data = RecentFilesData::default();
    for i in 0..11u64 {
        let path = format!("/files/f{}.txt", i);
        assert_eq!(add_recent_file(&mut data, path, true, 1000 + i), Ok(()));
    }
    assert_eq!(MAX_RECENT_FILES, 10);
    assert_eq!(data.files.len(), 10);
    let expected: Vec<String> = (1..11u64).rev().map(|i| format!("/files/f{}.txt", i)).collect();
    assert_eq!(paths(&data), expected);
    assert_eq!(data.files[0], file("/files/f10.txt", "f10.txt", 1010));
    assert_eq!(data.files[9], file("/files/f1.txt", "f1.txt", 1001));
    assert!(!paths(&data).contains(&"/files/f0.txt".to_string()));
}

#[test]
fn add_removes_every_older_entry_for_the_path() {
    let mut data = RecentFilesData {
        files: vec![
            file("/a/x", "x", 1),
            file("/a/y", "y", 2),
            file("/a/x", "x", 3),
        ],
    };
    assert_eq!(add_recent_file(&mut data, "/a/x".to_string(), true, 7), Ok(()));
    assert_eq!(data.files, vec![file("/a/x", "x", 7), file("/a/y", "y", 2)]);
}

#[test]
fn add_to_full_list_drops_the_oldest() {
    let mut data = RecentFilesData::default();
    for i in 0..10u64 {
        data.files.push(file(&format!("/p/{}", i), &format!("{}", i), i));
    }
    assert_eq!(add_recent_file(&mut data, "/p/new".to_string(), true, 99), Ok(()));
    assert_eq!(data.files.len(), 10);
    assert_eq!(data.files[0], file("/p/new", "new", 99));
    assert_eq!(data.files[1], file("/p/0", "0", 0));
    assert_eq!(data.files[9], file("/p/8", "8", 8));
}

#[test]
fn re_add_in_full_list_keeps_ten() {
    let mut data = RecentFilesData::default();
    for i in 0..10u64 {
        data.files.push(file(&format!("/p/{}", i), &format!("{}", i), i));
    }
    assert_eq!(add_recent_file(&mut data, "/p/9".to_string(), true, 99), Ok(()));
    assert_eq!(data.files.len(), 10);
    assert_eq!(data.files[0], file("/p/9", "9", 99));
    assert_eq!(data.files[9], file("/p/8", "8", 8));
}

#[test]
fn touch_cuts_an_overlong_list() {
    let mut data = RecentFilesData::default();
    for i in 0..14u64 {
        data.files.push(file(&format!("/p/{}", i), &format!("{}", i), i));
    }
    data.touch(file("/p/new", "shown", 20));
    assert_eq!(data.files.len(), 10);
    assert_eq!(data.files[0], file("/p/new", "shown", 20));
    assert_eq!(data.files[9], file("/p/8", "8", 8));
}

#[test]
fn prune_drops_missing_entries_and_asks_for_a_write() {
    let mut data = RecentFilesData {
        files: vec![
            file("/a/1", "1", 1),
            file("/gone/2", "2", 2),
            file("/a/3", "3", 3),
            file("/gone/4", "4", 4),
            file("/a/5", "5", 5),
        ],
    };
    let existing = vec!["/a/5".to_string(), "/a/1".to_string(), "/a/3".to_string()];
    let persist = get_recent_files(&mut data, &existing);
    assert_eq!(persist, Persist::Required);
    assert_eq!(data.files, vec![file("/a/1", "1", 1), file("/a/3", "3", 3), file("/a/5", "5", 5)]);
    assert_eq!(data.files.len(), 5 - 2);
}

#[test]
fn prune_with_nothing_missing_asks_for_no_write() {
    let mut data = RecentFilesData { files: vec![file("/a/1", "1", 1), file("/a/2", "2", 2)] };
    let existing = vec!["/a/1".to_string(), "/a/2".to_string(), "/other".to_string()];
    let persist = get_recent_files(&mut data, &existing);
    assert_eq!(persist, Persist::Skip);
    assert!(!persist.wanted());
    assert_eq!(data.files, vec![file("/a/1", "1", 1), file("/a/2", "2", 2)]);
}

#[test]
fn prune_with_nothing_left_gives_empty_list() {
    let mut data = RecentFilesData { files: vec![file("/a/1", "1", 1), file("/a/2", "2", 2)] };
    let persist = get_recent_files(&mut data, &Vec::new());
    assert_eq!(persist, Persist::Required);
    assert!(data.files.is_empty());
}

#[test]
fn prune_of_empty_list_is_empty() {
    let mut data = RecentFilesData::default();
    let persist = get_recent_files(&mut data, &vec!["/a".to_string()]);
    assert_eq!(persist, Persist::Skip);
    assert!(data.files.is_empty());
}

#[test]
fn recent_files_write_failure_fails_the_read() {
    let failure = save_recent_files_data(Written::Unwritable("disk full".to_string()));
    let report = Persist::Required.settle(failure.clone());
    assert_eq!(report, failure);
    assert_eq!(report.unwrap_err().message(), "Failed to write recent files: disk full");
    assert_eq!(Persist::Required.settle(Ok(())), Ok(()));
}

#[test]
fn remove_path_keeps_the_others_in_order() {
    let mut data = RecentFilesData {
        files: vec![file("/a", "a", 1), file("/b", "b", 2), file("/c", "c", 3)],
    };
    data.remove_path(&"/b".to_string());
    assert_eq!(data.files, vec![file("/a", "a", 1), file("/c", "c", 3)]);
    data.remove_path(&"/zzz".to_string());
    assert_eq!(data.files, vec![file("/a", "a", 1), file("/c", "c", 3)]);
}

#[test]
fn load_without_file_gives_empty_list() {
    let loaded = load_recent_files_data(Stored::Absent);
    assert_eq!(loaded, Ok(RecentFilesData { files: Vec::new() }));
}

#[test]
fn load_passes_parsed_list_on() {
    let loaded = load_recent_files_data(Stored::Parsed(RecentFilesData {
        files: vec![file("/a", "a", 1)],
    }));
    assert_eq!(loaded, Ok(RecentFilesData { files: vec![file("/a", "a", 1)] }));
}

#[test]
fn load_failures_name_the_list() {
    let unread = load_recent_files_data(Stored::Unreadable("denied".to_string())).unwrap_err();
    assert!(matches!(unread, StoreError::Io { .. }));
    assert_eq!(unread.message(), "Failed to read recent files: denied");
    let broken = load_recent_files_data(Stored::Malformed("eof".to_string())).unwrap_err();
    assert!(matches!(broken, StoreError::Parse { .. }));
    assert_eq!(broken.message(), "Failed to parse recent files: eof");
}

#[test]
fn save_failures_name_the_list() {
    assert_eq!(save_recent_files_data(Written::Done), Ok(()));
    let encode = save_recent_files_data(Written::Unserializable("bad".to_string())).unwrap_err();
    assert!(matches!(encode, StoreError::Serialize { .. }));
    assert_eq!(encode.message(), "Failed to serialize recent files: bad");
    let write = save_recent_files_data(Written::Unwritable("full".to_string())).unwrap_err();
    assert!(matches!(write, StoreError::Io { .. }));
    assert_eq!(write.message(), "Failed to write recent files: full");
}

#[test]
fn clock_failure_stamps_zero() {
    assert_eq!(timestamp_or_zero(None), 0);
    assert_eq!(timestamp_or_zero(Some(1_700_000_000)), 1_700_000_000);
    assert_eq!(timestamp_or_zero(Some(u64::MAX)), u64::MAX);
}

#[test]
fn require_existing_tells_found_from_missing() {
    assert_eq!(require_existing(true), Ok(()));
    assert_eq!(require_existing(false), Err(StoreError::NotFound));
}

#[test]
fn recent_file_clone_is_equal() {
    let first = file("/a/b.txt", "b.txt", 77);
    assert_eq!(first.clone(), first);
}
