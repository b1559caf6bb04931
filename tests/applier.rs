use std::collections::{HashMap, HashSet};
use std::io::Write;

use auto_updater::applier::{entry_path, Action, Applied, Applier, Event, WarningKind, WriteStatus};
use auto_updater::archive::{load_archive, ArchiveEntry, LoadedArchive};
use auto_updater::batch::{disposition, Batch, Disposition};
use auto_updater::error::ApplyError;
use auto_updater::layout::{DirStatus, Layout};
use auto_updater::scan::FoundFile;
use auto_updater::stamp::Timestamp;

struct FakeFs {
    files: HashMap<String, Vec<u8>>,
    dirs: HashSet<String>,
    refuse_moves: bool,
    refuse_dirs: bool,
    fail_copies: bool,
}

impl FakeFs {
    fn new() -> FakeFs {
        FakeFs {
            files: HashMap::new(),
            dirs: HashSet::new(),
            refuse_moves: false,
            refuse_dirs: false,
            fail_copies: false,
        }
    }
}

fn drive(applier: &mut Applier, fs: &mut FakeFs) -> (Result<Applied, ApplyError>, Vec<WarningKind>) {
    let mut warnings = Vec::new();
    loop {
        let event = match applier.action() {
            Action::CreateDir { path } => {
                if fs.refuse_dirs {
                    Event::Dir(DirStatus::Failed)
                } else if fs.dirs.insert(path) {
                    Event::Dir(DirStatus::Created)
                } else {
                    Event::Dir(DirStatus::AlreadyExisted)
                }
            }
            Action::Probe { path } => Event::Exists(fs.files.contains_key(&path)),
            Action::MoveFile { from, to } => {
                if fs.refuse_moves || fs.files.contains_key(&to) {
                    Event::Moved(false)
                } else {
                    let content = fs.files.remove(&from).unwrap();
                    fs.files.insert(to, content);
                    Event::Moved(true)
                }
            }
            Action::WriteFile { path, entry } => {
                if fs.fail_copies {
                    fs.files.insert(path, Vec::new());
                    Event::Wrote(WriteStatus::CopyFailed)
                } else {
                    fs.files.insert(path, applier.content(entry).clone());
                    Event::Wrote(WriteStatus::Written)
                }
            }
            Action::Finish { result } => return (result, warnings),
        };
        if let Some(w) = applier.step(event) {
            warnings.push(w.kind);
        }
    }
}

fn zip_bytes(entries: &[(&str, Option<&[u8]>)]) -> Vec<u8> {
    let mut w = zip::ZipWriter::new(std::io::Cursor::new(Vec::new()));
    let options = zip::write::FileOptions::default();
    for (name, content) in entries {
        match content {
            Some(bytes) => {
                w.start_file(*name, options).unwrap();
                w.write_all(bytes).unwrap();
            }
            None => {
                w.add_directory(*name, options).unwrap();
            }
        }
    }
    w.finish().unwrap().into_inner()
}

fn stamp() -> Timestamp {
    Timestamp { year: 2024, month: 3, day: 7, hour: 9, minute: 5, second: 0 }
}

fn found(name: &str) -> FoundFile {
    FoundFile { path: format!("U\\__auto_updater\\{}", name), name: name.to_string() }
}

#[test]
fn fresh_target_gets_files_and_archive_goes_to_history() {
    let layout = Layout::new("T", "U", "B");
    let batch = Batch::new(&layout, &found("up.zip"), stamp());
    let bytes = zip_bytes(&[("a.txt", Some(b"alpha")), ("dir/b.txt", Some(b"beta"))]);
    let loaded = load_archive(bytes).unwrap();
    assert_eq!(loaded.entries.len(), 2);
    assert!(loaded.stop.is_none());
    let mut applier = batch.applier(&layout, loaded);
    assert_eq!(applier.entry_count(), 2);
    assert_eq!(applier.content(1), b"beta");
    assert!(applier.result().is_none());
    let mut fs = FakeFs::new();
    let (result, warnings) = drive(&mut applier, &mut fs);
    assert_eq!(result, Ok(Applied { count: 2, stopped: None }));
    assert_eq!(fs.files.get("T\\a.txt").unwrap(), b"alpha");
    assert_eq!(fs.files.get("T\\dir\\b.txt").unwrap(), b"beta");
    assert_eq!(fs.files.len(), 2);
    assert!(fs.files.keys().all(|k| !k.starts_with("B\\")));
    assert_eq!(warnings, vec![WarningKind::NothingToBackUp, WarningKind::NothingToBackUp]);
    assert_eq!(disposition(result), Disposition::History);
    assert_eq!(batch.history_path, "U\\__auto_updater_history\\2024-3-7-9-5-0\\up.zip");
}

#[test]
fn overwritten_file_is_kept_in_backup() {
    let layout = Layout::new("T\\", "U", "B");
    let batch = Batch::new(&layout, &found("up.zip"), stamp());
    let loaded = load_archive(zip_bytes(&[("a.txt", Some(b"new"))])).unwrap();
    let mut applier = batch.applier(&layout, loaded);
    let mut fs = FakeFs::new();
    fs.files.insert("T\\a.txt".to_string(), b"old".to_vec());
    let (result, warnings) = drive(&mut applier, &mut fs);
    assert_eq!(result, Ok(Applied { count: 1, stopped: None }));
    assert_eq!(fs.files.get("T\\a.txt").unwrap(), b"new");
    assert_eq!(fs.files.get("B\\2024-3-7-9-5-0\\a.txt").unwrap(), b"old");
    assert!(warnings.is_empty());
}

#[test]
fn failed_backup_move_stops_the_batch() {
    let layout = Layout::new("T", "U", "B");
    let batch = Batch::new(&layout, &found("up.zip"), stamp());
    let loaded = load_archive(zip_bytes(&[("a.txt", Some(b"new")), ("c.txt", Some(b"c"))])).unwrap();
    let mut applier = batch.applier(&layout, loaded);
    let mut fs = FakeFs::new();
    fs.refuse_moves = true;
    fs.files.insert("T\\a.txt".to_string(), b"old".to_vec());
    let (result, warnings) = drive(&mut applier, &mut fs);
    assert_eq!(result, Ok(Applied { count: 0, stopped: Some(ApplyError::BackupMoveFailed) }));
    assert_eq!(fs.files.get("T\\a.txt").unwrap(), b"old");
    assert!(!fs.files.contains_key("T\\c.txt"));
    assert_eq!(warnings, vec![WarningKind::MoveFailed]);
    assert_eq!(disposition(result), Disposition::History);
}

#[test]
fn copy_failure_stops_after_backup() {
    let layout = Layout::new("T", "U", "B");
    let batch = Batch::new(&layout, &found("up.zip"), stamp());
    let loaded = load_archive(zip_bytes(&[("a.txt", Some(b"new")), ("c.txt", Some(b"c"))])).unwrap();
    let mut applier = batch.applier(&layout, loaded);
    let mut fs = FakeFs::new();
    fs.fail_copies = true;
    fs.files.insert("T\\a.txt".to_string(), b"old".to_vec());
    let (result, warnings) = drive(&mut applier, &mut fs);
    assert_eq!(result, Ok(Applied { count: 0, stopped: Some(ApplyError::ContentWriteFailed) }));
    assert_eq!(fs.files.get("B\\2024-3-7-9-5-0\\a.txt").unwrap(), b"old");
    assert!(!fs.files.contains_key("T\\c.txt"));
    assert_eq!(warnings, vec![WarningKind::CopyFailed]);
}

#[test]
fn unavailable_backup_folder_touches_nothing() {
    let layout = Layout::new("T", "U", "B");
    let batch = Batch::new(&layout, &found("up.zip"), stamp());
    let loaded = load_archive(zip_bytes(&[("a.txt", Some(b"new"))])).unwrap();
    let mut applier = batch.applier(&layout, loaded);
    let mut fs = FakeFs::new();
    fs.refuse_dirs = true;
    fs.files.insert("T\\a.txt".to_string(), b"old".to_vec());
    let (result, warnings) = drive(&mut applier, &mut fs);
    assert_eq!(result, Err(ApplyError::BackupDirUnavailable));
    assert_eq!(fs.files.get("T\\a.txt").unwrap(), b"old");
    assert_eq!(fs.files.len(), 1);
    assert_eq!(warnings, vec![WarningKind::BackupDirFailed]);
    assert_eq!(disposition(result), Disposition::Keep);
}

#[test]
fn existing_directory_is_mirrored_in_backup() {
    let layout = Layout::new("T", "U", "B");
    let batch = Batch::new(&layout, &found("up.zip"), stamp());
    let loaded = load_archive(zip_bytes(&[("dir/", None), ("dir/b.txt", Some(b"beta"))])).unwrap();
    assert_eq!(loaded.entries[0].name, "dir/");
    assert!(loaded.entries[0].content.is_empty());
    let mut applier = batch.applier(&layout, loaded);
    let mut fs = FakeFs::new();
    fs.dirs.insert("T\\dir".to_string());
    fs.files.insert("T\\dir\\b.txt".to_string(), b"old".to_vec());
    let (result, _) = drive(&mut applier, &mut fs);
    assert_eq!(result, Ok(Applied { count: 2, stopped: None }));
    assert!(fs.dirs.contains("B\\2024-3-7-9-5-0\\dir"));
    assert_eq!(fs.files.get("B\\2024-3-7-9-5-0\\dir\\b.txt").unwrap(), b"old");
    assert_eq!(fs.files.get("T\\dir\\b.txt").unwrap(), b"beta");
}

#[test]
fn new_directory_gets_no_backup_mirror() {
    let layout = Layout::new("T", "U", "B");
    let batch = Batch::new(&layout, &found("up.zip"), stamp());
    let loaded = load_archive(zip_bytes(&[("dir/", None)])).unwrap();
    let mut applier = batch.applier(&layout, loaded);
    let mut fs = FakeFs::new();
    let (result, _) = drive(&mut applier, &mut fs);
    assert_eq!(result, Ok(Applied { count: 1, stopped: None }));
    assert!(fs.dirs.contains("T\\dir"));
    assert!(!fs.dirs.contains("B\\2024-3-7-9-5-0\\dir"));
}

#[test]
fn unreadable_archive_is_quarantined() {
    let layout = Layout::new("T", "U", "B");
    let batch = Batch::new(&layout, &found("broken.zip"), stamp());
    let result = load_archive(b"this is not an archive".to_vec());
    assert!(matches!(result, Err(ApplyError::ArchiveUnreadable)));
    assert_eq!(disposition(Err(ApplyError::ArchiveUnreadable)), Disposition::Quarantine);
    assert_eq!(batch.quarantine_path, "B\\__auto_updater_error\\2024-3-7-9-5-0\\broken.zip");
    assert!(!batch.quarantine_path.starts_with("T\\"));
    assert!(!batch.quarantine_path.starts_with("U\\__auto_updater_history"));
}

#[test]
fn empty_archive_applies_nothing() {
    let layout = Layout::new("T", "U", "B");
    let batch = Batch::new(&layout, &found("up.zip"), stamp());
    let loaded = load_archive(zip_bytes(&[])).unwrap();
    let mut applier = batch.applier(&layout, loaded);
    let mut fs = FakeFs::new();
    let (result, _) = drive(&mut applier, &mut fs);
    assert_eq!(result, Ok(Applied { count: 0, stopped: None }));
    assert!(fs.dirs.contains("B\\2024-3-7-9-5-0\\"));
}

#[test]
fn entries_read_before_a_stop_are_applied() {
    let loaded = LoadedArchive {
        entries: vec![ArchiveEntry { name: "a.txt".to_string(), content: b"x".to_vec() }],
        stop: Some(ApplyError::EntryUnreadable),
    };
    let mut applier = Applier::new("T\\".to_string(), "B\\s\\".to_string(), loaded);
    let mut fs = FakeFs::new();
    let (result, _) = drive(&mut applier, &mut fs);
    assert_eq!(result, Ok(Applied { count: 1, stopped: Some(ApplyError::EntryUnreadable) }));
    assert_eq!(fs.files.get("T\\a.txt").unwrap(), b"x");
}

#[test]
fn finished_applier_ignores_further_events() {
    let loaded = LoadedArchive { entries: Vec::new(), stop: None };
    let mut applier = Applier::new("T\\".to_string(), "B\\s\\".to_string(), loaded);
    assert!(applier.step(Event::Dir(DirStatus::Created)).is_none());
    assert_eq!(applier.result(), Some(Ok(Applied { count: 0, stopped: None })));
    assert!(applier.step(Event::Moved(false)).is_none());
    assert_eq!(applier.result(), Some(Ok(Applied { count: 0, stopped: None })));
}

#[test]
fn entry_names_use_the_platform_separator() {
    assert_eq!(entry_path("dir/sub/b.txt"), "dir\\sub\\b.txt");
    assert_eq!(entry_path("a.txt"), "a.txt");
    assert_eq!(entry_path("dir/"), "dir");
    assert_eq!(entry_path(""), "");
}

#[test]
fn entry_paths_stay_inside_the_target() {
    assert_eq!(entry_path("../x/"), "x");
    assert_eq!(entry_path("/etc/passwd"), "etc\\passwd");
    assert_eq!(entry_path("a/./b/../c"), "a\\b\\c");
    assert_eq!(entry_path("a\\..\\b"), "a\\b");
    assert_eq!(entry_path(".."), "");
    assert_eq!(entry_path("..."), "...");
}

#[test]
fn entry_without_a_path_is_passed_over() {
    let loaded = LoadedArchive {
        entries: vec![
            ArchiveEntry { name: "../".to_string(), content: Vec::new() },
            ArchiveEntry { name: "..".to_string(), content: b"x".to_vec() },
            ArchiveEntry { name: "../up/b.txt".to_string(), content: b"b".to_vec() },
        ],
        stop: None,
    };
    let mut applier = Applier::new("T\\".to_string(), "B\\s\\".to_string(), loaded);
    let mut fs = FakeFs::new();
    let (result, _) = drive(&mut applier, &mut fs);
    assert_eq!(result, Ok(Applied { count: 1, stopped: None }));
    assert_eq!(fs.files.len(), 1);
    assert_eq!(fs.files.get("T\\up\\b.txt").unwrap(), b"b");
}

#[test]
fn repeated_entry_never_replaces_a_backup() {
    let loaded = LoadedArchive {
        entries: vec![
            ArchiveEntry { name: "a.txt".to_string(), content: b"n1".to_vec() },
            ArchiveEntry { name: "a.txt".to_string(), content: b"n2".to_vec() },
        ],
        stop: None,
    };
    let mut applier = Applier::new("T\\".to_string(), "B\\s\\".to_string(), loaded);
    let mut fs = FakeFs::new();
    fs.files.insert("T\\a.txt".to_string(), b"old".to_vec());
    let (result, _) = drive(&mut applier, &mut fs);
    assert_eq!(result, Ok(Applied { count: 1, stopped: Some(ApplyError::BackupMoveFailed) }));
    assert_eq!(fs.files.get("B\\s\\a.txt").unwrap(), b"old");
    assert_eq!(fs.files.get("T\\a.txt").unwrap(), b"n1");
}

#[test]
fn entry_with_stray_aes_field_stops_reading_without_panic() {
    let mut w = zip::ZipWriter::new(std::io::Cursor::new(Vec::new()));
    let options = zip::write::FileOptions::default()
        .compression_method(zip::CompressionMethod::Stored);
    w.start_file("plain.txt", options).unwrap();
    w.write_all(b"fine").unwrap();
    w.start_file_with_extra_data("odd.txt", options).unwrap();
    // The writer refuses the AES header id, so the field is written under a
    // free id and renamed in the finished bytes.
    let field = [0xcd, 0xab, 0x07, 0x00, 0x02, 0x00, 0x41, 0x45, 0x03, 0x00, 0x00];
    w.write_all(&field).unwrap();
    w.end_extra_data().unwrap();
    w.write_all(b"data").unwrap();
    let mut bytes = w.finish().unwrap().into_inner();
    let mut renamed = 0;
    for i in 0..bytes.len() - field.len() {
        if bytes[i..i + field.len()] == field {
            bytes[i] = 0x01;
            bytes[i + 1] = 0x99;
            renamed += 1;
        }
    }
    assert!(renamed >= 1);
    let loaded = load_archive(bytes).unwrap();
    assert_eq!(loaded.entries.len(), 1);
    assert_eq!(loaded.entries[0].content, b"fine");
    assert_eq!(loaded.stop, Some(ApplyError::EntryUnreadable));
}
