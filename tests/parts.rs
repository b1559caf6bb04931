use auto_updater::batch::{Batch, Cycle};
use auto_updater::applier::Applied;
use auto_updater::config::{ends_with, parse_config, value_for, ConfigError};
use auto_updater::error::ApplyError;
use auto_updater::gate::{process_listed, Gate, GateAction};
use auto_updater::layout::{bootstrap_fatal, starts_with, with_separator, DirStatus, Layout};
use auto_updater::scan::{is_archive_name, select_archives, FoundFile};
use auto_updater::stamp::{log_line, log_line_now, Severity, Timestamp};
use auto_updater::text::{push_decimal, push_signed_decimal};

fn lines(text: &[&str]) -> Vec<String> {
    text.iter().map(|s| s.to_string()).collect()
}

#[test]
fn decimal_numbers_have_no_padding() {
    let mut s = String::new();
    push_decimal(&mut s, 0);
    s.push(' ');
    push_decimal(&mut s, 7);
    s.push(' ');
    push_decimal(&mut s, 4294967295);
    assert_eq!(s, "0 7 4294967295");
    let mut t = String::new();
    push_signed_decimal(&mut t, -2147483648);
    assert_eq!(t, "-2147483648");
}

#[test]
fn folder_name_and_log_line_formats() {
    let at = Timestamp { year: 2023, month: 1, day: 9, hour: 14, minute: 3, second: 59 };
    assert_eq!(at.folder_name(), "2023-1-9-14-3-59");
    assert_eq!(at.log_prefix(), "2023/1/9 14:3:59");
    assert_eq!(log_line(at, Severity::Warning, "File x does not exist"), "2023/1/9 14:3:59 W: File x does not exist\n");
    assert_eq!(log_line(at, Severity::Critical, "No process name given"), "2023/1/9 14:3:59 E: No process name given\n");
}

#[test]
fn log_line_now_ends_with_message() {
    let line = log_line_now(Severity::Warning, "hello");
    assert!(line.ends_with(" W: hello\n"));
    assert!(line.contains('/'));
}

#[test]
fn batch_stamp_is_taken_once() {
    let layout = Layout::new("T", "U", "B");
    let f = FoundFile { path: "U\\__auto_updater\\x.zip".to_string(), name: "x.zip".to_string() };
    let b = Batch::begin(&layout, &f);
    let folder = b.stamp.folder_name();
    assert!((1..=12).contains(&b.stamp.month));
    assert_eq!(b.backup_folder, format!("B\\{}\\", folder));
    assert_eq!(b.history_folder, format!("U\\__auto_updater_history\\{}\\", folder));
    assert_eq!(b.quarantine_folder, format!("B\\__auto_updater_error\\{}\\", folder));
    assert_eq!(b.history_path, format!("U\\__auto_updater_history\\{}\\x.zip", folder));
}

#[test]
fn layout_directories() {
    let l = Layout::new("C:\\app", "C:\\upd\\", "C:\\bak");
    assert_eq!(l.target_root, "C:\\app\\");
    assert_eq!(l.staging, "C:\\upd\\__auto_updater\\");
    assert_eq!(l.history, "C:\\upd\\__auto_updater_history\\");
    assert_eq!(l.backup_root, "C:\\bak\\");
    assert_eq!(l.quarantine, "C:\\bak\\__auto_updater_error\\");
    assert_eq!(
        l.bootstrap_dirs(),
        vec![
            "C:\\upd\\__auto_updater\\".to_string(),
            "C:\\upd\\__auto_updater_history\\".to_string(),
            "C:\\bak\\".to_string(),
            "C:\\bak\\__auto_updater_error\\".to_string(),
        ]
    );
    assert_eq!(with_separator(""), "\\");
}

#[test]
fn bootstrap_twice_is_harmless() {
    let first = Layout::new("T", "U", "B").bootstrap_dirs();
    let second = Layout::new("T", "U", "B").bootstrap_dirs();
    assert_eq!(first, second);
    let again = Layout::new("T\\", "U\\", "B\\").bootstrap_dirs();
    assert_eq!(first, again);
    assert!(!bootstrap_fatal(DirStatus::Created));
    assert!(!bootstrap_fatal(DirStatus::AlreadyExisted));
    assert!(bootstrap_fatal(DirStatus::Failed));
}

#[test]
fn gate_waits_and_notifies_once() {
    let mut g = Gate::new();
    let reports = [true, true, true, false];
    let actions: Vec<GateAction> = reports.iter().map(|p| g.observe(*p)).collect();
    assert_eq!(
        actions,
        vec![GateAction::NotifyAndWait, GateAction::Wait, GateAction::Wait, GateAction::Proceed]
    );
}

#[test]
fn gate_proceeds_at_once_when_absent() {
    let mut g = Gate::new();
    assert_eq!(g.observe(false), GateAction::Proceed);
    assert!(!g.notified);
}

#[test]
fn process_list_substring_match() {
    let listing = "Image Name   PID\napp.exe      120\nother.exe    7\n";
    assert!(process_listed(listing, "app.exe"));
    assert!(!process_listed(listing, "App.exe"));
    assert!(!process_listed(listing, "missing.exe"));
    assert!(process_listed(listing, ""));
    assert!(!process_listed("", "app.exe"));
    assert!(process_listed("xapp.exe", "app.exe"));
}

#[test]
fn archive_extension_is_case_sensitive() {
    assert!(is_archive_name("update.zip"));
    assert!(is_archive_name("..zip"));
    assert!(!is_archive_name(".zip"));
    assert!(!is_archive_name("update.ZIP"));
    assert!(!is_archive_name("update.zip.txt"));
    assert!(!is_archive_name("zip"));
}

#[test]
fn scanning_empty_staging_twice_finds_nothing() {
    let nothing: Vec<FoundFile> = Vec::new();
    assert!(select_archives(&nothing).is_empty());
    assert!(select_archives(&nothing).is_empty());
}

#[test]
fn scanning_keeps_archives_in_order() {
    let found = vec![
        FoundFile { path: "S\\a.zip".to_string(), name: "a.zip".to_string() },
        FoundFile { path: "S\\notes.txt".to_string(), name: "notes.txt".to_string() },
        FoundFile { path: "S\\sub\\b.zip".to_string(), name: "b.zip".to_string() },
    ];
    let picked = select_archives(&found);
    let paths: Vec<&str> = picked.iter().map(|f| f.path.as_str()).collect();
    assert_eq!(paths, vec!["S\\a.zip", "S\\sub\\b.zip"]);
}

#[test]
fn config_with_all_keys() {
    let c = parse_config(&lines(&[
        "# settings",
        "process=app.exe",
        "target_dir=C:\\app",
        "update_dir=C:\\upd",
        "backup_dir=C:\\bak",
    ]))
    .unwrap();
    assert_eq!(c.process_name, "app.exe");
    assert_eq!(c.target_dir, "C:\\app");
    assert_eq!(c.update_dir, "C:\\upd");
    assert_eq!(c.backup_dir, "C:\\bak");
}

#[test]
fn config_stops_reading_once_complete() {
    let c = parse_config(&lines(&[
        "target_dir=A",
        "target_dir=A2",
        "process=app.exe",
        "update_dir=U",
        "backup_dir=B",
        "process=bad",
    ]))
    .unwrap();
    assert_eq!(c.target_dir, "A2");
    assert_eq!(c.process_name, "app.exe");
}

#[test]
fn config_value_ends_at_next_equals() {
    let c = parse_config(&lines(&["process=app.exe=x", "target_dir=T", "update_dir=U", "backup_dir=B"])).unwrap();
    assert_eq!(c.process_name, "app.exe");
    assert_eq!(value_for("key=", "key"), Some(String::new()));
    assert_eq!(value_for("key", "key"), None);
    assert_eq!(value_for("keys=1", "key"), None);
    assert!(ends_with("app.exe", ".exe"));
    assert!(!ends_with("exe", ".exe"));
}

#[test]
fn config_errors() {
    let e = parse_config(&lines(&["process=app", "target_dir=T", "update_dir=U", "backup_dir=B"])).unwrap_err();
    assert!(matches!(e, ConfigError::InvalidProcessName { ref value } if value == "app"));
    let e = parse_config(&lines(&["target_dir=T", "update_dir=U", "backup_dir=B"])).unwrap_err();
    assert!(matches!(e, ConfigError::MissingProcess));
    let e = parse_config(&lines(&["process=a.exe", "update_dir=U", "backup_dir=B"])).unwrap_err();
    assert!(matches!(e, ConfigError::MissingTargetDir));
    let e = parse_config(&lines(&["process=a.exe", "target_dir=T", "backup_dir=B"])).unwrap_err();
    assert!(matches!(e, ConfigError::MissingUpdateDir));
    let e = parse_config(&lines(&["process=a.exe", "target_dir=T", "update_dir=U"])).unwrap_err();
    assert!(matches!(e, ConfigError::MissingBackupDir));
    let e = parse_config(&Vec::new()).unwrap_err();
    assert!(matches!(e, ConfigError::MissingProcess));
}

#[test]
fn cycle_announces_only_after_an_applied_archive() {
    let mut c = Cycle::new();
    assert!(!c.announce_completion());
    c.record(Err(ApplyError::ArchiveUnreadable));
    c.record(Err(ApplyError::BackupDirUnavailable));
    assert!(!c.announce_completion());
    c.record(Ok(Applied { count: 0, stopped: Some(ApplyError::BackupMoveFailed) }));
    assert!(c.announce_completion());
}

#[test]
fn nested_target_and_backup_are_refused() {
    assert!(Layout::checked("C:\\app", "C:\\upd", "C:\\bak").is_some());
    assert!(Layout::checked("C:\\app", "C:\\upd", "C:\\app2").is_some());
    assert!(Layout::checked("C:\\app", "C:\\upd", "C:\\app\\bak").is_none());
    assert!(Layout::checked("C:\\app\\", "C:\\upd", "C:\\").is_none());
    assert!(Layout::checked("C:\\app", "C:\\upd", "C:\\app\\").is_none());
    let l = Layout::checked("C:\\app", "C:\\upd", "C:\\bak").unwrap();
    assert_eq!(l.backup_root, "C:\\bak\\");
    assert!(starts_with("abc", "ab"));
    assert!(!starts_with("ab", "abc"));
}
