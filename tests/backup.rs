use driveguard::backup::{folder_names, BackupEngine};
use driveguard::countdown::{countdown_text, countdown_tick, CountdownStep};

#[test]
fn engine_counts_files() {
    let mut e = BackupEngine::new();
    assert_eq!(e.get_progress(), (0, 0));
    assert!(!e.is_running);
    e.begin();
    e.record_file("a.txt".to_string(), None);
    e.record_file("b.txt".to_string(), Some("denied".to_string()));
    e.record_file("c.txt".to_string(), None);
    e.finish();
    assert_eq!(e.get_progress(), (2, 3));
    assert_eq!(e.failed_files, vec![("b.txt".to_string(), "denied".to_string())]);
    assert!(!e.is_running);
}

#[test]
fn repeated_folder_names_get_counters() {
    let names: Vec<String> = ["Documents", "Pictures", "Documents", "C", "Documents"].iter().map(|s| s.to_string()).collect();
    assert_eq!(folder_names(&names), vec!["Documents", "Pictures", "Documents_1", "C", "Documents_2"]);
    assert!(folder_names(&Vec::new()).is_empty());
}

#[test]
fn log_texts() {
    let mut e = BackupEngine::new();
    e.begin();
    e.record_file("a.txt".to_string(), None);
    e.record_file("b.txt".to_string(), Some("denied".to_string()));
    e.finish();
    assert_eq!(
        e.log_text("2025-01-01T00:00:00+00:00"),
        "DriveGuard Backup Log\nTimestamp: 2025-01-01T00:00:00+00:00\nTotal files: 2\nSuccessfully copied: 1\nFailed: 1\n\nb.txt - OK\n"
    );
    assert_eq!(e.error_log_text().unwrap(), "DriveGuard Backup Errors\n\nb.txt - Failed! (denied)\n");
    assert!(BackupEngine::new().error_log_text().is_none());
}

#[test]
fn countdown_ticks() {
    assert_eq!(countdown_text(300), "Starting in 5:00");
    assert_eq!(countdown_text(65), "Starting in 1:05");
    assert_eq!(countdown_text(59), "Starting in 0:59");
    match countdown_tick(300) {
        CountdownStep::Show { remaining, label } => {
            assert_eq!(remaining, 299);
            assert_eq!(label, "Starting in 4:59");
        }
        CountdownStep::StartBackup => panic!("started early"),
    }
    assert!(matches!(countdown_tick(0), CountdownStep::StartBackup));
}
