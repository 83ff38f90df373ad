use driveguard::config::{
    backup_list_entries, backup_list_text, default_language, default_min_free_space, default_true,
    AppConfig, BackupSchedule,
};
use driveguard::drives::{is_backup_due, DriveInfo, DriveMonitor};

const DAY: i64 = 86400;
const JAN_1_2025: i64 = 1_735_689_600;

fn drive(letter: char, serial: Option<u32>, has_id_file: bool) -> DriveInfo {
    DriveInfo { letter, serial, has_id_file, id_content: None }
}

fn schedule(name: &str, serial: Option<&str>, id_file: bool) -> BackupSchedule {
    let mut s = BackupSchedule::new(name.to_string(), 1);
    s.id = format!("id_{}", name);
    s.drive_serial = serial.map(|x| x.to_string());
    s.drive_id_file = id_file;
    s
}

fn config(schedules: Vec<BackupSchedule>) -> AppConfig {
    let mut c = AppConfig::default();
    c.schedules = schedules;
    c
}

#[test]
fn new_drive_matches_by_serial_or_id_file() {
    let cfg = config(vec![
        schedule("by_serial", Some("305419896"), false),
        schedule("by_id", None, true),
        schedule("empty_serial", Some(""), true),
        schedule("other_serial", Some("1"), true),
    ]);
    let mut m = DriveMonitor::new();
    let found = m.check_drives(&cfg, vec![drive('E', Some(0x12345678), true)], JAN_1_2025);
    assert_eq!(found, vec![('E', 0), ('E', 1), ('E', 2)]);
    assert_eq!(m.connected_drives.len(), 1);
}

#[test]
fn known_drives_trigger_nothing_again() {
    let cfg = config(vec![schedule("by_id", None, true)]);
    let mut m = DriveMonitor::new();
    assert_eq!(m.check_drives(&cfg, vec![drive('E', None, true)], JAN_1_2025), vec![('E', 0)]);
    assert!(m.check_drives(&cfg, vec![drive('E', None, true)], JAN_1_2025).is_empty());
    assert_eq!(
        m.check_drives(&cfg, vec![drive('E', None, true), drive('F', None, true)], JAN_1_2025),
        vec![('F', 0)]
    );
    assert!(m.check_drives(&cfg, Vec::new(), JAN_1_2025).is_empty());
    assert!(m.connected_drives.is_empty());
}

#[test]
fn startup_checks_every_drive() {
    let cfg = config(vec![schedule("by_id", None, true)]);
    let mut m = DriveMonitor::new();
    m.check_drives(&cfg, vec![drive('E', None, true)], JAN_1_2025);
    let found = m.check_all_drives_on_startup(&cfg, vec![drive('E', None, true), drive('G', None, false)], JAN_1_2025);
    assert_eq!(found, vec![('E', 0)]);
    assert_eq!(m.connected_drives.len(), 2);
}

#[test]
fn disabled_or_not_due_schedules_do_not_trigger() {
    let mut off = schedule("off", None, true);
    off.enabled = false;
    let mut manual = schedule("manual", None, true);
    manual.trigger_on_connect = false;
    let mut recent = schedule("recent", None, true);
    recent.last_backup = Some("2025-01-01T00:00:00Z".to_string());
    let cfg = config(vec![off, manual, recent]);
    let mut m = DriveMonitor::new();
    assert!(m.check_drives(&cfg, vec![drive('E', None, true)], JAN_1_2025 + DAY).is_empty());
}

#[test]
fn backup_due_after_interval() {
    let mut s = schedule("s", None, true);
    assert!(is_backup_due(&s, 0));
    s.last_backup = Some(String::new());
    assert!(is_backup_due(&s, 0));
    s.last_backup = Some("not a time".to_string());
    assert!(is_backup_due(&s, 0));
    s.last_backup = Some("2025-01-01T00:00:00+00:00".to_string());
    assert!(!is_backup_due(&s, JAN_1_2025 + 7 * DAY - 1));
    assert!(is_backup_due(&s, JAN_1_2025 + 7 * DAY));
}

#[test]
fn timed_schedules_due() {
    let mut timed = schedule("timed", None, true);
    timed.trigger_on_schedule = true;
    let mut timed_recent = schedule("timed_recent", None, true);
    timed_recent.trigger_on_schedule = true;
    timed_recent.last_backup = Some("2025-01-01T00:00:00Z".to_string());
    let untimed = schedule("untimed", None, true);
    let cfg = config(vec![timed, timed_recent, untimed]);
    assert_eq!(cfg.due_schedules_at(JAN_1_2025 + DAY), vec![0]);
    assert_eq!(cfg.due_schedules_at(JAN_1_2025 + 8 * DAY), vec![0, 1]);
    assert_eq!(cfg.check_scheduled_backups(), vec![0, 1]);
}

#[test]
fn last_backup_is_recorded() {
    let mut cfg = config(vec![schedule("a", None, true), schedule("b", None, true)]);
    cfg.update_last_backup("id_b");
    assert!(cfg.schedules[0].last_backup.is_none());
    assert!(cfg.schedules[1].last_backup.is_some());
    assert_eq!(cfg.schedules[1].name, "b");
    cfg.update_last_backup("id_none");
    assert!(cfg.schedules[0].last_backup.is_none());
    assert!(!is_backup_due(&cfg.schedules[1], JAN_1_2025));
}

#[test]
fn backup_list_file_format() {
    let content = "# DriveGuard Backup List\n# comment\n\nC:\\Users\\me\\Documents\n   \n  # indented comment\nD:\\Data \r\n\u{3000}\n";
    assert_eq!(backup_list_entries(content), vec!["C:\\Users\\me\\Documents", "D:\\Data "]);
    assert!(backup_list_entries("").is_empty());
    let paths = vec!["a".to_string(), "b".to_string()];
    assert_eq!(backup_list_text(&paths), "a\nb");
    assert_eq!(backup_list_entries(&backup_list_text(&paths)), paths);
    assert_eq!(backup_list_text(&Vec::new()), "");
}

#[test]
fn configuration_defaults() {
    assert_eq!(default_language(), "en");
    assert_eq!(default_min_free_space(), 10);
    assert!(default_true());
    let c = AppConfig::default();
    assert_eq!(c.general.language, "en");
    assert!(c.schedules.is_empty());
    assert!(c.general.update_settings.is_some());
}
