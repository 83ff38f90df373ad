use driveguard::checker::{
    check_due_at, get_current_version, silent_due_at, sources_in_order, ResolverStep,
    SourceResolver, UpdateChecker,
};
use driveguard::config::{AppConfig, BackupSchedule, GeneralSettings};
use driveguard::error::UpdateError;
use driveguard::manifest::{UpdateSettings, UpdateSource};
use driveguard::protocol::UpdateInfo;
use driveguard::version::Version;

const DAY: i64 = 86400;

#[test]
fn check_not_due_within_frequency() {
    let last = 1_700_000_000;
    assert!(!check_due_at(true, 7, Some(last), last));
    assert!(!check_due_at(true, 7, Some(last), last + 7 * DAY - 1));
    assert!(check_due_at(true, 7, Some(last), last + 7 * DAY));
    assert!(check_due_at(true, 7, None, last));
    assert!(!check_due_at(false, 7, None, last));
    assert!(!check_due_at(true, 1, Some(last), last - 3 * DAY));
    assert!(check_due_at(true, 0, Some(last), last));
}

#[test]
fn checker_uses_recorded_last_check() {
    let mut settings = UpdateSettings::default();
    settings.last_check = Some("2025-01-01T00:00:00+00:00".to_string());
    let config = AppConfig {
        general: GeneralSettings {
            language: "en".to_string(),
            min_free_space_gb: 10,
            warn_before_delete: true,
            update_settings: Some(settings),
        },
        schedules: Vec::new(),
    };
    let checker = UpdateChecker::new(&config);
    let t = 1_735_689_600;
    assert!(!checker.should_check_at(t + DAY));
    assert!(!checker.should_check_at(t + 7 * DAY - 1));
    assert!(checker.should_check_at(t + 7 * DAY));
}

#[test]
fn unreadable_or_missing_last_check_means_due() {
    let mut config = AppConfig::default();
    let mut checker = UpdateChecker::new(&config);
    assert!(checker.should_check_now());
    let at = checker.mark_checked();
    assert_eq!(checker.settings.last_check, Some(at.text.clone()));
    assert!(!checker.should_check_at(at.seconds));
    assert!(checker.should_check_at(at.seconds + 7 * DAY));
    assert!(!checker.should_check_now());
    if let Some(s) = config.general.update_settings.as_mut() {
        s.last_check = Some("yesterday".to_string());
    }
    assert!(UpdateChecker::new(&config).should_check_at(0));
}

#[test]
fn checker_defaults_without_update_settings() {
    let mut config = AppConfig::default();
    config.general.update_settings = None;
    let checker = UpdateChecker::new(&config);
    assert!(checker.settings.enabled);
    assert_eq!(checker.settings.check_frequency_days, 7);
    assert_eq!(checker.settings.sources.len(), 3);
    assert!(checker.last_interaction.is_none());
}

#[test]
fn silent_update_timing() {
    let t = 1_000_000;
    assert!(!silent_due_at(true, 30, None, t));
    assert!(!silent_due_at(false, 30, Some(t), t + 3600));
    assert!(!silent_due_at(true, 30, Some(t), t + 30 * 60 - 1));
    assert!(silent_due_at(true, 30, Some(t), t + 30 * 60));
    let mut checker = UpdateChecker::new(&AppConfig::default());
    checker.settings.silent_updates = true;
    assert!(!checker.should_apply_silent_update());
    checker.update_last_interaction();
    assert!(!checker.should_apply_silent_update());
    checker.settings.wait_after_interaction_minutes = 0;
    assert!(checker.should_apply_silent_update());
    checker.record_interaction_at(t);
    assert_eq!(checker.last_interaction, Some(t));
    assert!(checker.should_apply_silent_update_at(t + 30 * 60));
}

#[test]
fn skipped_versions() {
    let mut settings = UpdateSettings::default();
    settings.skip_version("0.2.0");
    settings.skip_version("0.2.0");
    settings.skip_version("0.3.0");
    assert_eq!(settings.skipped_versions, vec!["0.2.0", "0.3.0"]);
    let config = AppConfig {
        general: GeneralSettings {
            language: "en".to_string(),
            min_free_space_gb: 10,
            warn_before_delete: true,
            update_settings: Some(settings),
        },
        schedules: Vec::new(),
    };
    let checker = UpdateChecker::new(&config);
    assert!(checker.is_version_skipped("0.2.0"));
    assert!(!checker.is_version_skipped("0.2"));
}

fn src(name: &str, enabled: bool, priority: u8) -> UpdateSource {
    UpdateSource { name: name.to_string(), url: format!("https://{}/m.json", name), enabled, priority }
}

#[test]
fn sources_by_priority() {
    let sources = vec![src("c", true, 2), src("a", true, 0), src("off", false, 0), src("b1", true, 1), src("b2", true, 1), src("z", true, 255)];
    let names: Vec<String> = sources_in_order(&sources).into_iter().map(|s| s.name).collect();
    assert_eq!(names, vec!["a", "b1", "b2", "c", "z"]);
    assert!(sources_in_order(&Vec::new()).is_empty());
}

fn info(v: &str) -> UpdateInfo {
    UpdateInfo { version: v.to_string(), url: "u".to_string(), checksum: "c".to_string(), size_bytes: 1, breaking_changes: false }
}

#[test]
fn resolver_falls_back_to_next_source() {
    let sources = vec![src("second", true, 1), src("first", true, 0)];
    let mut r = SourceResolver::new(&sources);
    match r.current() {
        ResolverStep::Fetch(url) => assert_eq!(url, "https://first/m.json"),
        other => panic!("{:?}", other),
    }
    match r.on_result(Err(UpdateError::SourceUnreachable)) {
        ResolverStep::Fetch(url) => assert_eq!(url, "https://second/m.json"),
        other => panic!("{:?}", other),
    }
    match r.on_result(Ok(Some(info("0.2.0")))) {
        ResolverStep::Done(Some(found)) => assert_eq!(found.version, "0.2.0"),
        other => panic!("{:?}", other),
    }
}

#[test]
fn resolver_exhausts_sources() {
    let mut r = SourceResolver::new(&vec![src("only", true, 0)]);
    assert!(matches!(r.on_result(Ok(None)), ResolverStep::Done(None)));
    let empty = SourceResolver::new(&Vec::new());
    assert!(matches!(empty.current(), ResolverStep::Done(None)));
}

#[test]
fn current_version_is_valid() {
    let v = Version::parse(get_current_version()).unwrap();
    assert_eq!(v.to_string(), "0.1.0");
}

#[test]
fn schedules_added_and_removed() {
    let mut config = AppConfig::default();
    let a = BackupSchedule::new("Photos".to_string(), 1_700_000_000);
    assert_eq!(a.id, "schedule_1700000000");
    assert_eq!(a.interval_days, 7);
    let b = BackupSchedule::new("Docs".to_string(), 5);
    config.add_schedule(a.clone());
    config.add_schedule(b);
    config.add_schedule(a);
    assert_eq!(config.schedules.len(), 3);
    config.remove_schedule("schedule_1700000000");
    assert_eq!(config.schedules.len(), 1);
    assert_eq!(config.schedules[0].name, "Docs");
    config.remove_schedule("none");
    assert_eq!(config.schedules.len(), 1);
}

#[test]
fn clock_reads_current_time() {
    let n = driveguard::clock::now();
    assert!(n.seconds > 1_600_000_000);
    assert!(n.text.starts_with("20"));
    let mut settings = UpdateSettings::default();
    settings.last_check = Some(n.text.clone());
    let mut config = AppConfig::default();
    config.general.update_settings = Some(settings);
    assert!(!UpdateChecker::new(&config).should_check_at(n.seconds));
}
