use driveguard::error::UpdateError;
use driveguard::manifest::{UpdateManifest, VersionInfo};
use driveguard::protocol::{
    check_output, check_report_lines, download_complete_line, evaluate_manifest,
    parse_check_output, parse_download_output, update_applied_line, CheckReport,
};

fn entry(url: &str, checksum: &str, size: u64, breaking: bool) -> VersionInfo {
    VersionInfo {
        release_date: "2025-07-01".to_string(),
        breaking_changes: breaking,
        min_compatible_version: "0.1.0".to_string(),
        download_url: url.to_string(),
        checksum_sha256: checksum.to_string(),
        changelog_url: "https://example.org/changes".to_string(),
        file_size_bytes: size,
        has_patch: false,
        patch_url: None,
        patch_checksum: None,
        patch_required_from: Vec::new(),
    }
}

fn manifest(latest: &str) -> UpdateManifest {
    UpdateManifest {
        latest_version: latest.to_string(),
        versions: vec![
            ("0.1.0".to_string(), entry("https://example.org/0.1.0.exe", "aa", 10, false)),
            (latest.to_string(), entry("https://example.org/new.exe", "ABCDEF", 123456, true)),
        ],
    }
}

#[test]
fn newer_manifest_gives_one_update_block() {
    let lines = check_output(&manifest("0.2.0"), "0.1.0").unwrap();
    assert_eq!(
        lines,
        vec![
            "UPDATE_AVAILABLE:0.2.0",
            "URL:https://example.org/new.exe",
            "CHECKSUM:ABCDEF",
            "SIZE:123456",
            "BREAKING:true",
            "IS_TEST:false",
        ]
    );
    let count = lines.iter().filter(|l| l.starts_with("UPDATE_AVAILABLE:")).count();
    assert_eq!(count, 1);
}

#[test]
fn newer_test_build_is_flagged() {
    let lines = check_output(&manifest("0.1.0r2"), "v0.1.0").unwrap();
    assert_eq!(lines[0], "UPDATE_AVAILABLE:0.1.0r2");
    assert_eq!(lines[5], "IS_TEST:true");
}

#[test]
fn equal_or_older_manifest_is_up_to_date() {
    assert_eq!(check_output(&manifest("0.1.0"), "0.1.0").unwrap(), vec!["UP_TO_DATE"]);
    assert_eq!(check_output(&manifest("0.1.0"), "0.3.0").unwrap(), vec!["UP_TO_DATE"]);
    assert!(matches!(evaluate_manifest(&manifest("0.1.0"), "v0.1.0"), Ok(CheckReport::UpToDate)));
}

#[test]
fn manifest_without_entry_for_latest_fails() {
    let mut m = manifest("0.2.0");
    m.versions.truncate(1);
    assert_eq!(check_output(&m, "0.1.0").unwrap_err(), UpdateError::InconsistentManifest);
}

#[test]
fn invalid_versions_fail_the_check() {
    assert_eq!(check_output(&manifest("0.2.0"), "zero").unwrap_err(), UpdateError::InvalidVersionFormat);
    assert_eq!(check_output(&manifest("latest"), "0.1.0").unwrap_err(), UpdateError::InvalidVersionFormat);
}

#[test]
fn report_lines_of_up_to_date() {
    assert_eq!(check_report_lines(&CheckReport::UpToDate), vec!["UP_TO_DATE"]);
}

#[test]
fn host_reads_update_block() {
    let out = "UPDATE_AVAILABLE:0.2.0\nURL:https://example.org/new.exe\nCHECKSUM:ABCDEF\nSIZE:123456\nBREAKING:true\nIS_TEST:false\n";
    let info = parse_check_output(out, false).unwrap().unwrap();
    assert_eq!(info.version, "0.2.0");
    assert_eq!(info.url, "https://example.org/new.exe");
    assert_eq!(info.checksum, "ABCDEF");
    assert_eq!(info.size_bytes, 123456);
    assert!(info.breaking_changes);
}

#[test]
fn host_reads_what_the_updater_prints() {
    let lines = check_output(&manifest("0.2.0"), "0.1.0").unwrap();
    let out = lines.join("\r\n");
    let info = parse_check_output(&out, false).unwrap().unwrap();
    assert_eq!(info.version, "0.2.0");
    assert_eq!(info.url, "https://example.org/new.exe");
    assert_eq!(info.checksum, "ABCDEF");
    assert_eq!(info.size_bytes, 123456);
    assert!(info.breaking_changes);
}

#[test]
fn host_rejects_test_build_unless_allowed() {
    let out = "UPDATE_AVAILABLE:0.2.0r3\nURL:u\nCHECKSUM:c\nSIZE:1\nBREAKING:false\nIS_TEST:true\n";
    assert_eq!(parse_check_output(out, false).unwrap_err(), UpdateError::TestVersionRejected);
    let info = parse_check_output(out, true).unwrap().unwrap();
    assert_eq!(info.version, "0.2.0r3");
    assert!(!info.breaking_changes);
}

#[test]
fn host_reads_up_to_date_and_garbage() {
    assert!(parse_check_output("UP_TO_DATE\n", false).unwrap().is_none());
    assert!(parse_check_output("log line\nUP_TO_DATE", false).unwrap().is_none());
    assert_eq!(parse_check_output("", false).unwrap_err(), UpdateError::UnexpectedOutput);
    assert_eq!(parse_check_output("hello\nworld\n", true).unwrap_err(), UpdateError::UnexpectedOutput);
}

#[test]
fn host_takes_last_field_and_defaults() {
    let out = "URL:first\nUPDATE_AVAILABLE:1.0.0\nURL:second\nSIZE:lots\n";
    let info = parse_check_output(out, false).unwrap().unwrap();
    assert_eq!(info.url, "second");
    assert_eq!(info.checksum, "");
    assert_eq!(info.size_bytes, 0);
    assert!(!info.breaking_changes);
}

#[test]
fn download_output_round_trip() {
    let line = download_complete_line("updates/downloads/driveguard_v0.2.0.exe");
    assert_eq!(line, "DOWNLOAD_COMPLETE:updates/downloads/driveguard_v0.2.0.exe");
    let out = format!("note\n{}\n", line);
    assert_eq!(parse_download_output(&out).unwrap(), "updates/downloads/driveguard_v0.2.0.exe");
    assert!(parse_download_output("failed\n").is_none());
    assert_eq!(update_applied_line("0.2.0"), "UPDATE_APPLIED:0.2.0");
}

#[test]
fn manifest_lookup_by_version() {
    let m = manifest("0.2.0");
    assert_eq!(m.version_info(&"0.2.0".to_string()).unwrap().file_size_bytes, 123456);
    assert!(m.version_info(&"9.9.9".to_string()).is_none());
}

#[test]
fn size_field_limits() {
    let out = "UPDATE_AVAILABLE:1.0.0\nSIZE:18446744073709551615\n";
    assert_eq!(parse_check_output(out, false).unwrap().unwrap().size_bytes, u64::MAX);
    let out = "UPDATE_AVAILABLE:1.0.0\nSIZE:18446744073709551616\n";
    assert_eq!(parse_check_output(out, false).unwrap().unwrap().size_bytes, 0);
    let mut m = manifest("0.2.0");
    m.versions[1].1.file_size_bytes = u64::MAX;
    let lines = check_output(&m, "0.1.0").unwrap();
    assert_eq!(lines[3], "SIZE:18446744073709551615");
}
