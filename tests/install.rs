use driveguard::error::UpdateError;
use driveguard::install::{backup_dir_name, staged_artifact_name, ApplyStep, EXECUTABLE_NAME};
use driveguard::integrity::{check_download, digest_matches, to_hex, verify_artifact};
use driveguard::rollback::{choose_rollback, BackupCandidate};

fn run(outcomes: &[bool]) -> (Vec<ApplyStep>, ApplyStep) {
    let mut step = ApplyStep::start();
    let mut seen = Vec::new();
    for ok in outcomes {
        seen.push(step);
        step = step.advance(*ok);
    }
    (seen, step)
}

#[test]
fn apply_success_path() {
    let (seen, end) = run(&[true; 8]);
    assert_eq!(
        seen,
        vec![
            ApplyStep::CheckStaged,
            ApplyStep::CreateBackupDir,
            ApplyStep::BackupLive,
            ApplyStep::RemoveLive,
            ApplyStep::InstallStaged,
            ApplyStep::RemoveStaged,
            ApplyStep::Relaunch,
            ApplyStep::Done,
        ]
    );
    assert_eq!(end, ApplyStep::Done);
    assert!(end.is_finished());
}

#[test]
fn failed_copy_in_restores_backup() {
    let (seen, end) = run(&[true, true, true, true, false, true]);
    assert_eq!(seen[4], ApplyStep::InstallStaged);
    assert_eq!(seen[5], ApplyStep::RestoreBackup);
    assert_eq!(end, ApplyStep::Failed(UpdateError::SwapFailed));
}

#[test]
fn failed_restore_is_reported_distinctly() {
    let (_, end) = run(&[true, true, true, true, false, false]);
    assert_eq!(end, ApplyStep::Failed(UpdateError::RestoreFailed));
}

#[test]
fn failures_before_the_swap() {
    assert_eq!(run(&[false]).1, ApplyStep::Failed(UpdateError::StagedArtifactMissing));
    assert_eq!(run(&[true, false, false]).1, ApplyStep::Failed(UpdateError::BackupFailed));
    assert_eq!(run(&[true, true, true, false]).1, ApplyStep::Failed(UpdateError::SwapFailed));
    let (_, end) = run(&[true, true, true, true, true, false, false]);
    assert_eq!(end, ApplyStep::Failed(UpdateError::RelaunchFailed));
    assert!(!ApplyStep::RemoveLive.is_finished());
}

#[test]
fn staging_and_backup_names() {
    assert_eq!(staged_artifact_name("0.2.0"), "driveguard_v0.2.0.exe");
    assert_eq!(backup_dir_name("0.1.0"), "v0.1.0");
    assert_eq!(EXECUTABLE_NAME, "driveguard.exe");
}

fn candidate(name: &str, has_executable: bool) -> BackupCandidate {
    BackupCandidate { name: name.to_string(), has_executable }
}

#[test]
fn rollback_without_backups_fails() {
    assert_eq!(choose_rollback(&Vec::new()), Err(UpdateError::NoBackupAvailable));
    let none_usable = vec![candidate("downloads", true), candidate("v0.1.0", false)];
    assert_eq!(choose_rollback(&none_usable), Err(UpdateError::NoBackupAvailable));
}

#[test]
fn rollback_takes_newest_backup_with_executable() {
    let cs = vec![
        candidate("v0.1.9", true),
        candidate("downloads", true),
        candidate("v0.1.10", true),
        candidate("v0.2.0", false),
        candidate("v0.1.10", true),
    ];
    assert_eq!(choose_rollback(&cs), Ok(2));
}

const ABC_SHA256: &str = "ba7816bf8f01cfea414140de5dae2223b00361a396177a9cb410ff61f20015ad";

#[test]
fn artifact_digest_is_checked() {
    let data = b"abc".to_vec();
    assert!(verify_artifact(&data, ABC_SHA256));
    assert!(verify_artifact(&data, &ABC_SHA256.to_uppercase()));
    assert!(!verify_artifact(&data, &ABC_SHA256[1..]));
    assert!(!verify_artifact(&b"abd".to_vec(), ABC_SHA256));
    assert!(!verify_artifact(&data, "00"));
}

#[test]
fn download_verdicts() {
    assert_eq!(check_download(Some(b"abc".to_vec()), ABC_SHA256), Ok(()));
    assert_eq!(check_download(Some(b"abc!".to_vec()), ABC_SHA256), Err(UpdateError::ChecksumMismatch));
    assert_eq!(check_download(None, ABC_SHA256), Err(UpdateError::DownloadFailed));
}

#[test]
fn hex_text_of_bytes() {
    assert_eq!(to_hex(&vec![0x00, 0x0f, 0xa0, 0xff]), "000fa0ff");
    assert_eq!(to_hex(&Vec::new()), "");
    assert!(digest_matches(&vec![0xde, 0xad], "DEad"));
    assert!(!digest_matches(&vec![0xde, 0xad], "dead00"));
}
