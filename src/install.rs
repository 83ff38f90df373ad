//! Installing a verified artifact over the running executable, as a sequence
//! of file-system steps: each step's success or failure decides the next one.
//! The live executable is never left missing, except when both the swap and
//! the restore of the backup fail, which ends in `RestoreFailed`.

use vstd::prelude::*;
use crate::error::UpdateError;

verus! {

/// The file name of the application's executable.
pub const EXECUTABLE_NAME: &'static str = "driveguard.exe";

/// The file name under which the artifact of `version` is staged.
pub fn staged_artifact_name(version: &str) -> (r: String)
    ensures
        r@ == "driveguard_v"@ + version@ + ".exe"@,
{
    let mut name = String::from_str("driveguard_v");
    name.append(version);
    name.append(".exe");
    name
}

/// The name of the directory that keeps the backup of `current_version`.
pub fn backup_dir_name(current_version: &str) -> (r: String)
    ensures
        r@ == "v"@ + current_version@,
{
    let mut name = String::from_str("v");
    name.append(current_version);
    name
}

/// A step of installing an update; each but the last is a file-system
/// operation to perform, whose success decides the next step.
#[derive(Clone, Copy, Debug, PartialEq, Eq, Structural)]
pub enum ApplyStep {
    /// Check that the staged artifact exists.
    CheckStaged,
    /// Create the backup directory for the running version (failure is
    /// noticed by the next step).
    CreateBackupDir,
    /// Copy the live executable into the backup directory.
    BackupLive,
    /// Remove the live executable.
    RemoveLive,
    /// Copy the staged artifact to the live path.
    InstallStaged,
    /// Copy the backup back to the live path.
    RestoreBackup,
    /// Delete the staged artifact (best effort).
    RemoveStaged,
    /// Start the new executable.
    Relaunch,
    /// Installed and started.
    Done,
    /// Stopped with an error.
    Failed(UpdateError),
}

/// The step after `step`, given whether `step` succeeded.
pub open spec fn apply_next(step: ApplyStep, ok: bool) -> ApplyStep {
    match step {
        ApplyStep::CheckStaged => if ok {
            ApplyStep::CreateBackupDir
        } else {
            ApplyStep::Failed(UpdateError::StagedArtifactMissing)
        },
        ApplyStep::CreateBackupDir => ApplyStep::BackupLive,
        ApplyStep::BackupLive => if ok {
            ApplyStep::RemoveLive
        } else {
            ApplyStep::Failed(UpdateError::BackupFailed)
        },
        ApplyStep::RemoveLive => if ok {
            ApplyStep::InstallStaged
        } else {
            ApplyStep::Failed(UpdateError::SwapFailed)
        },
        ApplyStep::InstallStaged => if ok {
            ApplyStep::RemoveStaged
        } else {
            ApplyStep::RestoreBackup
        },
        ApplyStep::RestoreBackup => if ok {
            ApplyStep::Failed(UpdateError::SwapFailed)
        } else {
            ApplyStep::Failed(UpdateError::RestoreFailed)
        },
        ApplyStep::RemoveStaged => ApplyStep::Relaunch,
        ApplyStep::Relaunch => if ok {
            ApplyStep::Done
        } else {
            ApplyStep::Failed(UpdateError::RelaunchFailed)
        },
        ApplyStep::Done => ApplyStep::Done,
        ApplyStep::Failed(e) => ApplyStep::Failed(e),
    }
}

pub open spec fn is_final(step: ApplyStep) -> bool {
    step is Done || step is Failed
}

impl ApplyStep {
    /// The first step of an installation.
    pub fn start() -> (r: ApplyStep)
        ensures
            r == ApplyStep::CheckStaged,
    {
        ApplyStep::CheckStaged
    }

    /// The step after this one, given whether this one succeeded.
    pub fn advance(self, ok: bool) -> (r: ApplyStep)
        ensures
            r == apply_next(self, ok),
    {
        match self {
            ApplyStep::CheckStaged => if ok {
                ApplyStep::CreateBackupDir
            } else {
                ApplyStep::Failed(UpdateError::StagedArtifactMissing)
            },
            ApplyStep::CreateBackupDir => ApplyStep::BackupLive,
            ApplyStep::BackupLive => if ok {
                ApplyStep::RemoveLive
            } else {
                ApplyStep::Failed(UpdateError::BackupFailed)
            },
            ApplyStep::RemoveLive => if ok {
                ApplyStep::InstallStaged
            } else {
                ApplyStep::Failed(UpdateError::SwapFailed)
            },
            ApplyStep::InstallStaged => if ok {
                ApplyStep::RemoveStaged
            } else {
                ApplyStep::RestoreBackup
            },
            ApplyStep::RestoreBackup => if ok {
                ApplyStep::Failed(UpdateError::SwapFailed)
            } else {
                ApplyStep::Failed(UpdateError::RestoreFailed)
            },
            ApplyStep::RemoveStaged => ApplyStep::Relaunch,
            ApplyStep::Relaunch => if ok {
                ApplyStep::Done
            } else {
                ApplyStep::Failed(UpdateError::RelaunchFailed)
            },
            ApplyStep::Done => ApplyStep::Done,
            ApplyStep::Failed(e) => ApplyStep::Failed(e),
        }
    }

    /// Whether the installation has ended.
    pub fn is_finished(&self) -> (r: bool)
        ensures
            r == is_final(*self),
    {
        matches!(self, ApplyStep::Done | ApplyStep::Failed(_))
    }
}

/// What the live executable path holds.
#[derive(Clone, Copy, Debug, PartialEq, Eq, Structural)]
pub enum LiveFile {
    /// The executable that was running before the installation.
    Previous,
    /// The installed artifact.
    Installed,
    /// Nothing.
    Missing,
}

/// What the live path holds when the installation has reached `step`.
pub open spec fn live_file(step: ApplyStep) -> LiveFile {
    match step {
        ApplyStep::InstallStaged | ApplyStep::RestoreBackup => LiveFile::Missing,
        ApplyStep::RemoveStaged | ApplyStep::Relaunch | ApplyStep::Done => LiveFile::Installed,
        ApplyStep::Failed(UpdateError::RestoreFailed) => LiveFile::Missing,
        ApplyStep::Failed(UpdateError::RelaunchFailed) => LiveFile::Installed,
        _ => LiveFile::Previous,
    }
}

/// What performing `step` with outcome `ok` does to the live path: removing
/// empties it, installing puts the artifact there, restoring puts back the
/// backup of the previous executable; nothing else touches it.
pub open spec fn after_effect(step: ApplyStep, ok: bool, before: LiveFile) -> LiveFile {
    if !ok {
        before
    } else {
        match step {
            ApplyStep::RemoveLive => LiveFile::Missing,
            ApplyStep::InstallStaged => LiveFile::Installed,
            ApplyStep::RestoreBackup => LiveFile::Previous,
            _ => before,
        }
    }
}

/// Every transition agrees with the effect of the step it performs, so
/// `live_file` is what the live path holds along any run.
pub proof fn apply_tracks_live_file(step: ApplyStep, ok: bool)
    requires
        !is_final(step),
    ensures
        live_file(apply_next(step, ok)) == after_effect(step, ok, live_file(step)),
{
}

/// An installation that ends in any way other than `RestoreFailed` leaves an
/// executable at the live path: the installed one on success, the previous
/// one on every failure before the swap or after a restored swap.
pub proof fn apply_keeps_executable(step: ApplyStep)
    requires
        is_final(step),
        step != ApplyStep::Failed(UpdateError::RestoreFailed),
    ensures
        live_file(step) != LiveFile::Missing,
        step == ApplyStep::Done ==> live_file(step) == LiveFile::Installed,
        step == ApplyStep::Failed(UpdateError::SwapFailed) ==> live_file(step) == LiveFile::Previous,
        step == ApplyStep::Failed(UpdateError::BackupFailed) ==> live_file(step) == LiveFile::Previous,
{
}

/// When the backup succeeded and the copy of the new executable fails, the
/// backup is restored: a successful restore ends in `SwapFailed` with the
/// previous executable in place, a failed one in `RestoreFailed`.
pub proof fn failed_install_restores_backup()
    ensures
        apply_next(ApplyStep::BackupLive, true) == ApplyStep::RemoveLive,
        apply_next(ApplyStep::InstallStaged, false) == ApplyStep::RestoreBackup,
        apply_next(ApplyStep::RestoreBackup, true) == ApplyStep::Failed(UpdateError::SwapFailed),
        live_file(ApplyStep::Failed(UpdateError::SwapFailed)) == LiveFile::Previous,
        apply_next(ApplyStep::RestoreBackup, false) == ApplyStep::Failed(UpdateError::RestoreFailed),
{
}

} // verus!
