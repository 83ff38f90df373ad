//! The failures of the update pipeline.

use vstd::prelude::*;

verus! {

/// Why a step of checking, downloading, installing or rolling back failed.
#[derive(Clone, Copy, Debug, PartialEq, Eq, Structural)]
pub enum UpdateError {
    /// A version string is not `[v]MAJOR.MINOR.PATCH[rN]`.
    InvalidVersionFormat,
    /// The update source could not be reached (network or TLS).
    SourceUnreachable,
    /// The manifest could not be decoded.
    ManifestDecodeError,
    /// The manifest names a latest version it holds no entry for.
    InconsistentManifest,
    /// The newest version is a test build and test builds are not allowed.
    TestVersionRejected,
    /// The updater's output held none of the expected marker lines.
    UnexpectedOutput,
    /// The updater program was found at none of its conventional paths.
    UpdaterNotFound,
    /// The downloaded artifact does not have the expected SHA-256 digest.
    ChecksumMismatch,
    /// The transfer of the artifact failed.
    DownloadFailed,
    /// No staged artifact exists for the version to install.
    StagedArtifactMissing,
    /// The running executable could not be copied to its backup.
    BackupFailed,
    /// The new executable could not be put in place; the previous one was restored.
    SwapFailed,
    /// The new executable could not be put in place and the backup could not
    /// be restored: the live executable is missing.
    RestoreFailed,
    /// The new executable is in place but could not be started.
    RelaunchFailed,
    /// No backup holding an executable exists.
    NoBackupAvailable,
}

} // verus!
