//! Self-update pipeline of a desktop application: version model, update
//! manifests, the updater's line protocol, artifact integrity, the install
//! and rollback procedures, and the update-check policy.

pub mod text;
pub mod error;
pub mod version;
pub mod manifest;
pub mod protocol;
pub mod clock;
pub mod config;
pub mod checker;
pub mod integrity;
pub mod install;
pub mod rollback;
pub mod backup;
pub mod drives;
pub mod localization;
pub mod countdown;
