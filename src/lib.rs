//! Builds the update manifests that a desktop application's updater reads:
//! the per-platform download table, the filtered release notes, and the
//! decision of which manifest files a release produces.

pub mod text;
pub mod notes;
pub mod platform;
pub mod manifest;
