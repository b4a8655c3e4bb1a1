//! Canonical filesystem locations for a Node.js toolchain manager.
//!
//! This crate is the location-resolver layer beneath the installer, the shim
//! dispatcher and the configuration loader: pure functions that compute where
//! the download cache, the installed version trees, the shim executables and
//! the user configuration files live on the host. It never creates
//! directories, never touches the paths it returns, and never caches a
//! resolved root.
//!
//! Every location is derived from one of three OS special folders (a
//! machine-wide shared-data root, a machine-wide program-installation root,
//! and a per-user local-data root), queried by the caller and handed in as an
//! [`folders::OsEnvironment`] snapshot, together with an explicit
//! [`platform::Platform`] that fixes the per-target layout choices.

pub mod folders;
pub mod laws;
pub mod layout;
pub mod platform;
