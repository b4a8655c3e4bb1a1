//! Symbolic OS special folders and their resolution.
//!
//! The host operating system keeps a registry of well-known directories
//! (shared application data, program installations, per-user local data).
//! Callers query that registry — an environment read this crate does not
//! perform itself — and pass the outcome in as an [`OsEnvironment`] snapshot.
//! [`OsEnvironment::resolve`] is then the locator every layout function
//! builds on: it either yields the folder's path or fails with an
//! [`UnknownSystemFolderError`] naming the folder that was missing.

use vstd::prelude::*;

verus! {

/// The OS special folders this layer depends on. The set is fixed: no other
/// folder is ever consulted.
#[derive(Clone, Copy, Debug, PartialEq, Eq, Structural)]
pub enum SystemFolderId {
    /// Machine-wide shared application data (`C:\ProgramData` on Windows).
    SharedData,
    /// Machine-wide program installations (`C:\Program Files` on Windows).
    ProgramInstall,
    /// Per-user local application data
    /// (`C:\Users\<user>\AppData\Local` on Windows).
    UserLocalData,
}

/// The symbolic name of a special folder, as carried in errors.
pub open spec fn spec_folder_name(id: SystemFolderId) -> Seq<char> {
    match id {
        SystemFolderId::SharedData => "SHARED_DATA"@,
        SystemFolderId::ProgramInstall => "PROGRAM_INSTALL"@,
        SystemFolderId::UserLocalData => "USER_LOCAL_DATA"@,
    }
}

impl SystemFolderId {
    /// The symbolic name of this folder, for error reports.
    pub fn name(&self) -> (r: &'static str)
        ensures
            r@ == spec_folder_name(*self),
    {
        match self {
            SystemFolderId::SharedData => "SHARED_DATA",
            SystemFolderId::ProgramInstall => "PROGRAM_INSTALL",
            SystemFolderId::UserLocalData => "USER_LOCAL_DATA",
        }
    }
}

/// The one failure this layer knows: the host could not supply a special
/// folder. It always carries the symbolic name of the folder that was
/// missing, and dependent functions pass it upward unchanged.
#[derive(Clone, Copy, Debug, PartialEq, Eq, Structural)]
pub struct UnknownSystemFolderError {
    pub name: SystemFolderId,
}

/// A snapshot of the host's special-folder registry: for each folder this
/// layer depends on, the path the OS reported, or `None` where the OS could
/// not supply it. Resolution is a pure function of such a snapshot; the
/// snapshot itself is taken fresh by the caller for every query, so no
/// resolved root is ever cached across calls.
#[derive(Clone, Debug, PartialEq, Eq)]
pub struct OsEnvironment {
    pub shared_data_root: Option<String>,
    pub program_install_root: Option<String>,
    pub user_local_data_root: Option<String>,
}

/// What resolving `id` against the snapshot `env` yields.
pub open spec fn spec_resolve(env: OsEnvironment, id: SystemFolderId) -> Option<Seq<char>> {
    match id {
        SystemFolderId::SharedData => match env.shared_data_root {
            Some(p) => Some(p@),
            None => None,
        },
        SystemFolderId::ProgramInstall => match env.program_install_root {
            Some(p) => Some(p@),
            None => None,
        },
        SystemFolderId::UserLocalData => match env.user_local_data_root {
            Some(p) => Some(p@),
            None => None,
        },
    }
}

impl OsEnvironment {
    /// Resolve one special folder: the path the OS reported, or an
    /// [`UnknownSystemFolderError`] naming `id` when the OS could not supply
    /// that folder. Read-only; no directory is created or checked.
    pub fn resolve(&self, id: SystemFolderId) -> (r: Result<String, UnknownSystemFolderError>)
        ensures
            spec_resolve(*self, id) matches Some(p) ==> r matches Ok(d) && d@ == p,
            spec_resolve(*self, id) is None ==> r == Err::<String, UnknownSystemFolderError>(
                UnknownSystemFolderError { name: id },
            ),
    {
        let folder: &Option<String> = match id {
            SystemFolderId::SharedData => &self.shared_data_root,
            SystemFolderId::ProgramInstall => &self.program_install_root,
            SystemFolderId::UserLocalData => &self.user_local_data_root,
        };
        match folder {
            Some(p) => Ok(p.clone()),
            None => Err(UnknownSystemFolderError { name: id }),
        }
    }
}

} // verus!
