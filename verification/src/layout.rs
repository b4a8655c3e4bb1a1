//! The directory layout: pure composition of paths from resolved roots.
//!
//! Every function here first resolves one [`SystemFolderId`] against the
//! caller's [`OsEnvironment`] snapshot, appends the tool's own namespacing
//! segment (`Notion`), and then appends fixed or parameterized segments.
//! A resolution failure propagates unchanged: the caller always sees exactly
//! which symbolic system folder was missing, never a wrapped error.
//!
//! Layering, parent before child:
//!
//! - shared-data root: `Notion` → `cache` → `node`;
//!   `Notion` → `versions` → `node` → `<version>` → (itself, or `bin`);
//!   `Notion` → launcher executables
//! - program-install root: `Notion` (the bin directory) → the tool's own
//!   executable; `Notion` → `shim` → `<toolname>` plus executable suffix
//! - per-user local-data root: `Notion` → `config.toml`; `Notion` →
//!   `catalog.toml`
//!
//! Version tags and tool names are opaque text, interpolated verbatim: this
//! layer performs no validation of path-separator or traversal characters in
//! them.

use vstd::prelude::*;
use vstd::string::StringExecFns;

use crate::folders::{OsEnvironment, SystemFolderId, UnknownSystemFolderError, spec_resolve};
use crate::platform::{OsKind, Platform, spec_binaries_colocated, spec_exe_suffix, spec_sep};

verus! {

/// `parent` joined with one more segment, using the separator of `os`.
pub open spec fn spec_join(os: OsKind, parent: Seq<char>, child: Seq<char>) -> Seq<char> {
    parent + spec_sep(os) + child
}

/// The tool's namespaced root under a resolved special folder:
/// `<folder>/Notion`.
pub open spec fn spec_install_root(os: OsKind, folder: Seq<char>) -> Seq<char> {
    spec_join(os, folder, "Notion"@)
}

/// `<shared-data>/Notion/cache`.
pub open spec fn spec_cache_dir(os: OsKind, shared: Seq<char>) -> Seq<char> {
    spec_join(os, spec_install_root(os, shared), "cache"@)
}

/// `<shared-data>/Notion/cache/node`.
pub open spec fn spec_node_cache_dir(os: OsKind, shared: Seq<char>) -> Seq<char> {
    spec_join(os, spec_cache_dir(os, shared), "node"@)
}

/// `<shared-data>/Notion/versions`.
pub open spec fn spec_versions_dir(os: OsKind, shared: Seq<char>) -> Seq<char> {
    spec_join(os, spec_install_root(os, shared), "versions"@)
}

/// `<shared-data>/Notion/versions/node`.
pub open spec fn spec_node_versions_dir(os: OsKind, shared: Seq<char>) -> Seq<char> {
    spec_join(os, spec_versions_dir(os, shared), "node"@)
}

/// `<shared-data>/Notion/versions/node/<version>`.
pub open spec fn spec_node_version_dir(os: OsKind, shared: Seq<char>, version: Seq<char>) -> Seq<
    char,
> {
    spec_join(os, spec_node_versions_dir(os, shared), version)
}

/// The directory holding an installed version's executables: the version
/// directory itself where binaries are co-located (Windows), its `bin` child
/// elsewhere. A declared per-platform divergence, fixed by `os` alone.
pub open spec fn spec_node_version_bin_dir(
    os: OsKind,
    shared: Seq<char>,
    version: Seq<char>,
) -> Seq<char> {
    if spec_binaries_colocated(os) {
        spec_node_version_dir(os, shared, version)
    } else {
        spec_join(os, spec_node_version_dir(os, shared, version), "bin"@)
    }
}

/// `<shared-data>/Notion/launchbin` plus the executable suffix.
pub open spec fn spec_launchbin_file(os: OsKind, shared: Seq<char>) -> Seq<char> {
    spec_join(os, spec_install_root(os, shared), "launchbin"@ + spec_exe_suffix(os))
}

/// `<shared-data>/Notion/launchscript` plus the executable suffix.
pub open spec fn spec_launchscript_file(os: OsKind, shared: Seq<char>) -> Seq<char> {
    spec_join(os, spec_install_root(os, shared), "launchscript"@ + spec_exe_suffix(os))
}

/// `<program-install>/Notion`: where the tool's own executables live.
pub open spec fn spec_bin_dir(os: OsKind, install: Seq<char>) -> Seq<char> {
    spec_install_root(os, install)
}

/// `<program-install>/Notion/notion` plus the executable suffix.
pub open spec fn spec_notion_file(os: OsKind, install: Seq<char>) -> Seq<char> {
    spec_join(os, spec_bin_dir(os, install), "notion"@ + spec_exe_suffix(os))
}

/// `<program-install>/Notion/shim`.
pub open spec fn spec_shim_dir(os: OsKind, install: Seq<char>) -> Seq<char> {
    spec_join(os, spec_bin_dir(os, install), "shim"@)
}

/// `<program-install>/Notion/shim/<toolname>` plus the executable suffix.
pub open spec fn spec_shim_file(os: OsKind, install: Seq<char>, toolname: Seq<char>) -> Seq<char> {
    spec_join(os, spec_shim_dir(os, install), toolname + spec_exe_suffix(os))
}

/// `<user-local-data>/Notion/config.toml`.
pub open spec fn spec_user_config_file(os: OsKind, local: Seq<char>) -> Seq<char> {
    spec_join(os, spec_install_root(os, local), "config.toml"@)
}

/// `<user-local-data>/Notion/catalog.toml`.
pub open spec fn spec_user_catalog_file(os: OsKind, local: Seq<char>) -> Seq<char> {
    spec_join(os, spec_install_root(os, local), "catalog.toml"@)
}

/// What every resolver function promises: if the snapshot supplies the folder
/// `id`, the result is `Ok` and its text is `path_of` applied to that
/// folder's path; if not, the result is exactly the
/// [`UnknownSystemFolderError`] naming `id`, unchanged and unwrapped.
pub open spec fn resolves_to(
    r: Result<String, UnknownSystemFolderError>,
    env: OsEnvironment,
    id: SystemFolderId,
    path_of: spec_fn(Seq<char>) -> Seq<char>,
) -> bool {
    match spec_resolve(env, id) {
        Some(folder) => r matches Ok(d) && d@ == path_of(folder),
        None => r == Err::<String, UnknownSystemFolderError>(
            UnknownSystemFolderError { name: id },
        ),
    }
}

/// `parent` with one more segment appended, separated by the separator of
/// `platform`.
fn join(platform: &Platform, parent: String, child: &str) -> (r: String)
    ensures
        r@ == spec_join(platform.os, parent@, child@),
{
    let mut s = parent;
    s.append(platform.separator());
    s.append(child);
    s
}

/// `base` with the executable suffix of `platform` appended.
fn suffixed(platform: &Platform, base: &str) -> (r: String)
    ensures
        r@ == base@ + spec_exe_suffix(platform.os),
{
    let mut s = base.to_owned();
    s.append(platform.exe_suffix());
    s
}

/// The tool's namespaced root under the special folder `id`: the resolved
/// folder with the single fixed segment `Notion` appended. Resolved fresh on
/// every call; never cached.
pub fn install_root(platform: &Platform, env: &OsEnvironment, id: SystemFolderId) -> (r: Result<
    String,
    UnknownSystemFolderError,
>)
    ensures
        resolves_to(r, *env, id, |folder: Seq<char>| spec_install_root(platform.os, folder)),
{
    match env.resolve(id) {
        Ok(folder) => Ok(join(platform, folder, "Notion")),
        Err(e) => Err(e),
    }
}

/// The download-cache root: `<shared-data>/Notion/cache`.
pub fn cache_dir(platform: &Platform, env: &OsEnvironment) -> (r: Result<
    String,
    UnknownSystemFolderError,
>)
    ensures
        resolves_to(
            r,
            *env,
            SystemFolderId::SharedData,
            |shared: Seq<char>| spec_cache_dir(platform.os, shared),
        ),
{
    match install_root(platform, env, SystemFolderId::SharedData) {
        Ok(root) => Ok(join(platform, root, "cache")),
        Err(e) => Err(e),
    }
}

/// The Node archive cache: `<shared-data>/Notion/cache/node`.
pub fn node_cache_dir(platform: &Platform, env: &OsEnvironment) -> (r: Result<
    String,
    UnknownSystemFolderError,
>)
    ensures
        resolves_to(
            r,
            *env,
            SystemFolderId::SharedData,
            |shared: Seq<char>| spec_node_cache_dir(platform.os, shared),
        ),
{
    match cache_dir(platform, env) {
        Ok(dir) => Ok(join(platform, dir, "node")),
        Err(e) => Err(e),
    }
}

/// The installed-versions root: `<shared-data>/Notion/versions`.
pub fn versions_dir(platform: &Platform, env: &OsEnvironment) -> (r: Result<
    String,
    UnknownSystemFolderError,
>)
    ensures
        resolves_to(
            r,
            *env,
            SystemFolderId::SharedData,
            |shared: Seq<char>| spec_versions_dir(platform.os, shared),
        ),
{
    match install_root(platform, env, SystemFolderId::SharedData) {
        Ok(root) => Ok(join(platform, root, "versions")),
        Err(e) => Err(e),
    }
}

/// The installed Node versions: `<shared-data>/Notion/versions/node`.
pub fn node_versions_dir(platform: &Platform, env: &OsEnvironment) -> (r: Result<
    String,
    UnknownSystemFolderError,
>)
    ensures
        resolves_to(
            r,
            *env,
            SystemFolderId::SharedData,
            |shared: Seq<char>| spec_node_versions_dir(platform.os, shared),
        ),
{
    match versions_dir(platform, env) {
        Ok(dir) => Ok(join(platform, dir, "node")),
        Err(e) => Err(e),
    }
}

/// One installed version's tree:
/// `<shared-data>/Notion/versions/node/<version>`. The version tag is opaque
/// text, appended verbatim.
pub fn node_version_dir(platform: &Platform, env: &OsEnvironment, version: &str) -> (r: Result<
    String,
    UnknownSystemFolderError,
>)
    ensures
        resolves_to(
            r,
            *env,
            SystemFolderId::SharedData,
            |shared: Seq<char>| spec_node_version_dir(platform.os, shared, version@),
        ),
{
    match node_versions_dir(platform, env) {
        Ok(dir) => Ok(join(platform, dir, version)),
        Err(e) => Err(e),
    }
}

/// The executables of one installed version: the version directory itself
/// where binaries are co-located (Windows), its `bin` child elsewhere.
pub fn node_version_bin_dir(platform: &Platform, env: &OsEnvironment, version: &str) -> (r: Result<
    String,
    UnknownSystemFolderError,
>)
    ensures
        resolves_to(
            r,
            *env,
            SystemFolderId::SharedData,
            |shared: Seq<char>| spec_node_version_bin_dir(platform.os, shared, version@),
        ),
{
    match node_version_dir(platform, env, version) {
        Ok(dir) => if platform.binaries_colocated() {
            Ok(dir)
        } else {
            Ok(join(platform, dir, "bin"))
        },
        Err(e) => Err(e),
    }
}

/// The launcher binary: `<shared-data>/Notion/launchbin` plus the executable
/// suffix.
pub fn launchbin_file(platform: &Platform, env: &OsEnvironment) -> (r: Result<
    String,
    UnknownSystemFolderError,
>)
    ensures
        resolves_to(
            r,
            *env,
            SystemFolderId::SharedData,
            |shared: Seq<char>| spec_launchbin_file(platform.os, shared),
        ),
{
    match install_root(platform, env, SystemFolderId::SharedData) {
        Ok(root) => {
            let file = suffixed(platform, "launchbin");
            Ok(join(platform, root, file.as_str()))
        },
        Err(e) => Err(e),
    }
}

/// The launcher script: `<shared-data>/Notion/launchscript` plus the
/// executable suffix.
pub fn launchscript_file(platform: &Platform, env: &OsEnvironment) -> (r: Result<
    String,
    UnknownSystemFolderError,
>)
    ensures
        resolves_to(
            r,
            *env,
            SystemFolderId::SharedData,
            |shared: Seq<char>| spec_launchscript_file(platform.os, shared),
        ),
{
    match install_root(platform, env, SystemFolderId::SharedData) {
        Ok(root) => {
            let file = suffixed(platform, "launchscript");
            Ok(join(platform, root, file.as_str()))
        },
        Err(e) => Err(e),
    }
}

/// Where the tool's own executables live: `<program-install>/Notion`.
pub fn bin_dir(platform: &Platform, env: &OsEnvironment) -> (r: Result<
    String,
    UnknownSystemFolderError,
>)
    ensures
        resolves_to(
            r,
            *env,
            SystemFolderId::ProgramInstall,
            |install: Seq<char>| spec_bin_dir(platform.os, install),
        ),
{
    install_root(platform, env, SystemFolderId::ProgramInstall)
}

/// The tool's own executable: `<program-install>/Notion/notion` plus the
/// executable suffix.
pub fn notion_file(platform: &Platform, env: &OsEnvironment) -> (r: Result<
    String,
    UnknownSystemFolderError,
>)
    ensures
        resolves_to(
            r,
            *env,
            SystemFolderId::ProgramInstall,
            |install: Seq<char>| spec_notion_file(platform.os, install),
        ),
{
    match bin_dir(platform, env) {
        Ok(dir) => {
            let file = suffixed(platform, "notion");
            Ok(join(platform, dir, file.as_str()))
        },
        Err(e) => Err(e),
    }
}

/// The shim directory: `<program-install>/Notion/shim`.
pub fn shim_dir(platform: &Platform, env: &OsEnvironment) -> (r: Result<
    String,
    UnknownSystemFolderError,
>)
    ensures
        resolves_to(
            r,
            *env,
            SystemFolderId::ProgramInstall,
            |install: Seq<char>| spec_shim_dir(platform.os, install),
        ),
{
    match bin_dir(platform, env) {
        Ok(dir) => Ok(join(platform, dir, "shim")),
        Err(e) => Err(e),
    }
}

/// One tool's shim: `<program-install>/Notion/shim/<toolname>` plus the
/// executable suffix. The tool name is opaque text, appended verbatim.
pub fn shim_file(platform: &Platform, env: &OsEnvironment, toolname: &str) -> (r: Result<
    String,
    UnknownSystemFolderError,
>)
    ensures
        resolves_to(
            r,
            *env,
            SystemFolderId::ProgramInstall,
            |install: Seq<char>| spec_shim_file(platform.os, install, toolname@),
        ),
{
    match shim_dir(platform, env) {
        Ok(dir) => {
            let file = suffixed(platform, toolname);
            Ok(join(platform, dir, file.as_str()))
        },
        Err(e) => Err(e),
    }
}

/// The user configuration file: `<user-local-data>/Notion/config.toml`.
pub fn user_config_file(platform: &Platform, env: &OsEnvironment) -> (r: Result<
    String,
    UnknownSystemFolderError,
>)
    ensures
        resolves_to(
            r,
            *env,
            SystemFolderId::UserLocalData,
            |local: Seq<char>| spec_user_config_file(platform.os, local),
        ),
{
    match install_root(platform, env, SystemFolderId::UserLocalData) {
        Ok(root) => Ok(join(platform, root, "config.toml")),
        Err(e) => Err(e),
    }
}

/// The user catalog file: `<user-local-data>/Notion/catalog.toml`.
pub fn user_catalog_file(platform: &Platform, env: &OsEnvironment) -> (r: Result<
    String,
    UnknownSystemFolderError,
>)
    ensures
        resolves_to(
            r,
            *env,
            SystemFolderId::UserLocalData,
            |local: Seq<char>| spec_user_catalog_file(platform.os, local),
        ),
{
    match install_root(platform, env, SystemFolderId::UserLocalData) {
        Ok(root) => Ok(join(platform, root, "catalog.toml")),
        Err(e) => Err(e),
    }
}

} // verus!
