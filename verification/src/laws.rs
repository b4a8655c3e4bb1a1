//! Laws of the layout, proved once for every platform, snapshot and input.

use vstd::prelude::*;

use crate::folders::{OsEnvironment, SystemFolderId, UnknownSystemFolderError, spec_resolve};
use crate::platform::{OsKind, spec_binaries_colocated, spec_exe_suffix, spec_sep};
use crate::layout::{
    resolves_to, spec_cache_dir, spec_install_root, spec_join, spec_node_cache_dir,
    spec_node_version_bin_dir, spec_node_version_dir, spec_node_versions_dir, spec_shim_dir,
    spec_shim_file, spec_versions_dir,
};

verus! {

/// `child` lies strictly inside `parent`: it is `parent` with a separator and
/// one more segment appended, and is therefore longer than `parent`.
pub open spec fn spec_strictly_under(os: OsKind, child: Seq<char>, parent: Seq<char>) -> bool {
    &&& exists|seg: Seq<char>| child == #[trigger] spec_join(os, parent, seg)
    &&& parent.len() < child.len()
}

proof fn lemma_sep_len(os: OsKind)
    ensures
        spec_sep(os).len() == 1,
{
    reveal_strlit("\\");
    reveal_strlit("/");
}

/// For every version string, the version's install directory is a prefix of,
/// or equal to, its executable directory — and which of the two holds is
/// fixed by the platform alone, never by the version: they are equal exactly
/// on platforms whose binaries are co-located with the install directory.
pub proof fn lemma_version_dir_prefixes_version_bin_dir(
    os: OsKind,
    shared: Seq<char>,
    version: Seq<char>,
)
    ensures
        spec_node_version_dir(os, shared, version).is_prefix_of(
            spec_node_version_bin_dir(os, shared, version),
        ),
        (spec_node_version_bin_dir(os, shared, version) == spec_node_version_dir(
            os,
            shared,
            version,
        )) <==> spec_binaries_colocated(os),
{
    let d = spec_node_version_dir(os, shared, version);
    let b = spec_node_version_bin_dir(os, shared, version);
    if spec_binaries_colocated(os) {
        assert(d =~= b.subrange(0, d.len() as int));
    } else {
        lemma_sep_len(os);
        assert(b == d + spec_sep(os) + "bin"@);
        assert(d =~= b.subrange(0, d.len() as int));
        assert(b.len() > d.len());
    }
}

/// Every shim file is the shim directory joined with the tool's name plus
/// the platform's executable suffix, and so lies strictly inside the shim
/// directory.
pub proof fn lemma_shim_file_under_shim_dir(os: OsKind, install: Seq<char>, toolname: Seq<char>)
    ensures
        spec_shim_file(os, install, toolname) == spec_join(
            os,
            spec_shim_dir(os, install),
            toolname + spec_exe_suffix(os),
        ),
        spec_strictly_under(os, spec_shim_file(os, install, toolname), spec_shim_dir(os, install)),
{
    lemma_sep_len(os);
    assert(spec_shim_file(os, install, toolname) == spec_join(
        os,
        spec_shim_dir(os, install),
        toolname + spec_exe_suffix(os),
    ));
}

/// The cache tree nests strictly: the Node cache inside the cache root,
/// the cache root inside the shared-data install root.
pub proof fn lemma_cache_tree_nesting(os: OsKind, shared: Seq<char>)
    ensures
        spec_strictly_under(os, spec_node_cache_dir(os, shared), spec_cache_dir(os, shared)),
        spec_strictly_under(os, spec_cache_dir(os, shared), spec_install_root(os, shared)),
{
    lemma_sep_len(os);
    assert(spec_node_cache_dir(os, shared) == spec_join(
        os,
        spec_cache_dir(os, shared),
        "node"@,
    ));
    assert(spec_cache_dir(os, shared) == spec_join(
        os,
        spec_install_root(os, shared),
        "cache"@,
    ));
}

/// The versions tree nests strictly: a version's directory inside the Node
/// versions directory, that inside the versions root, and that inside the
/// shared-data install root.
pub proof fn lemma_versions_tree_nesting(os: OsKind, shared: Seq<char>, version: Seq<char>)
    ensures
        spec_strictly_under(
            os,
            spec_node_version_dir(os, shared, version),
            spec_node_versions_dir(os, shared),
        ),
        spec_strictly_under(os, spec_node_versions_dir(os, shared), spec_versions_dir(os, shared)),
        spec_strictly_under(os, spec_versions_dir(os, shared), spec_install_root(os, shared)),
{
    lemma_sep_len(os);
    assert(spec_node_version_dir(os, shared, version) == spec_join(
        os,
        spec_node_versions_dir(os, shared),
        version,
    ));
    assert(spec_node_versions_dir(os, shared) == spec_join(
        os,
        spec_versions_dir(os, shared),
        "node"@,
    ));
    assert(spec_versions_dir(os, shared) == spec_join(
        os,
        spec_install_root(os, shared),
        "versions"@,
    ));
}

/// Idempotence: any two outcomes a resolver can return for the same
/// platform, the same snapshot and the same location agree — the same path
/// text on success, the very same error on failure. Since every resolver's
/// contract is an instance of [`resolves_to`], two consecutive calls with no
/// intervening environment change return identical paths.
pub proof fn lemma_resolution_idempotent(
    r1: Result<String, UnknownSystemFolderError>,
    r2: Result<String, UnknownSystemFolderError>,
    env: OsEnvironment,
    id: SystemFolderId,
    path_of: spec_fn(Seq<char>) -> Seq<char>,
)
    requires
        resolves_to(r1, env, id, path_of),
        resolves_to(r2, env, id, path_of),
    ensures
        r1 matches Ok(d1) ==> (r2 matches Ok(d2) && d1@ == d2@),
        r1 is Err ==> r2 == r1,
{
}

/// Uniform failure: when the snapshot cannot supply the folder `id`, every
/// resolver that depends on `id` — whatever location it would have built —
/// fails with exactly the [`UnknownSystemFolderError`] naming `id`, and they
/// all fail with the identical error.
pub proof fn lemma_failure_uniform(
    r1: Result<String, UnknownSystemFolderError>,
    r2: Result<String, UnknownSystemFolderError>,
    env: OsEnvironment,
    id: SystemFolderId,
    path_of1: spec_fn(Seq<char>) -> Seq<char>,
    path_of2: spec_fn(Seq<char>) -> Seq<char>,
)
    requires
        resolves_to(r1, env, id, path_of1),
        resolves_to(r2, env, id, path_of2),
        spec_resolve(env, id) is None,
    ensures
        r1 == Err::<String, UnknownSystemFolderError>(UnknownSystemFolderError { name: id }),
        r1 == r2,
{
}

} // verus!
