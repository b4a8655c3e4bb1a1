//! The build-target platform: operating-system family and CPU architecture.
//!
//! Both are closed enumerations. Archive file names and extensions are baked
//! into download URLs, so an unsupported architecture must be impossible to
//! express rather than silently mapped to a wrong tag: a `Platform` value can
//! only be built from the variants below, and it is threaded explicitly into
//! every function that needs it instead of being read from ambient build
//! configuration.

use vstd::prelude::*;

verus! {

/// Operating-system family of a build target.
#[derive(Clone, Copy, Debug, PartialEq, Eq, Structural)]
pub enum OsKind {
    Windows,
    Linux,
    MacOs,
}

/// CPU architecture of a build target. The set is closed: only these
/// architectures have published toolchain archives.
#[derive(Clone, Copy, Debug, PartialEq, Eq, Structural)]
pub enum ArchKind {
    X86,
    X64,
}

/// A build target: one operating-system family together with one
/// architecture, fixed once per build and passed explicitly.
#[derive(Clone, Copy, Debug, PartialEq, Eq, Structural)]
pub struct Platform {
    pub os: OsKind,
    pub arch: ArchKind,
}

/// The path-segment separator of an operating-system family.
pub open spec fn spec_sep(os: OsKind) -> Seq<char> {
    if os == OsKind::Windows {
        "\\"@
    } else {
        "/"@
    }
}

/// The executable-file suffix of an operating-system family: `.exe` on
/// Windows, nothing on Unix-like systems.
pub open spec fn spec_exe_suffix(os: OsKind) -> Seq<char> {
    if os == OsKind::Windows {
        ".exe"@
    } else {
        ""@
    }
}

/// The archive format used for toolchain downloads on this family.
pub open spec fn spec_archive_extension(os: OsKind) -> Seq<char> {
    if os == OsKind::Windows {
        "zip"@
    } else {
        "tar.gz"@
    }
}

/// Whether an installed version's executables live directly in its install
/// directory (Windows) or in a nested `bin` subdirectory (Unix-like).
pub open spec fn spec_binaries_colocated(os: OsKind) -> bool {
    os == OsKind::Windows
}

/// The operating-system tag used in archive file names.
pub open spec fn spec_os_tag(os: OsKind) -> Seq<char> {
    match os {
        OsKind::Windows => "win"@,
        OsKind::Linux => "linux"@,
        OsKind::MacOs => "darwin"@,
    }
}

/// The architecture tag used in archive file names.
pub open spec fn spec_arch_tag(arch: ArchKind) -> Seq<char> {
    match arch {
        ArchKind::X86 => "x86"@,
        ArchKind::X64 => "x64"@,
    }
}

impl Platform {
    /// The path-segment separator of this platform.
    pub fn separator(&self) -> (r: &'static str)
        ensures
            r@ == spec_sep(self.os),
    {
        match self.os {
            OsKind::Windows => "\\",
            OsKind::Linux => "/",
            OsKind::MacOs => "/",
        }
    }

    /// The executable-file suffix of this platform.
    pub fn exe_suffix(&self) -> (r: &'static str)
        ensures
            r@ == spec_exe_suffix(self.os),
    {
        match self.os {
            OsKind::Windows => ".exe",
            OsKind::Linux => "",
            OsKind::MacOs => "",
        }
    }

    /// The operating-system tag used in archive file names.
    pub fn os_tag(&self) -> (r: &'static str)
        ensures
            r@ == spec_os_tag(self.os),
    {
        match self.os {
            OsKind::Windows => "win",
            OsKind::Linux => "linux",
            OsKind::MacOs => "darwin",
        }
    }

    /// The architecture tag used in archive file names.
    pub fn arch_tag(&self) -> (r: &'static str)
        ensures
            r@ == spec_arch_tag(self.arch),
    {
        match self.arch {
            ArchKind::X86 => "x86",
            ArchKind::X64 => "x64",
        }
    }

    /// Whether executables of an installed version are co-located with its
    /// install directory rather than nested under `bin`.
    pub fn binaries_colocated(&self) -> (r: bool)
        ensures
            r == spec_binaries_colocated(self.os),
    {
        match self.os {
            OsKind::Windows => true,
            OsKind::Linux => false,
            OsKind::MacOs => false,
        }
    }
}

/// The file extension of downloaded toolchain archives for `platform`:
/// `zip` on Windows, `tar.gz` on Unix-like systems. A pure platform
/// constant with no failure mode.
pub fn archive_extension(platform: &Platform) -> (r: String)
    ensures
        r@ == spec_archive_extension(platform.os),
{
    match platform.os {
        OsKind::Windows => "zip".to_owned(),
        OsKind::Linux => "tar.gz".to_owned(),
        OsKind::MacOs => "tar.gz".to_owned(),
    }
}

} // verus!
