//! Platform identification: maps an (operating system, architecture) pair to
//! the expected server binary filename and the per-platform distribution
//! package specifier.

use vstd::prelude::*;
use crate::error::ResolveError;

verus! {

/// The operating system the server will run on.
#[derive(Clone, Copy, Debug, PartialEq, Eq, Structural)]
pub enum Os {
    Mac,
    Linux,
    Windows,
}

/// The CPU architecture the server will run on. Anything outside the two
/// published builds is `Other`, which is a terminal error, never a default.
#[derive(Clone, Copy, Debug, PartialEq, Eq, Structural)]
pub enum Arch {
    Arm64,
    X64,
    Other,
}

/// An (operating system, architecture) pair, read once from the execution
/// environment at resolution time.
#[derive(Clone, Copy, Debug, PartialEq, Eq, Structural)]
pub struct PlatformTarget {
    pub os: Os,
    pub arch: Arch,
}

/// Whether a distribution package is published for this architecture.
pub open spec fn arch_supported(arch: Arch) -> bool {
    arch != Arch::Other
}

/// The operating-system segment of the distribution package name.
pub open spec fn os_segment_spec(os: Os) -> Seq<char> {
    match os {
        Os::Mac => "darwin"@,
        Os::Linux => "linux"@,
        Os::Windows => "win32"@,
    }
}

/// The architecture segment of the distribution package name; empty for an
/// unsupported architecture, which never reaches a package name.
pub open spec fn arch_segment_spec(arch: Arch) -> Seq<char> {
    match arch {
        Arch::Arm64 => "arm64"@,
        Arch::X64 => "x64"@,
        Arch::Other => Seq::<char>::empty(),
    }
}

/// The filename of the server binary inside the distribution package: the
/// bare name on Unix-likes, with the executable suffix on Windows.
pub open spec fn server_binary_name_spec(os: Os) -> Seq<char> {
    match os {
        Os::Windows => "oxc_language_server.exe"@,
        _ => "oxc_language_server"@,
    }
}

/// The distribution package specifier for a supported target:
/// `@oxlint/<os>-<arch>/<binary>`.
pub open spec fn package_specifier_spec(t: PlatformTarget) -> Seq<char> {
    "@oxlint/"@ + os_segment_spec(t.os) + "-"@ + arch_segment_spec(t.arch) + "/"@
        + server_binary_name_spec(t.os)
}

fn os_segment(os: Os) -> (r: &'static str)
    ensures
        r@ == os_segment_spec(os),
{
    match os {
        Os::Mac => "darwin",
        Os::Linux => "linux",
        Os::Windows => "win32",
    }
}

/// The filename of the server binary inside the distribution package.
pub fn server_binary_name(os: Os) -> (r: &'static str)
    ensures
        r@ == server_binary_name_spec(os),
{
    match os {
        Os::Windows => "oxc_language_server.exe",
        _ => "oxc_language_server",
    }
}

/// Derives the platform-specific distribution package specifier.
///
/// Deterministic and stable: the result is a pure function of the target.
/// Fails with `UnsupportedArchitecture`, and only with it, on any
/// architecture outside the published set; it never defaults to a guess.
pub fn package_specifier(t: PlatformTarget) -> (r: Result<String, ResolveError>)
    ensures
        r is Ok <==> arch_supported(t.arch),
        r matches Ok(s) ==> s@ == package_specifier_spec(t),
        r matches Err(e) ==> e is UnsupportedArchitecture,
{
    let arch: &'static str = match t.arch {
        Arch::Arm64 => "arm64",
        Arch::X64 => "x64",
        Arch::Other => {
            return Err(ResolveError::UnsupportedArchitecture);
        },
    };
    Ok(
        String::from_str("@oxlint/").concat(os_segment(t.os)).concat("-").concat(arch).concat(
            "/",
        ).concat(server_binary_name(t.os)),
    )
}

} // verus!
