//! Mapping from the host's operating system and CPU architecture to the
//! fragments of a release artifact's name.

use vstd::prelude::*;

verus! {

/// Operating systems a host can report.
#[derive(Clone, Copy, Debug, PartialEq, Eq, Structural)]
pub enum Os {
    Mac,
    Linux,
    Windows,
}

/// CPU architectures a host can report.
#[derive(Clone, Copy, Debug, PartialEq, Eq, Structural)]
pub enum Architecture {
    Aarch64,
    X86,
    X8664,
}

/// The axis on which a host has no artifact mapping.
#[derive(Clone, Copy, Debug, PartialEq, Eq, Structural)]
pub enum Unsupported {
    /// 32-bit x86.
    X86Architecture,
    /// Windows.
    WindowsOs,
}

/// Architectures for which artifacts are published.
#[derive(Clone, Copy, Debug, PartialEq, Eq, Structural)]
pub enum ArchTag {
    Aarch64,
    X8664,
}

/// Operating systems for which artifacts are published.
#[derive(Clone, Copy, Debug, PartialEq, Eq, Structural)]
pub enum OsTag {
    AppleDarwin,
    UnknownLinuxGnu,
}

/// A supported platform: the two fragments that name its artifact.
#[derive(Clone, Copy, Debug, PartialEq, Eq, Structural)]
pub struct PlatformTag {
    pub arch: ArchTag,
    pub os: OsTag,
}

/// The architecture's artifact fragment, if it has one.
pub open spec fn arch_tag_of(arch: Architecture) -> Option<ArchTag> {
    match arch {
        Architecture::Aarch64 => Some(ArchTag::Aarch64),
        Architecture::X8664 => Some(ArchTag::X8664),
        Architecture::X86 => None,
    }
}

/// The operating system's artifact fragment, if it has one.
pub open spec fn os_tag_of(os: Os) -> Option<OsTag> {
    match os {
        Os::Mac => Some(OsTag::AppleDarwin),
        Os::Linux => Some(OsTag::UnknownLinuxGnu),
        Os::Windows => None,
    }
}

/// The platform of a host. The architecture is judged first, so a host that
/// is unsupported on both axes is rejected for its architecture.
pub open spec fn platform_of(os: Os, arch: Architecture) -> Result<PlatformTag, Unsupported> {
    match arch_tag_of(arch) {
        None => Err(Unsupported::X86Architecture),
        Some(a) => match os_tag_of(os) {
            None => Err(Unsupported::WindowsOs),
            Some(o) => Ok(PlatformTag { arch: a, os: o }),
        },
    }
}

/// The text of an architecture fragment.
pub open spec fn arch_text(arch: ArchTag) -> Seq<char> {
    match arch {
        ArchTag::Aarch64 => "aarch64"@,
        ArchTag::X8664 => "x86_64"@,
    }
}

/// The text of an operating-system fragment.
pub open spec fn os_text(os: OsTag) -> Seq<char> {
    match os {
        OsTag::AppleDarwin => "apple-darwin"@,
        OsTag::UnknownLinuxGnu => "unknown-linux-gnu"@,
    }
}

impl ArchTag {
    /// The fragment as it appears in artifact names.
    pub fn as_str(&self) -> (r: &'static str)
        ensures
            r@ == arch_text(*self),
    {
        match self {
            ArchTag::Aarch64 => "aarch64",
            ArchTag::X8664 => "x86_64",
        }
    }
}

impl OsTag {
    /// The fragment as it appears in artifact names.
    pub fn as_str(&self) -> (r: &'static str)
        ensures
            r@ == os_text(*self),
    {
        match self {
            OsTag::AppleDarwin => "apple-darwin",
            OsTag::UnknownLinuxGnu => "unknown-linux-gnu",
        }
    }
}

/// Maps the host's facts to its platform, or says which axis is unsupported.
///
/// Succeeds exactly when both the architecture and the operating system have
/// a fragment.
pub fn resolve_platform(os: Os, arch: Architecture) -> (r: Result<PlatformTag, Unsupported>)
    ensures
        r == platform_of(os, arch),
        r is Ok <==> arch_tag_of(arch) is Some && os_tag_of(os) is Some,
{
    let arch_tag = match arch {
        Architecture::Aarch64 => ArchTag::Aarch64,
        Architecture::X86 => { return Err(Unsupported::X86Architecture); },
        Architecture::X8664 => ArchTag::X8664,
    };
    let os_tag = match os {
        Os::Mac => OsTag::AppleDarwin,
        Os::Linux => OsTag::UnknownLinuxGnu,
        Os::Windows => { return Err(Unsupported::WindowsOs); },
    };
    Ok(PlatformTag { arch: arch_tag, os: os_tag })
}

} // verus!
