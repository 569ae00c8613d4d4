use vstd::prelude::*;
use vstd::string::StringExecFns;
use zed_extension_api as zed;

verus! {

/// The host operating system.
#[derive(Clone, Copy, Debug, PartialEq, Eq, Structural)]
pub enum Os {
    Mac,
    Linux,
    Windows,
}

/// The host processor architecture.
#[derive(Clone, Copy, Debug, PartialEq, Eq, Structural)]
pub enum Architecture {
    Aarch64,
    X86,
    X8664,
}

/// How a downloaded release archive is unpacked.
#[derive(Clone, Copy, Debug, PartialEq, Eq, Structural)]
pub enum ArchiveFormat {
    GzipTar,
    Zip,
}

/// The naming tokens that identify the release asset for one platform.
pub struct PlatformTokens {
    pub os_token: String,
    pub arch_token: String,
    pub archive_ext: String,
    pub format: ArchiveFormat,
}

pub open spec fn os_token_of(os: Os) -> Seq<char> {
    match os {
        Os::Mac => "Darwin"@,
        Os::Linux => "Linux"@,
        Os::Windows => "Windows"@,
    }
}

pub open spec fn arch_token_of(arch: Architecture) -> Seq<char> {
    match arch {
        Architecture::Aarch64 => "arm64"@,
        Architecture::X86 => "i386"@,
        Architecture::X8664 => "x86_64"@,
    }
}

pub open spec fn archive_ext_of(os: Os) -> Seq<char> {
    match os {
        Os::Mac | Os::Linux => "tar.gz"@,
        Os::Windows => "zip"@,
    }
}

pub open spec fn archive_format_of(os: Os) -> ArchiveFormat {
    match os {
        Os::Mac | Os::Linux => ArchiveFormat::GzipTar,
        Os::Windows => ArchiveFormat::Zip,
    }
}

impl PlatformTokens {
    /// The tokens are exactly those of the mapping table for `os` and `arch`.
    pub open spec fn describes(&self, os: Os, arch: Architecture) -> bool {
        &&& self.os_token@ == os_token_of(os)
        &&& self.arch_token@ == arch_token_of(arch)
        &&& self.archive_ext@ == archive_ext_of(os)
        &&& self.format == archive_format_of(os)
    }
}

/// Maps a platform to its asset-naming tokens and archive format.
pub fn platform_tokens(os: Os, arch: Architecture) -> (r: PlatformTokens)
    ensures
        r.describes(os, arch),
{
    let os_token = match os {
        Os::Mac => String::from_str("Darwin"),
        Os::Linux => String::from_str("Linux"),
        Os::Windows => String::from_str("Windows"),
    };
    let arch_token = match arch {
        Architecture::Aarch64 => String::from_str("arm64"),
        Architecture::X86 => String::from_str("i386"),
        Architecture::X8664 => String::from_str("x86_64"),
    };
    let (archive_ext, format) = match os {
        Os::Mac | Os::Linux => (String::from_str("tar.gz"), ArchiveFormat::GzipTar),
        Os::Windows => (String::from_str("zip"), ArchiveFormat::Zip),
    };
    PlatformTokens { os_token, arch_token, archive_ext, format }
}

/// Relies on zed_extension_api::current_platform, which asks the editor for
/// the host platform. The answer depends on the machine, so nothing is stated
/// of it beyond its type.
#[verifier::external_body]
pub(crate) fn host_platform() -> (r: (Os, Architecture)) {
    let (os, arch) = zed::current_platform();
    let os = match os {
        zed::Os::Mac => Os::Mac,
        zed::Os::Linux => Os::Linux,
        zed::Os::Windows => Os::Windows,
    };
    let arch = match arch {
        zed::Architecture::Aarch64 => Architecture::Aarch64,
        zed::Architecture::X86 => Architecture::X86,
        zed::Architecture::X8664 => Architecture::X8664,
    };
    (os, arch)
}

} // verus!
