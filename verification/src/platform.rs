//! Platform targets and the names derived from them.

use vstd::prelude::*;
use vstd::string::StringExecFns;

verus! {

/// The operating system of the running host.
#[derive(Clone, Copy, Debug, PartialEq, Eq, Structural)]
pub enum Os {
    Mac,
    Linux,
    Windows,
}

/// The processor architecture of the running host.
#[derive(Clone, Copy, Debug, PartialEq, Eq, Structural)]
pub enum Architecture {
    Aarch64,
    X86,
    X8664,
}

/// The archive format in which a release asset is packed.
#[derive(Clone, Copy, Debug, PartialEq, Eq, Structural)]
pub enum ArchiveKind {
    GzipTar,
    Zip,
}

/// The name of the tool, which prefixes asset names and version directories.
pub open spec fn tool_name() -> Seq<char> {
    "crates-lsp"@
}

/// The part of an asset name that stands for the architecture.
pub open spec fn arch_token(arch: Architecture) -> Seq<char> {
    match arch {
        Architecture::Aarch64 => "aarch64"@,
        Architecture::X86 => "x86"@,
        Architecture::X8664 => "x86_64"@,
    }
}

/// The part of an asset name that stands for the operating system and the archive format.
pub open spec fn os_token(os: Os) -> Seq<char> {
    match os {
        Os::Mac => "apple-darwin.tar.gz"@,
        Os::Linux => "unknown-linux-gnu.tar.gz"@,
        Os::Windows => "pc-windows-msvc.zip"@,
    }
}

/// The asset name that the publisher gives the build for a platform:
/// tool, architecture and operating system, joined by hyphens.
pub open spec fn asset_name(os: Os, arch: Architecture) -> Seq<char> {
    tool_name() + "-"@ + arch_token(arch) + "-"@ + os_token(os)
}

/// The file name of the executable inside a version directory.
pub open spec fn binary_name(os: Os) -> Seq<char> {
    match os {
        Os::Windows => "crates-lsp.exe"@,
        Os::Mac | Os::Linux => "crates-lsp"@,
    }
}

/// The archive format of the asset published for an operating system.
pub open spec fn archive_kind(os: Os) -> ArchiveKind {
    match os {
        Os::Windows => ArchiveKind::Zip,
        Os::Mac | Os::Linux => ArchiveKind::GzipTar,
    }
}

/// The directory that holds one installed version: tool, hyphen, version.
pub open spec fn version_dir(version: Seq<char>) -> Seq<char> {
    tool_name() + "-"@ + version
}

/// The path of the executable of one installed version.
pub open spec fn binary_path(version: Seq<char>, os: Os) -> Seq<char> {
    version_dir(version) + "/"@ + binary_name(os)
}

impl Architecture {
    /// The token of this architecture in asset names.
    pub fn token(self) -> (r: &'static str)
        ensures
            r@ == arch_token(self),
    {
        match self {
            Architecture::Aarch64 => "aarch64",
            Architecture::X86 => "x86",
            Architecture::X8664 => "x86_64",
        }
    }
}

impl Os {
    /// The token of this operating system in asset names.
    pub fn token(self) -> (r: &'static str)
        ensures
            r@ == os_token(self),
    {
        match self {
            Os::Mac => "apple-darwin.tar.gz",
            Os::Linux => "unknown-linux-gnu.tar.gz",
            Os::Windows => "pc-windows-msvc.zip",
        }
    }

    /// The file name of the executable on this operating system.
    pub fn binary_name(self) -> (r: &'static str)
        ensures
            r@ == binary_name(self),
    {
        match self {
            Os::Windows => "crates-lsp.exe",
            Os::Mac | Os::Linux => "crates-lsp",
        }
    }

    /// The archive format of the asset published for this operating system.
    pub fn archive_kind(self) -> (r: ArchiveKind)
        ensures
            r == archive_kind(self),
    {
        match self {
            Os::Windows => ArchiveKind::Zip,
            Os::Mac | Os::Linux => ArchiveKind::GzipTar,
        }
    }
}

/// Builds the asset name expected for a platform.
pub fn expected_asset_name(os: Os, arch: Architecture) -> (r: String)
    ensures
        r@ == asset_name(os, arch),
{
    let mut name = String::from_str("crates-lsp");
    name.append("-");
    name.append(arch.token());
    name.append("-");
    name.append(os.token());
    name
}

/// Builds the name of the directory that holds a version.
pub fn version_dir_name(version: &str) -> (r: String)
    ensures
        r@ == version_dir(version@),
{
    let mut dir = String::from_str("crates-lsp");
    dir.append("-");
    dir.append(version);
    dir
}

/// Builds the path of the executable inside a version directory.
pub fn binary_path_in(dir: &str, os: Os) -> (r: String)
    ensures
        r@ == dir@ + "/"@ + binary_name(os),
{
    let mut path = String::from_str(dir);
    path.append("/");
    path.append(os.binary_name());
    path
}

} // verus!
