//! The release feed's vocabulary for operating systems and CPU architectures.
use vstd::prelude::*;

verus! {

/// Operating system the tool will run on.
#[derive(Clone, Copy, Debug, PartialEq, Eq, Structural)]
pub enum Os {
    Mac,
    Linux,
    Windows,
}

/// CPU architecture the tool will run on.
#[derive(Clone, Copy, Debug, PartialEq, Eq, Structural)]
pub enum Architecture {
    Aarch64,
    X8664,
    X86,
}

/// An operating system together with an architecture.
#[derive(Clone, Copy, Debug, PartialEq, Eq, Structural)]
pub struct PlatformTag {
    pub os: Os,
    pub arch: Architecture,
}

/// The feed's word for an operating system.
pub open spec fn os_token(os: Os) -> Seq<char> {
    match os {
        Os::Mac => "macos"@,
        Os::Linux => "linux"@,
        Os::Windows => "windows"@,
    }
}

/// The feed's word for an architecture. The feed names 64-bit x86 `x86_64`
/// on Mac and `amd64` everywhere else.
pub open spec fn arch_token(os: Os, arch: Architecture) -> Seq<char> {
    match arch {
        Architecture::Aarch64 => "arm64"@,
        Architecture::X8664 => if os == Os::Mac {
            "x86_64"@
        } else {
            "amd64"@
        },
        Architecture::X86 => "i386"@,
    }
}

/// Suffix of an executable's file name on the given operating system.
pub open spec fn binary_extension(os: Os) -> Seq<char> {
    match os {
        Os::Windows => ".exe"@,
        _ => ""@,
    }
}

/// Suffix of every archive the feed publishes, whatever the target system.
pub open spec fn archive_extension() -> Seq<char> {
    ".tar.gz"@
}

/// How a downloaded file is packed.
#[derive(Clone, Copy, Debug, PartialEq, Eq, Structural)]
pub enum ArchiveKind {
    Gzip,
    GzipTar,
    Zip,
    Uncompressed,
}

/// How the feed packs its assets: as gzip-compressed tarballs, for Windows
/// too.
pub open spec fn archive_kind(os: Os) -> ArchiveKind {
    ArchiveKind::GzipTar
}

impl Os {
    /// The feed's word for this operating system.
    pub fn token(self) -> (r: &'static str)
        ensures
            r@ == os_token(self),
    {
        match self {
            Os::Mac => "macos",
            Os::Linux => "linux",
            Os::Windows => "windows",
        }
    }

    /// How the feed packs the assets for this operating system.
    pub fn archive_kind(self) -> (r: ArchiveKind)
        ensures
            r == archive_kind(self),
    {
        ArchiveKind::GzipTar
    }

    /// Suffix of an executable's file name on this operating system.
    pub fn binary_extension(self) -> (r: &'static str)
        ensures
            r@ == binary_extension(self),
    {
        match self {
            Os::Windows => ".exe",
            _ => "",
        }
    }
}

impl PlatformTag {
    pub fn new(os: Os, arch: Architecture) -> (r: PlatformTag)
        ensures
            r.os == os,
            r.arch == arch,
    {
        PlatformTag { os, arch }
    }

    /// The feed's word for this platform's operating system.
    pub fn os_token(&self) -> (r: &'static str)
        ensures
            r@ == os_token(self.os),
    {
        self.os.token()
    }

    /// The feed's word for this platform's architecture.
    pub fn arch_token(&self) -> (r: &'static str)
        ensures
            r@ == arch_token(self.os, self.arch),
    {
        match self.arch {
            Architecture::Aarch64 => "arm64",
            Architecture::X8664 => match self.os {
                Os::Mac => "x86_64",
                _ => "amd64",
            },
            Architecture::X86 => "i386",
        }
    }
}

/// Suffix of every archive the feed publishes.
pub fn archive_suffix() -> (r: &'static str)
    ensures
        r@ == archive_extension(),
{
    ".tar.gz"
}

/// The two spellings of 64-bit x86 are distinct, and only Mac uses `x86_64`.
pub proof fn lemma_x86_64_spelling(os: Os)
    ensures
        arch_token(os, Architecture::X8664) == "x86_64"@ <==> os == Os::Mac,
        arch_token(os, Architecture::X8664) == "amd64"@ <==> os != Os::Mac,
{
    reveal_strlit("x86_64");
    reveal_strlit("amd64");
    assert("x86_64"@.len() != "amd64"@.len());
}

} // verus!
