//! The platforms for which a server binary is published, and how the raw
//! facts reported by the host map onto them.

use vstd::prelude::*;
use crate::text::same_text;

verus! {

/// Processor architecture of a published binary.
#[allow(non_camel_case_types)]
#[derive(Clone, Copy, Debug, PartialEq, Eq, Structural)]
pub enum Arch {
    X86_64,
    Aarch64,
}

/// Operating system of a published binary.
#[derive(Clone, Copy, Debug, PartialEq, Eq, Structural)]
pub enum Os {
    Linux,
    Macos,
    Windows,
}

/// A recognized (architecture, operating system) pair.
#[derive(Clone, Copy, Debug, PartialEq, Eq, Structural)]
pub struct PlatformKey {
    pub arch: Arch,
    pub os: Os,
}

/// The host reported an architecture or an operating system for which no
/// binary is published, or reported none at all.
#[derive(Clone, Copy, Debug, PartialEq, Eq, Structural)]
pub struct UnsupportedPlatform;

/// The architecture a raw tag names, if it names one.
pub open spec fn spec_arch(raw: Seq<char>) -> Option<Arch> {
    if raw == "x86_64"@ {
        Some(Arch::X86_64)
    } else if raw == "aarch64"@ {
        Some(Arch::Aarch64)
    } else {
        None
    }
}

/// The operating system a raw tag names, if it names one.
pub open spec fn spec_os(raw: Seq<char>) -> Option<Os> {
    if raw == "linux"@ {
        Some(Os::Linux)
    } else if raw == "macos"@ {
        Some(Os::Macos)
    } else if raw == "windows"@ {
        Some(Os::Windows)
    } else {
        None
    }
}

/// A platform is recognized exactly when both of its tags are.
pub open spec fn spec_resolve(raw_arch: Seq<char>, raw_os: Seq<char>) -> Result<
    PlatformKey,
    UnsupportedPlatform,
> {
    match (spec_arch(raw_arch), spec_os(raw_os)) {
        (Some(arch), Some(os)) => Ok(PlatformKey { arch, os }),
        _ => Err(UnsupportedPlatform),
    }
}

/// The lookup command that finds a binary on the search path of the host:
/// `where` on Windows, `which` everywhere else, also where the operating
/// system is unknown.
pub open spec fn spec_probe_program(raw_os: Seq<char>) -> Seq<char> {
    if raw_os == "windows"@ {
        "where"@
    } else {
        "which"@
    }
}

impl Arch {
    /// The architecture part of an artifact name.
    pub open spec fn spec_tag(self) -> Seq<char> {
        match self {
            Arch::X86_64 => "x86_64"@,
            Arch::Aarch64 => "aarch64"@,
        }
    }

    pub fn tag(&self) -> (r: &'static str)
        ensures
            r@ == self.spec_tag(),
    {
        match self {
            Arch::X86_64 => "x86_64",
            Arch::Aarch64 => "aarch64",
        }
    }

    /// Reads a raw architecture tag.
    pub fn parse(raw: &str) -> (r: Option<Arch>)
        ensures
            r == spec_arch(raw@),
    {
        if same_text(raw, "x86_64") {
            Some(Arch::X86_64)
        } else if same_text(raw, "aarch64") {
            Some(Arch::Aarch64)
        } else {
            None
        }
    }
}

impl Os {
    /// The target-triple part of an artifact name.
    pub open spec fn spec_triple(self) -> Seq<char> {
        match self {
            Os::Linux => "unknown-linux-gnu"@,
            Os::Macos => "apple-darwin"@,
            Os::Windows => "pc-windows-msvc"@,
        }
    }

    /// Whether a file must be marked executable before it can be run.
    pub open spec fn spec_needs_executable_bit(self) -> bool {
        self != Os::Windows
    }

    pub fn triple(&self) -> (r: &'static str)
        ensures
            r@ == self.spec_triple(),
    {
        match self {
            Os::Linux => "unknown-linux-gnu",
            Os::Macos => "apple-darwin",
            Os::Windows => "pc-windows-msvc",
        }
    }

    pub fn needs_executable_bit(&self) -> (r: bool)
        ensures
            r == self.spec_needs_executable_bit(),
    {
        match self {
            Os::Windows => false,
            _ => true,
        }
    }

    /// Reads a raw operating-system tag.
    pub fn parse(raw: &str) -> (r: Option<Os>)
        ensures
            r == spec_os(raw@),
    {
        if same_text(raw, "linux") {
            Some(Os::Linux)
        } else if same_text(raw, "macos") {
            Some(Os::Macos)
        } else if same_text(raw, "windows") {
            Some(Os::Windows)
        } else {
            None
        }
    }
}

/// Maps the raw facts of the host to a platform key. Anything but the
/// published tags is refused; there is no default.
pub fn resolve(raw_arch: &str, raw_os: &str) -> (r: Result<PlatformKey, UnsupportedPlatform>)
    ensures
        r == spec_resolve(raw_arch@, raw_os@),
        r is Ok <==> (raw_arch@ == "x86_64"@ || raw_arch@ == "aarch64"@) && (raw_os@ == "linux"@
            || raw_os@ == "macos"@ || raw_os@ == "windows"@),
{
    match Arch::parse(raw_arch) {
        Some(arch) => match Os::parse(raw_os) {
            Some(os) => Ok(PlatformKey { arch, os }),
            None => Err(UnsupportedPlatform),
        },
        None => Err(UnsupportedPlatform),
    }
}

/// The program the host runs to look an override path up.
pub fn probe_program(raw_os: &str) -> (r: &'static str)
    ensures
        r@ == spec_probe_program(raw_os@),
{
    if same_text(raw_os, "windows") {
        "where"
    } else {
        "which"
    }
}

} // verus!
