//! Platform profile resolution: maps the host's reported operating system and
//! CPU architecture to a runtime-bundle identifier and an executable-name
//! convention. A combination outside the supported set yields no bundle
//! identifier, so callers fail fast instead of guessing.

use vstd::prelude::*;

verus! {

/// Operating systems the backend distinguishes.
#[derive(Clone, Copy, Debug, PartialEq, Eq, Structural)]
pub enum Os {
    Windows,
    Macos,
    Linux,
    Android,
    Unsupported,
}

/// CPU architectures the backend distinguishes.
#[derive(Clone, Copy, Debug, PartialEq, Eq, Structural)]
pub enum Arch {
    X86_64,
    Arm64,
    Other,
}

/// The (os, arch) combinations for which a runtime bundle is shipped.
pub open spec fn supported(os: Os, arch: Arch) -> bool {
    ||| os is Windows && arch is X86_64
    ||| os is Macos && (arch is X86_64 || arch is Arm64)
    ||| os is Linux && (arch is X86_64 || arch is Arm64)
}

/// Folder name of the runtime bundle shipped for a supported combination.
pub open spec fn spec_bundle_id(os: Os, arch: Arch) -> Seq<char> {
    if os is Windows {
        "jre-windows-x64"@
    } else if os is Macos && arch is X86_64 {
        "jre-macos-x64"@
    } else if os is Macos && arch is Arm64 {
        "jre-macos-arm64"@
    } else if os is Linux && arch is X86_64 {
        "jre-linux-x64"@
    } else {
        "jre-linux-arm64"@
    }
}

/// Name of the runtime executable inside a bundle's `bin` folder.
pub open spec fn spec_executable_name(os: Os) -> Seq<char> {
    if os is Windows {
        "java.exe"@
    } else {
        "java"@
    }
}

/// How the host names each operating system the backend knows.
pub open spec fn spec_os_from_name(name: Seq<char>) -> Os {
    if name == "windows"@ {
        Os::Windows
    } else if name == "macos"@ {
        Os::Macos
    } else if name == "linux"@ {
        Os::Linux
    } else if name == "android"@ {
        Os::Android
    } else {
        Os::Unsupported
    }
}

/// How the host names each CPU architecture the backend knows.
pub open spec fn spec_arch_from_name(name: Seq<char>) -> Arch {
    if name == "x86_64"@ {
        Arch::X86_64
    } else if name == "aarch64"@ {
        Arch::Arm64
    } else {
        Arch::Other
    }
}

/// Everything the locator and invoker need to know about the host platform,
/// computed once per extraction call and threaded through as data.
pub struct PlatformProfile {
    pub os: Os,
    pub arch: Arch,
    /// `Some` exactly for supported combinations; no identifier is guessed
    /// for an unsupported host.
    pub runtime_bundle_id: Option<String>,
    pub executable_name: String,
}

impl PlatformProfile {
    /// A profile is well formed when its bundle identifier exists exactly for
    /// supported combinations and both strings follow the conventions above.
    pub open spec fn wf(self) -> bool {
        &&& (self.runtime_bundle_id is Some <==> supported(self.os, self.arch))
        &&& (self.runtime_bundle_id matches Some(id) ==> id@ == spec_bundle_id(self.os, self.arch))
        &&& self.executable_name@ == spec_executable_name(self.os)
    }
}

/// Maps the host's operating-system name to the backend's own enumeration.
pub fn os_from_name(name: &str) -> (os: Os)
    ensures
        os == spec_os_from_name(name@),
{
    let n = name.to_owned();
    if n == String::from_str("windows") {
        Os::Windows
    } else if n == String::from_str("macos") {
        Os::Macos
    } else if n == String::from_str("linux") {
        Os::Linux
    } else if n == String::from_str("android") {
        Os::Android
    } else {
        Os::Unsupported
    }
}

/// Maps the host's architecture name to the backend's own enumeration.
pub fn arch_from_name(name: &str) -> (arch: Arch)
    ensures
        arch == spec_arch_from_name(name@),
{
    let n = name.to_owned();
    if n == String::from_str("x86_64") {
        Arch::X86_64
    } else if n == String::from_str("aarch64") {
        Arch::Arm64
    } else {
        Arch::Other
    }
}

/// Decides whether a runtime bundle is shipped for the combination.
pub fn is_supported(os: Os, arch: Arch) -> (r: bool)
    ensures
        r == supported(os, arch),
{
    match (os, arch) {
        (Os::Windows, Arch::X86_64) => true,
        (Os::Macos, Arch::X86_64) => true,
        (Os::Macos, Arch::Arm64) => true,
        (Os::Linux, Arch::X86_64) => true,
        (Os::Linux, Arch::Arm64) => true,
        _ => false,
    }
}

/// Pure resolver: derives the profile for a reported (os, arch) pair.
/// Supported pairs get the bundle identifier and executable name of their
/// shipped runtime; every other pair gets no bundle identifier at all.
pub fn resolve_platform_profile(os: Os, arch: Arch) -> (p: PlatformProfile)
    ensures
        p.os == os,
        p.arch == arch,
        p.wf(),
{
    let executable_name = if matches!(os, Os::Windows) {
        String::from_str("java.exe")
    } else {
        String::from_str("java")
    };
    let runtime_bundle_id = if !is_supported(os, arch) {
        None
    } else if matches!(os, Os::Windows) {
        Some(String::from_str("jre-windows-x64"))
    } else if matches!(os, Os::Macos) && matches!(arch, Arch::X86_64) {
        Some(String::from_str("jre-macos-x64"))
    } else if matches!(os, Os::Macos) {
        Some(String::from_str("jre-macos-arm64"))
    } else if matches!(arch, Arch::X86_64) {
        Some(String::from_str("jre-linux-x64"))
    } else {
        Some(String::from_str("jre-linux-arm64"))
    };
    PlatformProfile { os, arch, runtime_bundle_id, executable_name }
}

/// Law: every supported (os, arch) pair has a non-empty runtime-bundle
/// identifier.
pub proof fn lemma_supported_bundle_id_nonempty(os: Os, arch: Arch)
    requires
        supported(os, arch),
    ensures
        spec_bundle_id(os, arch).len() > 0,
{
    reveal_strlit("jre-windows-x64");
    reveal_strlit("jre-macos-x64");
    reveal_strlit("jre-macos-arm64");
    reveal_strlit("jre-linux-x64");
    reveal_strlit("jre-linux-arm64");
}

} // verus!
