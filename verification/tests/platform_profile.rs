use extract_orchestrator::platform::{
    Arch, Os, arch_from_name, is_supported, os_from_name, resolve_platform_profile,
};

#[test]
fn supported_pairs_get_nonempty_bundle_ids() {
    let cases = [
        (Os::Windows, Arch::X86_64, "jre-windows-x64"),
        (Os::Macos, Arch::X86_64, "jre-macos-x64"),
        (Os::Macos, Arch::Arm64, "jre-macos-arm64"),
        (Os::Linux, Arch::X86_64, "jre-linux-x64"),
        (Os::Linux, Arch::Arm64, "jre-linux-arm64"),
    ];
    for (os, arch, expected) in cases {
        let p = resolve_platform_profile(os, arch);
        assert!(is_supported(os, arch));
        let id = p.runtime_bundle_id.expect("supported pair must have a bundle id");
        assert!(!id.is_empty());
        assert_eq!(id, expected);
    }
}

#[test]
fn unsupported_pairs_get_no_bundle_id() {
    let cases = [
        (Os::Windows, Arch::Arm64),
        (Os::Windows, Arch::Other),
        (Os::Macos, Arch::Other),
        (Os::Linux, Arch::Other),
        (Os::Android, Arch::Arm64),
        (Os::Android, Arch::X86_64),
        (Os::Unsupported, Arch::X86_64),
        (Os::Unsupported, Arch::Other),
    ];
    for (os, arch) in cases {
        let p = resolve_platform_profile(os, arch);
        assert!(!is_supported(os, arch));
        assert!(p.runtime_bundle_id.is_none());
    }
}

#[test]
fn executable_name_follows_platform_convention() {
    assert_eq!(resolve_platform_profile(Os::Windows, Arch::X86_64).executable_name, "java.exe");
    assert_eq!(resolve_platform_profile(Os::Linux, Arch::X86_64).executable_name, "java");
    assert_eq!(resolve_platform_profile(Os::Macos, Arch::Arm64).executable_name, "java");
}

#[test]
fn os_names_map_to_known_systems() {
    assert_eq!(os_from_name("windows"), Os::Windows);
    assert_eq!(os_from_name("macos"), Os::Macos);
    assert_eq!(os_from_name("linux"), Os::Linux);
    assert_eq!(os_from_name("android"), Os::Android);
    assert_eq!(os_from_name("freebsd"), Os::Unsupported);
    assert_eq!(os_from_name(""), Os::Unsupported);
}

#[test]
fn arch_names_map_to_known_architectures() {
    assert_eq!(arch_from_name("x86_64"), Arch::X86_64);
    assert_eq!(arch_from_name("aarch64"), Arch::Arm64);
    assert_eq!(arch_from_name("riscv64"), Arch::Other);
    assert_eq!(arch_from_name(""), Arch::Other);
}
