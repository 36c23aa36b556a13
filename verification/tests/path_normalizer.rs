use extract_orchestrator::paths::normalize_windows_path;
use extract_orchestrator::platform::Os;

#[test]
fn strips_verbatim_prefix_on_windows() {
    let normalized = normalize_windows_path(Os::Windows, r"\\?\C:\Users\doc.pdf");
    assert_eq!(normalized, r"C:\Users\doc.pdf");
}

#[test]
fn strips_repeated_verbatim_prefixes_on_windows() {
    let normalized = normalize_windows_path(Os::Windows, r"\\?\\\?\C:\out.csv");
    assert_eq!(normalized, r"C:\out.csv");
}

#[test]
fn leaves_plain_windows_paths_alone() {
    let normalized = normalize_windows_path(Os::Windows, r"C:\Users\doc.pdf");
    assert_eq!(normalized, r"C:\Users\doc.pdf");
}

#[test]
fn is_idempotent_on_windows() {
    let once = normalize_windows_path(Os::Windows, r"\\?\D:\in.pdf");
    let twice = normalize_windows_path(Os::Windows, &once);
    assert_eq!(once, twice);
}

#[test]
fn is_identity_off_windows() {
    for os in [Os::Macos, Os::Linux, Os::Android, Os::Unsupported] {
        // Even a path that carries the prefix characters is left alone where
        // the extended-length convention does not exist.
        assert_eq!(normalize_windows_path(os, r"\\?\C:\x"), r"\\?\C:\x");
        assert_eq!(normalize_windows_path(os, "/tmp/doc.pdf"), "/tmp/doc.pdf");
        assert_eq!(normalize_windows_path(os, ""), "");
    }
}

#[test]
fn short_and_empty_paths_survive() {
    assert_eq!(normalize_windows_path(Os::Windows, ""), "");
    assert_eq!(normalize_windows_path(Os::Windows, r"\\?"), r"\\?");
    assert_eq!(normalize_windows_path(Os::Windows, r"\\?\"), "");
}
