use extract_orchestrator::extract::{
    ExtractionFailure, ExtractionRequest, ProcessOutcome, conclude_extraction, plan_extraction,
};
use extract_orchestrator::invoker::build_invocation;
use extract_orchestrator::locator::{Origin, locate_runtime};
use extract_orchestrator::platform::{Arch, Os, resolve_platform_profile};

fn linux_request() -> ExtractionRequest {
    ExtractionRequest {
        document_path: "/home/user/statement.pdf".to_string(),
        output_path: "/home/user/tables.csv".to_string(),
        password: None,
    }
}

#[test]
fn invocation_arguments_are_exact() {
    let p = resolve_platform_profile(Os::Linux, Arch::X86_64);
    let loc = locate_runtime(&p, "/app/resources", &vec![true]).unwrap();
    let inv = build_invocation(
        Os::Linux,
        &loc,
        "/app/resources/tool.jar",
        "/home/user/statement.pdf",
        "/home/user/tables.csv",
        &None,
    );
    assert_eq!(inv.program, "/app/resources/jre-linux-x64/bin/java");
    assert!(!inv.suppress_console);
    assert_eq!(
        inv.args,
        vec![
            "-jar".to_string(),
            "/app/resources/tool.jar".to_string(),
            "/home/user/statement.pdf".to_string(),
            "--format=CSV".to_string(),
            "--outfile".to_string(),
            "/home/user/tables.csv".to_string(),
            "--pages".to_string(),
            "all".to_string(),
        ]
    );
}

#[test]
fn password_appends_two_arguments_and_stays_out_of_diagnostics() {
    let p = resolve_platform_profile(Os::Linux, Arch::X86_64);
    let loc = locate_runtime(&p, "/app/resources", &vec![true]).unwrap();
    let inv = build_invocation(
        Os::Linux,
        &loc,
        "/app/resources/tool.jar",
        "/in.pdf",
        "/out.csv",
        &Some("s3cret".to_string()),
    );
    assert_eq!(inv.args.len(), 10);
    assert_eq!(inv.args[8], "--password");
    assert_eq!(inv.args[9], "s3cret");
}

#[test]
fn invocation_normalizes_all_three_paths_on_windows() {
    let p = resolve_platform_profile(Os::Windows, Arch::X86_64);
    let loc = locate_runtime(&p, r"C:\app", &vec![true]).unwrap();
    let inv = build_invocation(
        Os::Windows,
        &loc,
        r"\\?\C:\app\tool.jar",
        r"\\?\C:\in.pdf",
        r"\\?\C:\out.csv",
        &None,
    );
    assert_eq!(inv.args[1], r"C:\app\tool.jar");
    assert_eq!(inv.args[2], r"C:\in.pdf");
    assert_eq!(inv.args[5], r"C:\out.csv");
    assert!(inv.suppress_console);
}

#[test]
fn unsupported_platform_fails_before_any_probe() {
    let p = resolve_platform_profile(Os::Windows, Arch::Arm64);
    let r = plan_extraction(&p, "windows", "arm64", "/app/resources", "/app/resources/tool.jar", &linux_request(), &vec![]);
    match r {
        Err(ExtractionFailure::UnsupportedPlatform { os_name, arch_name }) => {
            assert_eq!(os_name, "windows");
            assert_eq!(arch_name, "arm64");
        }
        _ => panic!("an unsupported platform must fail fast"),
    }
}

#[test]
fn zero_exit_reports_success_with_given_output_path() {
    let p = resolve_platform_profile(Os::Linux, Arch::X86_64);
    let plan = plan_extraction(
        &p,
        "linux",
        "x86_64",
        "/app/resources",
        "/app/resources/tool.jar",
        &linux_request(),
        &vec![true],
    )
    .unwrap();
    let r = conclude_extraction(
        plan,
        ProcessOutcome::Exited {
            exit_zero: true,
            stdout: "3 tables found".to_string(),
            stderr: String::new(),
        },
    );
    assert_eq!(r.unwrap(), "/home/user/tables.csv");
}

#[test]
fn nonzero_exit_reports_tool_error_with_captured_streams() {
    let p = resolve_platform_profile(Os::Linux, Arch::X86_64);
    let plan = plan_extraction(
        &p,
        "linux",
        "x86_64",
        "/app/resources",
        "/app/resources/tool.jar",
        &linux_request(),
        &vec![true],
    )
    .unwrap();
    let r = conclude_extraction(
        plan,
        ProcessOutcome::Exited {
            exit_zero: false,
            stdout: "reading document".to_string(),
            stderr: "password incorrect".to_string(),
        },
    );
    match r {
        Err(ExtractionFailure::ToolReportedError { origin, stdout, stderr }) => {
            assert_eq!(origin, Origin::Bundled);
            assert_eq!(stdout, "reading document");
            assert_eq!(stderr, "password incorrect");
        }
        _ => panic!("a non-zero exit must be a tool-reported error"),
    }
}

#[test]
fn spawn_failure_lists_every_probed_bundled_path() {
    let p = resolve_platform_profile(Os::Macos, Arch::Arm64);
    let plan = plan_extraction(
        &p,
        "macos",
        "aarch64",
        "/app/resources",
        "/app/resources/tool.jar",
        &linux_request(),
        &vec![false, false],
    )
    .unwrap();
    assert_eq!(plan.location.origin, Origin::SystemFallback);
    let r = conclude_extraction(
        plan,
        ProcessOutcome::SpawnFailed {
            not_found: true,
            os_error: "No such file or directory".to_string(),
        },
    );
    match r {
        Err(ExtractionFailure::RuntimeUnavailable {
            origin,
            tried_executable,
            probed_candidates,
            jre_bundle_path,
            artifact_path,
            runtime_missing,
            os_error,
        }) => {
            assert_eq!(origin, Origin::SystemFallback);
            assert_eq!(tried_executable, "java");
            assert_eq!(
                probed_candidates,
                vec![
                    "/app/resources/jre-macos-arm64/bin/java".to_string(),
                    "/app/resources/jre-macos-arm64/Contents/Home/bin/java".to_string(),
                ]
            );
            assert_eq!(jre_bundle_path, "/app/resources/jre-macos-arm64");
            assert_eq!(artifact_path, "/app/resources/tool.jar");
            assert!(runtime_missing);
            assert_eq!(os_error, "No such file or directory");
        }
        _ => panic!("a spawn failure must be a runtime-availability failure"),
    }
}

#[test]
fn end_to_end_linux_x86_64_scenario() {
    let os = extract_orchestrator::platform::os_from_name("linux");
    let arch = extract_orchestrator::platform::arch_from_name("x86_64");
    let profile = resolve_platform_profile(os, arch);
    assert_eq!(profile.runtime_bundle_id.as_deref(), Some("jre-linux-x64"));

    let root = "/opt/app/resources";
    let cands = extract_orchestrator::locator::candidate_executables(&profile, root);
    assert_eq!(cands, vec!["/opt/app/resources/jre-linux-x64/bin/java".to_string()]);

    // The executable exists at `<root>/<bundle>/bin/<name>`.
    let request = ExtractionRequest {
        document_path: "/data/report.pdf".to_string(),
        output_path: "/data/report.csv".to_string(),
        password: None,
    };
    let plan = plan_extraction(
        &profile,
        "linux",
        "x86_64",
        root,
        "/opt/app/resources/tool.jar",
        &request,
        &vec![true],
    )
    .unwrap();
    assert_eq!(plan.location.origin, Origin::Bundled);
    assert_eq!(plan.invocation.program, "/opt/app/resources/jre-linux-x64/bin/java");
    assert_eq!(
        plan.invocation.args,
        vec![
            "-jar".to_string(),
            "/opt/app/resources/tool.jar".to_string(),
            "/data/report.pdf".to_string(),
            "--format=CSV".to_string(),
            "--outfile".to_string(),
            "/data/report.csv".to_string(),
            "--pages".to_string(),
            "all".to_string(),
        ]
    );

    let r = conclude_extraction(
        plan,
        ProcessOutcome::Exited { exit_zero: true, stdout: String::new(), stderr: String::new() },
    );
    assert_eq!(r.unwrap(), "/data/report.csv");
}
