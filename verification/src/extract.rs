//! Extraction orchestration. An extraction call is a single deterministic
//! attempt, split around its two unavoidable I/O points: `plan_extraction`
//! turns the platform profile, the probe results and the request into the
//! exact subprocess invocation (or fails fast on an unsupported platform),
//! and `conclude_extraction` classifies the subprocess outcome into success
//! or a structured failure carrying full diagnostic context. The caller
//! probes the candidate paths, spawns the planned invocation, and feeds the
//! outcome back; the library decides everything else. Both decisions are
//! pinned to the spec-level model functions `spec_plan_extraction` and
//! `spec_conclude_extraction`, over which the laws at the end are proved.
//!
//! There is deliberately no retry and no cancellation contract: an attempt is
//! judged once, and once the subprocess is spawned it is waited on to
//! completion. Retrying, bounding or aborting a run is the caller's policy
//! decision, not taken here.

use vstd::prelude::*;
use crate::invoker::{Invocation, InvocationView, build_invocation, spec_build_invocation};
use crate::locator::{
    Origin, RuntimeLocation, RuntimeLocationView, candidate_executables,
    lemma_fallback_when_none_exists, locate_runtime, spec_bundle_dir, spec_candidates,
    spec_exists_at, spec_locate_supported,
};
use crate::paths::{normalize_windows_path, spec_normalize_path};
use crate::platform::{Arch, Os, PlatformProfile, supported};

verus! {

/// What the caller asks for: a document, an output target, and an optional
/// password handed through as an opaque credential. The password appears only
/// in the invocation's argument list, never in any diagnostic.
pub struct ExtractionRequest {
    pub document_path: String,
    pub output_path: String,
    pub password: Option<String>,
}

/// Everything needed to run and later judge one extraction attempt.
pub struct ExtractionPlan {
    /// The runtime that will service this attempt.
    pub location: RuntimeLocation,
    /// The subprocess invocation to execute.
    pub invocation: Invocation,
    /// Every bundled candidate path that was probed, for diagnostics.
    pub probed_candidates: Vec<String>,
    /// The bundle directory that was expected to hold the runtime.
    pub jre_bundle_path: String,
    /// The tool artifact path, normalized, for diagnostics.
    pub artifact_path: String,
    /// The output path exactly as the caller supplied it; success reports it
    /// back unchanged.
    pub output_path: String,
}

/// Mathematical model of a plan.
#[verifier::ext_equal]
pub struct ExtractionPlanView {
    pub location: RuntimeLocationView,
    pub invocation: InvocationView,
    pub probed_candidates: Seq<Seq<char>>,
    pub jre_bundle_path: Seq<char>,
    pub artifact_path: Seq<char>,
    pub output_path: Seq<char>,
}

impl View for ExtractionPlan {
    type V = ExtractionPlanView;

    open spec fn view(&self) -> ExtractionPlanView {
        ExtractionPlanView {
            location: self.location@,
            invocation: self.invocation@,
            probed_candidates: self.probed_candidates.deep_view(),
            jre_bundle_path: self.jre_bundle_path@,
            artifact_path: self.artifact_path@,
            output_path: self.output_path@,
        }
    }
}

/// How the spawned subprocess ended, as the caller observed it.
pub enum ProcessOutcome {
    /// The process ran to completion; `exit_zero` is whether it reported
    /// success, and the standard streams are captured in full.
    Exited { exit_zero: bool, stdout: String, stderr: String },
    /// The process could not be spawned at all. `not_found` is whether the
    /// OS reported the executable missing — a locator/environment problem,
    /// not a document problem.
    SpawnFailed { not_found: bool, os_error: String },
}

/// Mathematical model of a subprocess outcome.
#[verifier::ext_equal]
pub enum ProcessOutcomeView {
    Exited { exit_zero: bool, stdout: Seq<char>, stderr: Seq<char> },
    SpawnFailed { not_found: bool, os_error: Seq<char> },
}

impl View for ProcessOutcome {
    type V = ProcessOutcomeView;

    open spec fn view(&self) -> ProcessOutcomeView {
        match self {
            ProcessOutcome::Exited { exit_zero, stdout, stderr } => ProcessOutcomeView::Exited {
                exit_zero: *exit_zero,
                stdout: stdout@,
                stderr: stderr@,
            },
            ProcessOutcome::SpawnFailed { not_found, os_error } => {
                ProcessOutcomeView::SpawnFailed { not_found: *not_found, os_error: os_error@ }
            },
        }
    }
}

/// Structured failure of one extraction attempt.
#[derive(Debug)]
pub enum ExtractionFailure {
    /// No runtime bundle is shipped for the host; the offending names are
    /// carried literally for diagnosability. Fatal and non-retryable.
    UnsupportedPlatform { os_name: String, arch_name: String },
    /// No runtime could be executed. The diagnostics pinpoint every path
    /// that was tried; `runtime_missing` distinguishes "runtime not
    /// installed" from a generic spawn failure.
    RuntimeUnavailable {
        origin: Origin,
        tried_executable: String,
        probed_candidates: Vec<String>,
        jre_bundle_path: String,
        artifact_path: String,
        runtime_missing: bool,
        os_error: String,
    },
    /// The tool ran but reported an error — a document or content problem;
    /// both captured streams are reported verbatim so the caller can correct
    /// the input and retry.
    ToolReportedError { origin: Origin, stdout: String, stderr: String },
}

/// Mathematical model of a failure.
#[verifier::ext_equal]
pub enum ExtractionFailureView {
    UnsupportedPlatform { os_name: Seq<char>, arch_name: Seq<char> },
    RuntimeUnavailable {
        origin: Origin,
        tried_executable: Seq<char>,
        probed_candidates: Seq<Seq<char>>,
        jre_bundle_path: Seq<char>,
        artifact_path: Seq<char>,
        runtime_missing: bool,
        os_error: Seq<char>,
    },
    ToolReportedError { origin: Origin, stdout: Seq<char>, stderr: Seq<char> },
}

impl View for ExtractionFailure {
    type V = ExtractionFailureView;

    open spec fn view(&self) -> ExtractionFailureView {
        match self {
            ExtractionFailure::UnsupportedPlatform { os_name, arch_name } => {
                ExtractionFailureView::UnsupportedPlatform {
                    os_name: os_name@,
                    arch_name: arch_name@,
                }
            },
            ExtractionFailure::RuntimeUnavailable {
                origin,
                tried_executable,
                probed_candidates,
                jre_bundle_path,
                artifact_path,
                runtime_missing,
                os_error,
            } => ExtractionFailureView::RuntimeUnavailable {
                origin: *origin,
                tried_executable: tried_executable@,
                probed_candidates: probed_candidates.deep_view(),
                jre_bundle_path: jre_bundle_path@,
                artifact_path: artifact_path@,
                runtime_missing: *runtime_missing,
                os_error: os_error@,
            },
            ExtractionFailure::ToolReportedError { origin, stdout, stderr } => {
                ExtractionFailureView::ToolReportedError {
                    origin: *origin,
                    stdout: stdout@,
                    stderr: stderr@,
                }
            },
        }
    }
}

/// The model value of a planning result.
pub open spec fn plan_result_view(r: Result<ExtractionPlan, ExtractionFailure>) -> Result<
    ExtractionPlanView,
    ExtractionFailureView,
> {
    match r {
        Ok(plan) => Ok(plan@),
        Err(f) => Err(f@),
    }
}

/// The model value of a finished extraction call.
pub open spec fn extraction_result_view(r: Result<String, ExtractionFailure>) -> Result<
    Seq<char>,
    ExtractionFailureView,
> {
    match r {
        Ok(out) => Ok(out@),
        Err(f) => Err(f@),
    }
}

/// Full model of planning one extraction attempt. An unsupported platform
/// fails fast, naming the offending OS and architecture literally; otherwise
/// the plan holds the located runtime, the exact invocation over the
/// normalized paths, and the diagnostic context: every bundled candidate that
/// was probed, the expected bundle directory and the normalized artifact.
pub open spec fn spec_plan_extraction(
    os: Os,
    arch: Arch,
    os_name: Seq<char>,
    arch_name: Seq<char>,
    root: Seq<char>,
    artifact: Seq<char>,
    document: Seq<char>,
    output: Seq<char>,
    password: Option<Seq<char>>,
    flags: Seq<bool>,
) -> Result<ExtractionPlanView, ExtractionFailureView> {
    if !supported(os, arch) {
        Err(ExtractionFailureView::UnsupportedPlatform { os_name, arch_name })
    } else {
        let location = spec_locate_supported(os, arch, root, flags);
        Ok(
            ExtractionPlanView {
                location,
                invocation: spec_build_invocation(
                    os,
                    location,
                    artifact,
                    document,
                    output,
                    password,
                ),
                probed_candidates: spec_candidates(os, arch, root),
                jre_bundle_path: spec_bundle_dir(os, arch, root),
                artifact_path: spec_normalize_path(os, artifact),
                output_path: output,
            },
        )
    }
}

/// Full model of judging one completed attempt. Success is reported exactly
/// on a zero exit code and carries the planned output path unchanged; a
/// non-zero exit is a tool-reported (content) error with both captured
/// streams verbatim; a spawn failure is a runtime-availability failure whose
/// diagnostics pinpoint everything the plan recorded.
pub open spec fn spec_conclude_extraction(
    plan: ExtractionPlanView,
    outcome: ProcessOutcomeView,
) -> Result<Seq<char>, ExtractionFailureView> {
    match outcome {
        ProcessOutcomeView::Exited { exit_zero, stdout, stderr } => {
            if exit_zero {
                Ok(plan.output_path)
            } else {
                Err(
                    ExtractionFailureView::ToolReportedError {
                        origin: plan.location.origin,
                        stdout,
                        stderr,
                    },
                )
            }
        },
        ProcessOutcomeView::SpawnFailed { not_found, os_error } => {
            Err(
                ExtractionFailureView::RuntimeUnavailable {
                    origin: plan.location.origin,
                    tried_executable: plan.location.executable_path,
                    probed_candidates: plan.probed_candidates,
                    jre_bundle_path: plan.jre_bundle_path,
                    artifact_path: plan.artifact_path,
                    runtime_missing: not_found,
                    os_error,
                },
            )
        },
    }
}

/// Plans one extraction attempt; the result is exactly the model's.
/// `os_name` and `arch_name` are the host's literal platform reports, carried
/// into the unsupported-platform diagnostic; `bundled_exists` reports, in
/// candidate order, which of `candidate_executables` the caller found on
/// disk.
pub fn plan_extraction(
    profile: &PlatformProfile,
    os_name: &str,
    arch_name: &str,
    resource_root: &str,
    artifact_path: &str,
    request: &ExtractionRequest,
    bundled_exists: &Vec<bool>,
) -> (r: Result<ExtractionPlan, ExtractionFailure>)
    requires
        profile.wf(),
    ensures
        r is Ok <==> supported(profile.os, profile.arch),
        plan_result_view(r) == spec_plan_extraction(
            profile.os,
            profile.arch,
            os_name@,
            arch_name@,
            resource_root@,
            artifact_path@,
            request.document_path@,
            request.output_path@,
            request.password.deep_view(),
            bundled_exists@,
        ),
{
    let location = match locate_runtime(profile, resource_root, bundled_exists) {
        None => {
            return Err(ExtractionFailure::UnsupportedPlatform {
                os_name: os_name.to_owned(),
                arch_name: arch_name.to_owned(),
            });
        },
        Some(loc) => loc,
    };
    let probed_candidates = candidate_executables(profile, resource_root);
    let jre_bundle_path = bundle_dir_path(profile, resource_root);
    let invocation = build_invocation(
        profile.os,
        &location,
        artifact_path,
        request.document_path.as_str(),
        request.output_path.as_str(),
        &request.password,
    );
    let artifact_normalized = normalize_windows_path(profile.os, artifact_path);
    let plan = ExtractionPlan {
        location,
        invocation,
        probed_candidates,
        jre_bundle_path,
        artifact_path: artifact_normalized,
        output_path: request.output_path.clone(),
    };
    assert(plan@ =~~= spec_plan_extraction(
        profile.os,
        profile.arch,
        os_name@,
        arch_name@,
        resource_root@,
        artifact_path@,
        request.document_path@,
        request.output_path@,
        request.password.deep_view(),
        bundled_exists@,
    )->Ok_0);
    Ok(plan)
}

fn bundle_dir_path(profile: &PlatformProfile, resource_root: &str) -> (r: String)
    requires
        profile.wf(),
        supported(profile.os, profile.arch),
    ensures
        r@ == spec_bundle_dir(profile.os, profile.arch, resource_root@),
{
    let mut s = resource_root.to_owned();
    match &profile.runtime_bundle_id {
        Some(id) => {
            match profile.os {
                Os::Windows => s.append("\\"),
                _ => s.append("/"),
            }
            s.append(id.as_str());
        },
        None => {},
    }
    s
}

/// Judges one completed extraction attempt; the result is exactly the
/// model's.
pub fn conclude_extraction(plan: ExtractionPlan, outcome: ProcessOutcome) -> (r: Result<
    String,
    ExtractionFailure,
>)
    ensures
        r is Ok <==> (outcome@ matches ProcessOutcomeView::Exited { exit_zero, .. } && exit_zero),
        extraction_result_view(r) == spec_conclude_extraction(plan@, outcome@),
{
    match outcome {
        ProcessOutcome::Exited { exit_zero, stdout, stderr } => {
            if exit_zero {
                Ok(plan.output_path)
            } else {
                Err(ExtractionFailure::ToolReportedError {
                    origin: plan.location.origin,
                    stdout,
                    stderr,
                })
            }
        },
        ProcessOutcome::SpawnFailed { not_found, os_error } => {
            Err(ExtractionFailure::RuntimeUnavailable {
                origin: plan.location.origin,
                tried_executable: plan.location.executable_path,
                probed_candidates: plan.probed_candidates,
                jre_bundle_path: plan.jre_bundle_path,
                artifact_path: plan.artifact_path,
                runtime_missing: not_found,
                os_error,
            })
        },
    }
}

/// Law: on a supported platform, whatever the probe results, a run whose
/// process exits zero reports success carrying exactly the requested output
/// path.
pub proof fn lemma_zero_exit_is_success(
    os: Os,
    arch: Arch,
    os_name: Seq<char>,
    arch_name: Seq<char>,
    root: Seq<char>,
    artifact: Seq<char>,
    document: Seq<char>,
    output: Seq<char>,
    password: Option<Seq<char>>,
    flags: Seq<bool>,
    stdout: Seq<char>,
    stderr: Seq<char>,
)
    requires
        supported(os, arch),
    ensures
        spec_plan_extraction(
            os,
            arch,
            os_name,
            arch_name,
            root,
            artifact,
            document,
            output,
            password,
            flags,
        ) matches Ok(plan) && spec_conclude_extraction(
            plan,
            ProcessOutcomeView::Exited { exit_zero: true, stdout, stderr },
        ) == Ok::<Seq<char>, ExtractionFailureView>(output),
{
}

/// Law: on a supported platform, a run whose process exits non-zero reports
/// a tool-reported error carrying both captured streams verbatim.
pub proof fn lemma_nonzero_exit_is_tool_error(
    os: Os,
    arch: Arch,
    os_name: Seq<char>,
    arch_name: Seq<char>,
    root: Seq<char>,
    artifact: Seq<char>,
    document: Seq<char>,
    output: Seq<char>,
    password: Option<Seq<char>>,
    flags: Seq<bool>,
    stdout: Seq<char>,
    stderr: Seq<char>,
)
    requires
        supported(os, arch),
    ensures
        spec_plan_extraction(
            os,
            arch,
            os_name,
            arch_name,
            root,
            artifact,
            document,
            output,
            password,
            flags,
        ) matches Ok(plan) && spec_conclude_extraction(
            plan,
            ProcessOutcomeView::Exited { exit_zero: false, stdout, stderr },
        ) matches Err(ExtractionFailureView::ToolReportedError { origin, stdout: so, stderr: se })
            && so == stdout && se == stderr && origin == plan.location.origin,
{
}

/// Law: when no bundled candidate exists and the system fallback cannot be
/// spawned either, the call reports the runtime unavailable, and its
/// diagnostics name the bare executable that was tried, every bundled
/// candidate path that was probed, and the bundle directory expected to hold
/// the runtime.
pub proof fn lemma_unavailable_runtime_lists_probes(
    os: Os,
    arch: Arch,
    os_name: Seq<char>,
    arch_name: Seq<char>,
    root: Seq<char>,
    artifact: Seq<char>,
    document: Seq<char>,
    output: Seq<char>,
    password: Option<Seq<char>>,
    flags: Seq<bool>,
    not_found: bool,
    os_error: Seq<char>,
)
    requires
        supported(os, arch),
        forall|i: int|
            0 <= i < spec_candidates(os, arch, root).len() ==> !spec_exists_at(flags, i),
    ensures
        spec_plan_extraction(
            os,
            arch,
            os_name,
            arch_name,
            root,
            artifact,
            document,
            output,
            password,
            flags,
        ) matches Ok(plan) && plan.location.origin is SystemFallback
            && spec_conclude_extraction(
            plan,
            ProcessOutcomeView::SpawnFailed { not_found, os_error },
        ) == Err::<Seq<char>, ExtractionFailureView>(
            ExtractionFailureView::RuntimeUnavailable {
                origin: Origin::SystemFallback,
                tried_executable: "java"@,
                probed_candidates: spec_candidates(os, arch, root),
                jre_bundle_path: spec_bundle_dir(os, arch, root),
                artifact_path: spec_normalize_path(os, artifact),
                runtime_missing: not_found,
                os_error,
            },
        ),
{
    lemma_fallback_when_none_exists(os, arch, root, flags);
}

} // verus!
