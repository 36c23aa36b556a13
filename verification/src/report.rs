//! Message rendering: the user-visible text for a finished extraction call.
//! Every message is pinned character by character, so the front end only
//! prints. The password never reaches any message: no failure carries it.

use vstd::prelude::*;
use crate::extract::{ExtractionFailure, ExtractionFailureView};
use crate::locator::Origin;

verus! {

/// The items joined with a comma and a space between each pair.
pub open spec fn spec_join_comma(items: Seq<Seq<char>>) -> Seq<char>
    decreases items.len(),
{
    if items.len() == 0 {
        Seq::empty()
    } else if items.len() == 1 {
        items[0]
    } else {
        items[0] + ", "@ + spec_join_comma(items.skip(1))
    }
}

fn join_comma_from(items: &Vec<String>, i: usize) -> (r: String)
    requires
        i <= items.len(),
    ensures
        r@ == spec_join_comma(items.deep_view().skip(i as int)),
    decreases items.len() - i,
{
    let ghost tail = items.deep_view().skip(i as int);
    if i == items.len() {
        assert(tail.len() == 0);
        String::new()
    } else if i + 1 == items.len() {
        assert(tail.len() == 1);
        assert(tail[0] == items.deep_view()[i as int]);
        items[i].clone()
    } else {
        let rest = join_comma_from(items, i + 1);
        let r = items[i].clone().concat(", ").concat(rest.as_str());
        assert(items.deep_view().skip(i as int + 1) =~= tail.skip(1));
        assert(r@ == tail[0] + ", "@ + spec_join_comma(tail.skip(1)));
        r
    }
}

/// Joins path lists for diagnostics: each item in order, ", " between pairs.
pub fn join_comma(items: &Vec<String>) -> (r: String)
    ensures
        r@ == spec_join_comma(items.deep_view()),
{
    let r = join_comma_from(items, 0);
    assert(items.deep_view().skip(0) =~= items.deep_view());
    r
}

/// The message reported when extraction succeeds.
pub open spec fn spec_success_message(output_path: Seq<char>) -> Seq<char> {
    "Tables extracted successfully to: "@ + output_path
}

/// Renders the success message for the reported output path.
pub fn success_message(output_path: &str) -> (r: String)
    ensures
        r@ == spec_success_message(output_path@),
{
    String::from_str("Tables extracted successfully to: ").concat(output_path)
}

/// How each runtime origin is named in a failure message.
pub open spec fn spec_origin_phrase(origin: Origin) -> Seq<char> {
    match origin {
        Origin::Bundled => "bundled JRE"@,
        Origin::SystemFallback => "system PATH (bundled JRE not found)"@,
    }
}

/// The actionable hint for a spawn failure: a missing executable means the
/// runtime is not installed; anything else is a generic execution error.
pub open spec fn spec_spawn_hint(runtime_missing: bool) -> Seq<char> {
    if runtime_missing {
        "Java executable not found. Please ensure Java is installed or the bundled JRE is properly configured."@
    } else {
        "Execution error"@
    }
}

/// The full text of each failure, character by character.
pub open spec fn spec_failure_message(f: ExtractionFailureView) -> Seq<char> {
    match f {
        ExtractionFailureView::UnsupportedPlatform { os_name, arch_name } => {
            "Unsupported platform: "@ + os_name + " "@ + arch_name
        },
        ExtractionFailureView::RuntimeUnavailable {
            origin,
            tried_executable,
            probed_candidates,
            jre_bundle_path,
            artifact_path,
            runtime_missing,
            os_error,
        } => {
            "Failed to execute Java (using "@ + spec_origin_phrase(origin) + "): "@
                + spec_spawn_hint(runtime_missing) + "\nTried executable: "@ + tried_executable
                + "\nBundled candidates checked: "@ + spec_join_comma(probed_candidates)
                + "\nJRE folder checked: "@ + jre_bundle_path + "\nJAR path: "@ + artifact_path
                + "\nError: "@ + os_error
        },
        ExtractionFailureView::ToolReportedError { origin: _, stdout, stderr } => {
            "Tabula error:\nStderr: "@ + stderr + "\nStdout: "@ + stdout
        },
    }
}

fn origin_phrase(origin: Origin) -> (r: &'static str)
    ensures
        r@ == spec_origin_phrase(origin),
{
    match origin {
        Origin::Bundled => "bundled JRE",
        Origin::SystemFallback => "system PATH (bundled JRE not found)",
    }
}

/// Renders a failure as the text shown to the user.
pub fn failure_message(f: &ExtractionFailure) -> (r: String)
    ensures
        r@ == spec_failure_message(f@),
{
    match f {
        ExtractionFailure::UnsupportedPlatform { os_name, arch_name } => {
            String::from_str("Unsupported platform: ").concat(os_name.as_str()).concat(" ").concat(
                arch_name.as_str(),
            )
        },
        ExtractionFailure::RuntimeUnavailable {
            origin,
            tried_executable,
            probed_candidates,
            jre_bundle_path,
            artifact_path,
            runtime_missing,
            os_error,
        } => {
            let hint = if *runtime_missing {
                "Java executable not found. Please ensure Java is installed or the bundled JRE is properly configured."
            } else {
                "Execution error"
            };
            let candidates = join_comma(probed_candidates);
            String::from_str("Failed to execute Java (using ").concat(
                origin_phrase(*origin),
            ).concat("): ").concat(hint).concat("\nTried executable: ").concat(
                tried_executable.as_str(),
            ).concat("\nBundled candidates checked: ").concat(candidates.as_str()).concat(
                "\nJRE folder checked: ",
            ).concat(jre_bundle_path.as_str()).concat("\nJAR path: ").concat(
                artifact_path.as_str(),
            ).concat("\nError: ").concat(os_error.as_str())
        },
        ExtractionFailure::ToolReportedError { origin: _, stdout, stderr } => {
            String::from_str("Tabula error:\nStderr: ").concat(stderr.as_str()).concat(
                "\nStdout: ",
            ).concat(stdout.as_str())
        },
    }
}

} // verus!
