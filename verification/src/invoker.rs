//! Invocation building: assembles the argument list of the subprocess that
//! runs the external extraction tool. The tool artifact, input document and
//! output target paths are normalized here — the external tool does not
//! understand the Windows extended-length prefix — and the optional password
//! is appended as an opaque credential.

use vstd::prelude::*;
use crate::locator::{RuntimeLocation, RuntimeLocationView};
use crate::paths::{normalize_windows_path, spec_normalize_path};
use crate::platform::Os;

verus! {

/// A fully assembled subprocess invocation.
pub struct Invocation {
    /// The runtime executable to spawn.
    pub program: String,
    /// Arguments, in order, as they are handed to the process.
    pub args: Vec<String>,
    /// True when the process must be created so that no console window
    /// appears on the host OS.
    pub suppress_console: bool,
}

/// Mathematical model of an invocation.
#[verifier::ext_equal]
pub struct InvocationView {
    pub program: Seq<char>,
    pub args: Seq<Seq<char>>,
    pub suppress_console: bool,
}

impl View for Invocation {
    type V = InvocationView;

    open spec fn view(&self) -> InvocationView {
        InvocationView {
            program: self.program@,
            args: self.args.deep_view(),
            suppress_console: self.suppress_console,
        }
    }
}

impl DeepView for Invocation {
    type V = InvocationView;

    open spec fn deep_view(&self) -> InvocationView {
        self.view()
    }
}

/// The exact argument list of the extraction invocation:
/// `-jar <artifact> <document> --format=CSV --outfile <output> --pages all`,
/// with `--password <secret>` appended when a password was supplied. The
/// three paths appear in their normalized form.
pub open spec fn spec_invocation_args(
    os: Os,
    artifact: Seq<char>,
    document: Seq<char>,
    output: Seq<char>,
    password: Option<Seq<char>>,
) -> Seq<Seq<char>> {
    let base = seq![
        "-jar"@,
        spec_normalize_path(os, artifact),
        spec_normalize_path(os, document),
        "--format=CSV"@,
        "--outfile"@,
        spec_normalize_path(os, output),
        "--pages"@,
        "all"@,
    ];
    match password {
        Some(secret) => base + seq!["--password"@, secret],
        None => base,
    }
}

/// What building an invocation yields for a located runtime: the program is
/// the located executable, the arguments are exactly `spec_invocation_args`
/// over the normalized paths, and console suppression follows the location.
pub open spec fn spec_build_invocation(
    os: Os,
    location: RuntimeLocationView,
    artifact: Seq<char>,
    document: Seq<char>,
    output: Seq<char>,
    password: Option<Seq<char>>,
) -> InvocationView {
    InvocationView {
        program: location.executable_path,
        args: spec_invocation_args(os, artifact, document, output, password),
        suppress_console: location.console_suppression_required,
    }
}

/// Law: the password reaches the subprocess exactly when one was supplied —
/// as the final argument, after a `--password` flag — and without one the
/// argument list carries no trace of a credential.
pub proof fn lemma_password_passthrough(
    os: Os,
    artifact: Seq<char>,
    document: Seq<char>,
    output: Seq<char>,
    password: Option<Seq<char>>,
)
    ensures
        password is None ==> spec_invocation_args(os, artifact, document, output, password).len()
            == 8,
        password matches Some(secret) ==> {
            let args = spec_invocation_args(os, artifact, document, output, password);
            &&& args.len() == 10
            &&& args[8] == "--password"@
            &&& args[9] == secret
            &&& args.take(8) == spec_invocation_args(os, artifact, document, output, None)
        },
{
    if password is Some {
        let args = spec_invocation_args(os, artifact, document, output, password);
        assert(args.take(8) =~= spec_invocation_args(os, artifact, document, output, None));
    }
}

/// Builds the subprocess invocation for a located runtime.
pub fn build_invocation(
    os: Os,
    location: &RuntimeLocation,
    artifact_path: &str,
    document_path: &str,
    output_path: &str,
    password: &Option<String>,
) -> (inv: Invocation)
    ensures
        inv@ == spec_build_invocation(
            os,
            location@,
            artifact_path@,
            document_path@,
            output_path@,
            password.deep_view(),
        ),
{
    let mut args: Vec<String> = Vec::new();
    args.push(String::from_str("-jar"));
    args.push(normalize_windows_path(os, artifact_path));
    args.push(normalize_windows_path(os, document_path));
    args.push(String::from_str("--format=CSV"));
    args.push(String::from_str("--outfile"));
    args.push(normalize_windows_path(os, output_path));
    args.push(String::from_str("--pages"));
    args.push(String::from_str("all"));
    match password {
        Some(secret) => {
            args.push(String::from_str("--password"));
            args.push(secret.clone());
        },
        None => {},
    }
    assert(args.deep_view() =~~= spec_invocation_args(
        os,
        artifact_path@,
        document_path@,
        output_path@,
        password.deep_view(),
    ));
    Invocation {
        program: location.executable_path.clone(),
        args,
        suppress_console: location.console_suppression_required,
    }
}

} // verus!
