//! Runtime location: builds the candidate executable paths for the bundled
//! runtime under the application's resource root, and selects the first
//! candidate reported present on disk, falling back to the system-installed
//! runtime when no candidate exists. Which candidates exist is established
//! outside the library (the probing is filesystem I/O) and handed in as data,
//! positionally aligned with the candidate list.

use vstd::prelude::*;
use crate::platform::{Arch, Os, PlatformProfile, spec_bundle_id, spec_executable_name, supported};

verus! {

/// Which runtime source serviced a call.
#[derive(Clone, Copy, Debug, PartialEq, Eq, Structural)]
pub enum Origin {
    Bundled,
    SystemFallback,
}

/// A located runtime, computed fresh per extraction call.
pub struct RuntimeLocation {
    /// Path of the executable to spawn; for the system fallback this is the
    /// bare name `java`, resolved by the OS's program search.
    pub executable_path: String,
    pub origin: Origin,
    /// True only on the host OS that would otherwise flash a console window
    /// for a spawned console subprocess.
    pub console_suppression_required: bool,
}

/// Mathematical model of a located runtime.
#[verifier::ext_equal]
pub struct RuntimeLocationView {
    pub executable_path: Seq<char>,
    pub origin: Origin,
    pub console_suppression_required: bool,
}

impl View for RuntimeLocation {
    type V = RuntimeLocationView;

    open spec fn view(&self) -> RuntimeLocationView {
        RuntimeLocationView {
            executable_path: self.executable_path@,
            origin: self.origin,
            console_suppression_required: self.console_suppression_required,
        }
    }
}

impl DeepView for RuntimeLocation {
    type V = RuntimeLocationView;

    open spec fn deep_view(&self) -> RuntimeLocationView {
        self.view()
    }
}

/// Path separator the host platform uses.
pub open spec fn spec_sep(os: Os) -> Seq<char> {
    if os is Windows {
        "\\"@
    } else {
        "/"@
    }
}

/// Directory of the runtime bundle under the resource root.
pub open spec fn spec_bundle_dir(os: Os, arch: Arch, root: Seq<char>) -> Seq<char> {
    root + spec_sep(os) + spec_bundle_id(os, arch)
}

/// First candidate: the executable under the bundle's `bin` folder.
pub open spec fn spec_primary_candidate(os: Os, arch: Arch, root: Seq<char>) -> Seq<char> {
    spec_bundle_dir(os, arch, root) + spec_sep(os) + "bin"@ + spec_sep(os)
        + spec_executable_name(os)
}

/// Second candidate, tried on macOS only: the layout of full JDK-style
/// distributions, whose executable sits under `Contents/Home/bin`.
pub open spec fn spec_jdk_style_candidate(os: Os, arch: Arch, root: Seq<char>) -> Seq<char> {
    spec_bundle_dir(os, arch, root) + spec_sep(os) + "Contents"@ + spec_sep(os) + "Home"@
        + spec_sep(os) + "bin"@ + spec_sep(os) + spec_executable_name(os)
}

/// The ordered candidate layouts for the bundled executable. Empty exactly
/// for unsupported combinations: no filesystem location is guessed there.
pub open spec fn spec_candidates(os: Os, arch: Arch, root: Seq<char>) -> Seq<Seq<char>> {
    if !supported(os, arch) {
        Seq::empty()
    } else if os is Macos {
        seq![spec_primary_candidate(os, arch, root), spec_jdk_style_candidate(os, arch, root)]
    } else {
        seq![spec_primary_candidate(os, arch, root)]
    }
}

/// Whether the probe flags report candidate `i` as present on disk; a flag
/// list shorter than the candidate list reports the missing tail as absent.
pub open spec fn spec_exists_at(flags: Seq<bool>, i: int) -> bool {
    0 <= i < flags.len() && flags[i]
}

/// Index of the first of the `n` candidates reported present, scanning from
/// `i` upward.
pub open spec fn spec_first_existing_from(flags: Seq<bool>, i: int, n: int) -> Option<int>
    decreases n - i,
{
    if i >= n {
        None
    } else if spec_exists_at(flags, i) {
        Some(i)
    } else {
        spec_first_existing_from(flags, i + 1, n)
    }
}

/// Index of the first of the `n` candidates reported present, if any.
pub open spec fn spec_selected(flags: Seq<bool>, n: int) -> Option<int> {
    spec_first_existing_from(flags, 0, n)
}

/// The runtime a supported profile locates: the first bundled candidate the
/// probe flags report present, else the system fallback, invoked by the bare
/// name `java` on every platform and resolved by the OS's program search.
/// Console suppression is a property of the host OS.
pub open spec fn spec_locate_supported(
    os: Os,
    arch: Arch,
    root: Seq<char>,
    flags: Seq<bool>,
) -> RuntimeLocationView {
    let cands = spec_candidates(os, arch, root);
    match spec_selected(flags, cands.len() as int) {
        Some(i) => RuntimeLocationView {
            executable_path: cands[i],
            origin: Origin::Bundled,
            console_suppression_required: os is Windows,
        },
        None => RuntimeLocationView {
            executable_path: "java"@,
            origin: Origin::SystemFallback,
            console_suppression_required: os is Windows,
        },
    }
}

/// Full model of the locator: an unsupported combination locates nothing.
pub open spec fn spec_locate(os: Os, arch: Arch, root: Seq<char>, flags: Seq<bool>) -> Option<
    RuntimeLocationView,
> {
    if supported(os, arch) {
        Some(spec_locate_supported(os, arch, root, flags))
    } else {
        None
    }
}

fn separator(os: Os) -> (r: &'static str)
    ensures
        r@ == spec_sep(os),
{
    match os {
        Os::Windows => "\\",
        _ => "/",
    }
}

fn join(base: &str, sep: &str, component: &str) -> (r: String)
    ensures
        r@ == base@ + sep@ + component@,
{
    let mut s = base.to_owned();
    s.append(sep);
    s.append(component);
    s
}

/// Builds the ordered candidate paths for the bundled executable; the caller
/// probes each for existence. Unsupported combinations get no candidates.
pub fn candidate_executables(profile: &PlatformProfile, resource_root: &str) -> (r: Vec<String>)
    requires
        profile.wf(),
    ensures
        r.deep_view() == spec_candidates(profile.os, profile.arch, resource_root@),
{
    let mut r: Vec<String> = Vec::new();
    match &profile.runtime_bundle_id {
        None => {},
        Some(id) => {
            let sep = separator(profile.os);
            let bundle_dir = join(resource_root, sep, id.as_str());
            let bin_dir = join(bundle_dir.as_str(), sep, "bin");
            let primary = join(bin_dir.as_str(), sep, profile.executable_name.as_str());
            assert(primary@ =~= spec_primary_candidate(
                profile.os,
                profile.arch,
                resource_root@,
            ));
            r.push(primary);
            if matches!(profile.os, Os::Macos) {
                let contents = join(bundle_dir.as_str(), sep, "Contents");
                let home = join(contents.as_str(), sep, "Home");
                let deep_bin = join(home.as_str(), sep, "bin");
                let jdk_style = join(deep_bin.as_str(), sep, profile.executable_name.as_str());
                assert(jdk_style@ =~= spec_jdk_style_candidate(
                    profile.os,
                    profile.arch,
                    resource_root@,
                ));
                r.push(jdk_style);
            }
        },
    }
    assert(r.deep_view() =~~= spec_candidates(profile.os, profile.arch, resource_root@));
    r
}

/// Locates a usable runtime for a supported profile. The probe flags report,
/// position by position, which of the profile's candidate paths exist on
/// disk: the first existing candidate wins with origin `Bundled`; when none
/// exists the runtime is invoked by bare name with origin `SystemFallback`.
/// An unsupported profile yields `None`: the caller must fail fast instead of
/// probing anything.
pub fn locate_runtime(
    profile: &PlatformProfile,
    resource_root: &str,
    bundled_exists: &Vec<bool>,
) -> (r: Option<RuntimeLocation>)
    requires
        profile.wf(),
    ensures
        r is Some <==> supported(profile.os, profile.arch),
        r.deep_view() == spec_locate(profile.os, profile.arch, resource_root@, bundled_exists@),
{
    if profile.runtime_bundle_id.is_none() {
        return None;
    }
    let candidates = candidate_executables(profile, resource_root);
    let suppress = matches!(profile.os, Os::Windows);
    let ghost flags = bundled_exists@;
    let ghost n = candidates.deep_view().len() as int;
    let mut i: usize = 0;
    while i < candidates.len()
        invariant
            0 <= i <= candidates.len(),
            profile.wf(),
            supported(profile.os, profile.arch),
            suppress == (profile.os is Windows),
            candidates.deep_view() == spec_candidates(profile.os, profile.arch, resource_root@),
            n == candidates@.len(),
            flags == bundled_exists@,
            spec_first_existing_from(flags, i as int, n) == spec_selected(flags, n),
        decreases candidates.len() - i,
    {
        if i < bundled_exists.len() && bundled_exists[i] {
            let chosen = candidates[i].clone();
            assert(chosen@ == spec_candidates(profile.os, profile.arch, resource_root@)[i as int]);
            return Some(RuntimeLocation {
                executable_path: chosen,
                origin: Origin::Bundled,
                console_suppression_required: suppress,
            });
        }
        i = i + 1;
    }
    Some(RuntimeLocation {
        executable_path: String::from_str("java"),
        origin: Origin::SystemFallback,
        console_suppression_required: suppress,
    })
}

/// Law: an unsupported combination locates nothing and has no candidate
/// paths — there is nothing the locator would touch on disk.
pub proof fn lemma_unsupported_locates_nothing(os: Os, arch: Arch, root: Seq<char>, flags: Seq<bool>)
    requires
        !supported(os, arch),
    ensures
        spec_locate(os, arch, root, flags) is None,
        spec_candidates(os, arch, root).len() == 0,
{
}

/// Law: when some bundled candidate exists, the located runtime is bundled —
/// the system fallback is never reached — and its executable is the first
/// existing candidate.
pub proof fn lemma_bundled_preferred(os: Os, arch: Arch, root: Seq<char>, flags: Seq<bool>)
    requires
        supported(os, arch),
        exists|i: int|
            0 <= i < spec_candidates(os, arch, root).len() && spec_exists_at(flags, i),
    ensures
        spec_locate_supported(os, arch, root, flags).origin is Bundled,
        spec_selected(flags, spec_candidates(os, arch, root).len() as int) matches Some(i) && {
            &&& spec_exists_at(flags, i)
            &&& forall|j: int| 0 <= j < i ==> !spec_exists_at(flags, j)
            &&& spec_locate_supported(os, arch, root, flags).executable_path == spec_candidates(
                os,
                arch,
                root,
            )[i]
        },
{
    lemma_first_existing_complete(flags, 0, spec_candidates(os, arch, root).len() as int);
}

/// Law: when no bundled candidate exists, the locator falls back to invoking
/// the system-installed runtime by its bare name, on every platform.
pub proof fn lemma_fallback_when_none_exists(os: Os, arch: Arch, root: Seq<char>, flags: Seq<bool>)
    requires
        supported(os, arch),
        forall|i: int|
            0 <= i < spec_candidates(os, arch, root).len() ==> !spec_exists_at(flags, i),
    ensures
        spec_locate_supported(os, arch, root, flags).origin is SystemFallback,
        spec_locate_supported(os, arch, root, flags).executable_path == "java"@,
{
    lemma_first_existing_complete(flags, 0, spec_candidates(os, arch, root).len() as int);
}

/// The scan from `lo` finds an index exactly when one of the scanned
/// positions is reported present, and then the first such one.
proof fn lemma_first_existing_complete(flags: Seq<bool>, lo: int, n: int)
    ensures
        (spec_first_existing_from(flags, lo, n) is Some) <==> (exists|i: int|
            lo <= i < n && spec_exists_at(flags, i)),
        spec_first_existing_from(flags, lo, n) matches Some(i) ==> {
            &&& lo <= i < n
            &&& spec_exists_at(flags, i)
            &&& forall|j: int| lo <= j < i ==> !spec_exists_at(flags, j)
        },
    decreases n - lo,
{
    if lo < n && !spec_exists_at(flags, lo) {
        lemma_first_existing_complete(flags, lo + 1, n);
    }
}

} // verus!
