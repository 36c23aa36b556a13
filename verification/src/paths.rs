//! Path normalization: canonicalizes paths into a form the external tool
//! understands. Windows hands out extended-length paths carrying a verbatim
//! prefix that the tool cannot parse, so on that platform every leading
//! occurrence of the prefix is stripped; on every other platform
//! normalization is the identity.

use vstd::prelude::*;
use crate::platform::Os;

verus! {

/// True when the path starts with the Windows verbatim prefix `\\?\`.
pub open spec fn has_verbatim_prefix(s: Seq<char>) -> bool {
    &&& s.len() >= 4
    &&& s[0] == '\\'
    &&& s[1] == '\\'
    &&& s[2] == '?'
    &&& s[3] == '\\'
}

/// Strips every leading occurrence of the verbatim prefix.
pub open spec fn spec_strip_verbatim(s: Seq<char>) -> Seq<char>
    decreases s.len(),
{
    if has_verbatim_prefix(s) {
        spec_strip_verbatim(s.subrange(4, s.len() as int))
    } else {
        s
    }
}

/// What normalization does on each platform: strip the verbatim prefix where
/// the convention exists, change nothing anywhere else.
pub open spec fn spec_normalize_path(os: Os, s: Seq<char>) -> Seq<char> {
    if os is Windows {
        spec_strip_verbatim(s)
    } else {
        s
    }
}

fn starts_with_verbatim_prefix(path: &str) -> (r: bool)
    ensures
        r == has_verbatim_prefix(path@),
{
    let n = path.unicode_len();
    n >= 4 && path.get_char(0) == '\\' && path.get_char(1) == '\\' && path.get_char(2) == '?'
        && path.get_char(3) == '\\'
}

fn strip_verbatim(path: &str) -> (r: String)
    ensures
        r@ == spec_strip_verbatim(path@),
    decreases path@.len(),
{
    if starts_with_verbatim_prefix(path) {
        let n = path.unicode_len();
        let rest = path.substring_char(4, n);
        strip_verbatim(rest)
    } else {
        path.to_owned()
    }
}

/// Canonicalizes a path before it is handed to the subprocess: on Windows the
/// extended-length prefix is stripped as often as it leads the path; on the
/// other platforms the path comes back unchanged.
pub fn normalize_windows_path(os: Os, path: &str) -> (r: String)
    ensures
        r@ == spec_normalize_path(os, path@),
{
    match os {
        Os::Windows => strip_verbatim(path),
        _ => path.to_owned(),
    }
}

/// A stripped path never starts with the verbatim prefix again.
proof fn lemma_strip_leaves_no_prefix(s: Seq<char>)
    ensures
        !has_verbatim_prefix(spec_strip_verbatim(s)),
    decreases s.len(),
{
    if has_verbatim_prefix(s) {
        lemma_strip_leaves_no_prefix(s.subrange(4, s.len() as int));
    }
}

/// Law: normalization is idempotent on every path and platform.
pub proof fn lemma_normalize_idempotent(os: Os, s: Seq<char>)
    ensures
        spec_normalize_path(os, spec_normalize_path(os, s)) == spec_normalize_path(os, s),
{
    if os is Windows {
        lemma_strip_leaves_no_prefix(s);
    }
}

/// Law: on platforms without the extended-length prefix convention,
/// normalization is the identity function.
pub proof fn lemma_normalize_identity_off_windows(os: Os, s: Seq<char>)
    requires
        !(os is Windows),
    ensures
        spec_normalize_path(os, s) == s,
{
}

} // verus!
