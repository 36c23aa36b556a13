//! Pure cores of the remaining command surface: the greeting text, the URL
//! form under which a file is opened, the save-dialog filter for each export
//! format, and the ordered candidate download paths tried on Android. The
//! dialogs, file writes and shell calls around them are I/O and stay outside
//! the library.

use vstd::prelude::*;

verus! {

/// The save-dialog configuration for one export format.
pub struct ExportFilter {
    pub title: String,
    pub filter_name: String,
    pub extensions: Vec<String>,
}

/// Dialog title, filter name and extension list for each supported export
/// format; `None` for an unsupported format name.
pub open spec fn spec_export_filter(file_type: Seq<char>) -> Option<
    (Seq<char>, Seq<char>, Seq<Seq<char>>),
> {
    if file_type == "csv"@ {
        Some(("Save CSV File"@, "CSV Files"@, seq!["csv"@]))
    } else if file_type == "xlsx"@ {
        Some(("Save Excel File"@, "Excel Files"@, seq!["xlsx"@]))
    } else if file_type == "json"@ {
        Some(("Save JSON File"@, "JSON Files"@, seq!["json"@]))
    } else if file_type == "ofx"@ {
        Some(("Save OFX File"@, "OFX Files"@, seq!["ofx"@]))
    } else if file_type == "qfx"@ {
        Some(("Save QFX File"@, "QFX Files"@, seq!["qfx"@]))
    } else if file_type == "qif"@ {
        Some(("Save QIF File"@, "QIF Files"@, seq!["qif"@]))
    } else {
        None
    }
}

fn filter_of(title: &str, filter_name: &str, extension: &str) -> (r: ExportFilter)
    ensures
        r.title@ == title@,
        r.filter_name@ == filter_name@,
        r.extensions.deep_view() =~= seq![extension@],
{
    let mut extensions: Vec<String> = Vec::new();
    extensions.push(extension.to_owned());
    ExportFilter { title: title.to_owned(), filter_name: filter_name.to_owned(), extensions }
}

/// Resolves an export-format name to its save-dialog filter; an unsupported
/// name is rejected so the caller can report it.
pub fn export_filter(file_type: &str) -> (r: Option<ExportFilter>)
    ensures
        r is Some <==> spec_export_filter(file_type@) is Some,
        r matches Some(f) ==> (spec_export_filter(file_type@) matches Some(m) && {
            &&& f.title@ == m.0
            &&& f.filter_name@ == m.1
            &&& f.extensions.deep_view() == m.2
        }),
{
    let t = file_type.to_owned();
    if t == String::from_str("csv") {
        Some(filter_of("Save CSV File", "CSV Files", "csv"))
    } else if t == String::from_str("xlsx") {
        Some(filter_of("Save Excel File", "Excel Files", "xlsx"))
    } else if t == String::from_str("json") {
        Some(filter_of("Save JSON File", "JSON Files", "json"))
    } else if t == String::from_str("ofx") {
        Some(filter_of("Save OFX File", "OFX Files", "ofx"))
    } else if t == String::from_str("qfx") {
        Some(filter_of("Save QFX File", "QFX Files", "qfx"))
    } else if t == String::from_str("qif") {
        Some(filter_of("Save QIF File", "QIF Files", "qif"))
    } else {
        None
    }
}

/// The ordered candidate download paths tried on Android for a file name:
/// the first writable one wins, so the order is part of the behavior.
pub open spec fn spec_android_download_candidates(file_name: Seq<char>) -> Seq<Seq<char>> {
    seq![
        "/storage/emulated/0/Download/"@ + file_name,
        "/storage/emulated/0/Downloads/"@ + file_name,
        "/sdcard/Download/"@ + file_name,
        "/sdcard/Downloads/"@ + file_name,
    ]
}

/// Builds the Android candidate download paths, best first.
pub fn android_download_candidates(file_name: &str) -> (r: Vec<String>)
    ensures
        r.deep_view() == spec_android_download_candidates(file_name@),
{
    let mut r: Vec<String> = Vec::new();
    r.push(String::from_str("/storage/emulated/0/Download/").concat(file_name));
    r.push(String::from_str("/storage/emulated/0/Downloads/").concat(file_name));
    r.push(String::from_str("/sdcard/Download/").concat(file_name));
    r.push(String::from_str("/sdcard/Downloads/").concat(file_name));
    assert(r.deep_view() =~~= spec_android_download_candidates(file_name@));
    r
}

/// The URL under which a local file is handed to the OS shell for opening.
pub fn file_url(path: &str) -> (r: String)
    ensures
        r@ == "file://"@ + path@,
{
    String::from_str("file://").concat(path)
}

/// The greeting the backend answers with.
pub fn greet(name: &str) -> (r: String)
    ensures
        r@ == "Hello, "@ + name@ + "! You've been greeted from Rust!"@,
{
    String::from_str("Hello, ").concat(name).concat("! You've been greeted from Rust!")
}

} // verus!
