use extract_orchestrator::commands::{
    android_download_candidates, export_filter, file_url, greet,
};

#[test]
fn export_filters_cover_every_supported_format() {
    let cases = [
        ("csv", "Save CSV File", "CSV Files"),
        ("xlsx", "Save Excel File", "Excel Files"),
        ("json", "Save JSON File", "JSON Files"),
        ("ofx", "Save OFX File", "OFX Files"),
        ("qfx", "Save QFX File", "QFX Files"),
        ("qif", "Save QIF File", "QIF Files"),
    ];
    for (file_type, title, filter_name) in cases {
        let f = export_filter(file_type).expect("supported format must have a filter");
        assert_eq!(f.title, title);
        assert_eq!(f.filter_name, filter_name);
        assert_eq!(f.extensions, vec![file_type.to_string()]);
    }
}

#[test]
fn unsupported_export_format_is_rejected() {
    assert!(export_filter("pdf").is_none());
    assert!(export_filter("CSV").is_none());
    assert!(export_filter("").is_none());
}

#[test]
fn android_candidates_come_in_documented_order() {
    assert_eq!(
        android_download_candidates("report.csv"),
        vec![
            "/storage/emulated/0/Download/report.csv".to_string(),
            "/storage/emulated/0/Downloads/report.csv".to_string(),
            "/sdcard/Download/report.csv".to_string(),
            "/sdcard/Downloads/report.csv".to_string(),
        ]
    );
}

#[test]
fn file_url_prefixes_the_path() {
    assert_eq!(file_url("/tmp/report.csv"), "file:///tmp/report.csv");
}

#[test]
fn greeting_embeds_the_name() {
    assert_eq!(greet("Ada"), "Hello, Ada! You've been greeted from Rust!");
}
