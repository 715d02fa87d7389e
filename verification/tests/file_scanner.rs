use davinci_convertor::file_scanner::{FileScanner, ScanStep};

#[test]
fn every_media_extension_is_known() {
    for ext in [
        "mov", "mp4", "mxf", "avi", "mkv", "wmv", "flv", "m4v", "webm", "mpg", "mpeg", "m2ts",
        "mts",
    ] {
        assert!(FileScanner::is_media_file(Some(ext)));
        assert!(FileScanner::is_known_extension(&format!(".{}", ext)));
    }
}

#[test]
fn media_extensions_count_whatever_their_case() {
    assert!(FileScanner::is_media_file(Some("MP4")));
    assert!(FileScanner::is_media_file(Some("Mov")));
    assert!(FileScanner::is_media_file(Some("mKv")));
    assert!(FileScanner::is_media_file(Some("M2TS")));
}

#[test]
fn other_extensions_are_no_media() {
    for ext in ["txt", "jpg", "mp3", "mp", "mp44", "", ".mp4", "mov ", "srt"] {
        assert!(!FileScanner::is_media_file(Some(ext)));
    }
    assert!(!FileScanner::is_media_file(None));
}

#[test]
fn known_extensions_are_taken_as_they_stand() {
    assert!(FileScanner::is_known_extension(".mp4"));
    assert!(!FileScanner::is_known_extension("mp4"));
    assert!(!FileScanner::is_known_extension(".MP4"));
    assert!(!FileScanner::is_known_extension(""));
    assert!(!FileScanner::is_known_extension("."));
}

#[test]
fn entries_are_collected_walked_or_passed_over() {
    assert_eq!(FileScanner::entry_step(true, false, Some("mkv")), ScanStep::Collect);
    assert_eq!(FileScanner::entry_step(true, false, Some("MKV")), ScanStep::Collect);
    assert_eq!(FileScanner::entry_step(true, false, Some("txt")), ScanStep::Ignore);
    assert_eq!(FileScanner::entry_step(true, false, None), ScanStep::Ignore);
    assert_eq!(FileScanner::entry_step(false, true, None), ScanStep::Descend);
    assert_eq!(FileScanner::entry_step(false, true, Some("mp4")), ScanStep::Descend);
    assert_eq!(FileScanner::entry_step(false, false, Some("mp4")), ScanStep::Ignore);
    assert_eq!(FileScanner::entry_step(true, true, Some("mp4")), ScanStep::Collect);
}

#[test]
fn the_root_is_a_file_or_is_walked() {
    assert_eq!(FileScanner::root_step(true, Some("mp4")), ScanStep::Collect);
    assert_eq!(FileScanner::root_step(true, Some("pdf")), ScanStep::Ignore);
    assert_eq!(FileScanner::root_step(true, None), ScanStep::Ignore);
    assert_eq!(FileScanner::root_step(false, None), ScanStep::Descend);
    assert_eq!(FileScanner::root_step(false, Some("mp4")), ScanStep::Descend);
}
