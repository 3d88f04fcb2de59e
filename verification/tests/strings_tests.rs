use screen_shield::strings::{
    chars_vec, contains_text, decode_utf16_lossy, eq_ignore_ascii_case, is_flag, parse_u32,
    same_text, to_lower,
};

#[test]
fn parse_u32_accepts_decimal() {
    assert_eq!(parse_u32("0"), Some(0));
    assert_eq!(parse_u32("42"), Some(42));
    assert_eq!(parse_u32("+7"), Some(7));
    assert_eq!(parse_u32("4294967295"), Some(u32::MAX));
    assert_eq!(parse_u32("007"), Some(7));
}

#[test]
fn parse_u32_rejects_other_text() {
    assert_eq!(parse_u32(""), None);
    assert_eq!(parse_u32("+"), None);
    assert_eq!(parse_u32("-1"), None);
    assert_eq!(parse_u32("4294967296"), None);
    assert_eq!(parse_u32(" 1"), None);
    assert_eq!(parse_u32("1_000"), None);
    assert_eq!(parse_u32("chrome.exe"), None);
}

#[test]
fn lowercase_and_utf16() {
    assert_eq!(to_lower("Chrome.EXE"), "chrome.exe");
    assert_eq!(to_lower("ÄBC"), "äbc");
    let units: Vec<u16> = "Steam.exe".encode_utf16().collect();
    assert_eq!(decode_utf16_lossy(&units), "Steam.exe");
    assert_eq!(decode_utf16_lossy(&[0xD800, 0x41]), "\u{FFFD}A");
}

#[test]
fn text_comparisons() {
    assert!(same_text("WorkerW", "WorkerW"));
    assert!(!same_text("WorkerW", "workerw"));
    assert!(!same_text("Worker", "WorkerW"));
    assert!(eq_ignore_ascii_case("EXPLORER.exe", "explorer.EXE"));
    assert!(!eq_ignore_ascii_case("explorer.exe", "explorer.ex"));
    assert!(!eq_ignore_ascii_case("É", "é"));
    assert!(is_flag("--hide"));
    assert!(is_flag("--"));
    assert!(!is_flag("-h"));
    assert!(!is_flag("chrome.exe"));
    assert_eq!(chars_vec("ab"), vec!['a', 'b']);
    let names = vec!["steam.exe".to_string(), "chrome.exe".to_string()];
    assert!(contains_text(&names, "chrome.exe"));
    assert!(!contains_text(&names, "Chrome.exe"));
}
