use tracey::classification::feature_extractor::{extract, normalize};

#[test]
fn extract_combines_fields() {
    let f = extract("Code", "tracey — Visual Studio Code", Some("fn main"));
    assert!(f.combined_text.contains("code"));
    assert!(f.combined_text.contains("tracey"));
    assert!(f.combined_text.contains("fn main"));
}

#[test]
fn extract_handles_no_ocr() {
    let f = extract("Slack", "general | Slack", None);
    assert!(f.combined_text.contains("slack"));
    assert!(f.combined_text.contains("general"));
}

#[test]
fn normalize_strips_punctuation_and_lowercases() {
    assert_eq!(normalize("Hello, World!"), "hello world");
}

#[test]
fn normalize_collapses_whitespace_and_trims() {
    assert_eq!(normalize("  A\t\tB   c  "), "a b c");
    assert_eq!(normalize(""), "");
    assert_eq!(normalize("!!!"), "");
}

#[test]
fn extract_keeps_raw_fields() {
    let f = extract("Code", "Main.rs — X", Some("ocr"));
    assert_eq!(f.process_name, "Code");
    assert_eq!(f.window_title, "Main.rs — X");
    assert_eq!(f.ocr_text.as_deref(), Some("ocr"));
    assert_eq!(f.combined_text, "code main rs x ocr");
    let g = extract("Code", "Main", None);
    assert_eq!(g.ocr_text, None);
    assert_eq!(g.combined_text, "code main");
}

#[test]
fn normalized_text_is_single_spaced() {
    let n = tracey::classification::feature_extractor::normalize("  --Hello,,  World!!\t\u{3000}x ");
    assert_eq!(n, "hello world x");
    assert!(!n.starts_with(' ') && !n.ends_with(' ') && !n.contains("  "));
}

#[test]
fn whitespace_matches_std() {
    for v in 0u32..=0x10FFFF {
        if let Some(c) = char::from_u32(v) {
            assert_eq!(tracey::text::is_whitespace(c), c.is_whitespace(), "U+{:04X}", v);
        }
    }
}
