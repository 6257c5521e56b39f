use imgpress::report::{short_str, ELLIPSIS};

#[test]
fn short_text_is_kept() {
    assert_eq!(short_str("", 0), "");
    assert_eq!(short_str("abc", 3), "abc");
    assert_eq!(short_str("abc", 50), "abc");
}

#[test]
fn long_text_is_cut_and_marked() {
    assert_eq!(ELLIPSIS, "...");
    assert_eq!(short_str("abcdef", 3), "abc...");
    assert_eq!(short_str("abcdef", 0), "...");
    let long = "x".repeat(60);
    assert_eq!(short_str(&long, 50), format!("{}...", "x".repeat(50)));
}

#[test]
fn length_is_counted_in_bytes() {
    // Two characters of two bytes each, then one of one byte.
    let text = "\u{e9}\u{e8}a";
    assert_eq!(text.len(), 5);
    assert_eq!(short_str(text, 5), text);
    assert_eq!(short_str(text, 4), "\u{e9}\u{e8}...");
    assert_eq!(short_str(text, 2), "\u{e9}...");
}
