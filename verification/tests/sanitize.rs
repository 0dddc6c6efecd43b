use refix::text::{is_blank, sanitize, trim_text};

#[test]
fn strips_quotes_and_prefix() {
    assert_eq!(sanitize("\"Improved text: Hello world\""), "Hello world");
}

#[test]
fn idempotent_on_typical_output() {
    let once = sanitize("\"Here's the improved text: Good day.\"");
    assert_eq!(once, "Good day.");
    assert_eq!(sanitize(&once), once);
}

#[test]
fn idempotent_on_plain_text() {
    let once = sanitize("nothing to remove");
    assert_eq!(sanitize(&once), once);
}

#[test]
fn doubly_wrapped_input_shrinks_again() {
    // One pass strips only the outer layer, so the residual quotes go
    // in a second pass: the one family of inputs where a single pass
    // is not a fixed point.
    let once = sanitize("'\"a\"'");
    assert_eq!(once, "\"a\"");
    assert_eq!(sanitize(&once), "a");
}

#[test]
fn empty_input_stays_empty() {
    assert_eq!(sanitize(""), "");
}

#[test]
fn whitespace_only_becomes_empty() {
    assert_eq!(sanitize("   "), "");
}

#[test]
fn strips_single_quotes() {
    assert_eq!(sanitize("'hello'"), "hello");
}

#[test]
fn strips_one_quote_layer_only() {
    assert_eq!(sanitize("''x''"), "'x'");
}

#[test]
fn strips_each_known_prefix() {
    assert_eq!(sanitize("Text: a"), "a");
    assert_eq!(sanitize("Improved text: b"), "b");
    assert_eq!(sanitize("Refactored text: c"), "c");
    assert_eq!(sanitize("Here's the improved text: d"), "d");
    assert_eq!(sanitize("The improved version: e"), "e");
    assert_eq!(sanitize("Improved: f"), "f");
    assert_eq!(sanitize("Refactored: g"), "g");
}

#[test]
fn strips_at_most_one_prefix() {
    assert_eq!(sanitize("Text: Improved text: x"), "Improved text: x");
}

#[test]
fn keeps_interior_quotes() {
    assert_eq!(sanitize("say \"hi\" now"), "say \"hi\" now");
}

#[test]
fn trims_surrounding_whitespace() {
    assert_eq!(trim_text("  a b  "), "a b");
    assert_eq!(trim_text("\t\n x \r\n"), "x");
    assert_eq!(trim_text(""), "");
}

#[test]
fn blank_detection() {
    assert!(is_blank(""));
    assert!(is_blank("   "));
    assert!(is_blank(" \t\r\n"));
    assert!(is_blank("\u{a0}\u{2003}"));
    assert!(!is_blank(" x "));
}
