use ugs_metadata::text::{sanitize_text, str_eq};

#[test]
fn sanitize_short_text_unchanged() {
    assert_eq!(sanitize_text("hello", 200), "hello");
    assert_eq!(sanitize_text("", 200), "");
}

#[test]
fn sanitize_exact_boundary_unchanged() {
    let t = "x".repeat(200);
    assert_eq!(sanitize_text(&t, 200), t);
}

#[test]
fn sanitize_no_newline_cuts_with_marker() {
    let t = "a".repeat(250);
    let out = sanitize_text(&t, 200);
    let expected = format!("{}...", "a".repeat(197));
    assert_eq!(out, expected);
    assert_eq!(out.chars().count(), 200);
}

#[test]
fn sanitize_cuts_after_last_newline() {
    let t = format!("abc\n{}", "x".repeat(20));
    assert_eq!(sanitize_text(&t, 10), "abc\n...");
}

#[test]
fn sanitize_prefers_latest_newline() {
    let t = format!("a\nb\nc\n{}", "x".repeat(20));
    assert_eq!(sanitize_text(&t, 10), "a\nb\nc\n...");
}

#[test]
fn sanitize_idempotent_on_plain_cut() {
    let t = "a".repeat(250);
    let once = sanitize_text(&t, 200);
    assert_eq!(sanitize_text(&once, 200), once);
}

#[test]
fn sanitize_idempotent_on_newline_cut() {
    let t = format!("abc\n{}", "x".repeat(20));
    let once = sanitize_text(&t, 10);
    assert_eq!(sanitize_text(&once, 10), once);
}

#[test]
fn sanitize_idempotent_when_newline_sits_at_the_edge() {
    // The newline falls on the last position of the prefix, so the output
    // overshoots the limit; a second pass still changes nothing.
    let t = format!("abcd\n{}", "x".repeat(20));
    let once = sanitize_text(&t, 5);
    assert_eq!(once, "abcd\n...");
    assert_eq!(sanitize_text(&once, 5), once);
}

#[test]
fn str_eq_agrees_with_equality() {
    assert!(str_eq("", ""));
    assert!(str_eq("abc", "abc"));
    assert!(!str_eq("abc", "abd"));
    assert!(!str_eq("abc", "abcd"));
    assert!(str_eq("naïve", "naïve"));
}
