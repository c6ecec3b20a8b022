//! Paste-safe tokens.

use gearwit::sanitize::{MAX_TERM, paste_field, paste_token};

#[test]
fn newline_is_rejected() {
    assert_eq!(paste_token("ghostty\nwait_result: matched", MAX_TERM), None);
    assert_eq!(
        paste_field("ghostty\nwait_result: matched", MAX_TERM),
        "rejected"
    );
}

#[test]
fn ansi_escape_is_rejected() {
    assert_eq!(paste_token("\u{1b}[31mghostty", MAX_TERM), None);
}

#[test]
fn ordinary_term_is_kept() {
    assert_eq!(paste_token("ghostty", MAX_TERM), Some("ghostty"));
}
