use zellij_notify::codec::annotate;
use zellij_notify::codec::strip;

#[test]
fn strip_removes_trailing_glyph() {
    assert_eq!(strip("build \u{26A1}"), "build");
}

#[test]
fn strip_removes_stacked_glyphs_and_whitespace() {
    assert_eq!(strip("build \u{2705} \u{274C}  "), "build");
    assert_eq!(strip("work \u{26A0}\u{FE0F}"), "work");
    assert_eq!(strip("party \u{1F389}\u{1F534}\u{1F4BC}"), "party");
}

#[test]
fn strip_is_noop_on_clean_label() {
    assert_eq!(strip("shell"), "shell");
    assert_eq!(strip(""), "");
    assert_eq!(strip("mid \u{2705} point"), "mid \u{2705} point");
}

#[test]
fn strip_is_idempotent() {
    let once = strip("build \u{26A1}  \u{2753} ");
    let twice = strip(&once);
    assert_eq!(once, twice);
    assert_eq!(once, "build");
}

#[test]
fn strip_never_lengthens() {
    for label in ["", "a", "tab \u{2705}", "  ", "\u{26A0}\u{FE0F}", "plain name"] {
        assert!(strip(label).chars().count() <= label.chars().count());
    }
}

#[test]
fn strip_keeps_bare_warning_sign() {
    // Only the two-character warning glyph is in the alphabet; the bare sign stays.
    assert_eq!(strip("careful \u{26A0}"), "careful \u{26A0}");
}

#[test]
fn annotate_appends_glyph_after_space() {
    assert_eq!(annotate("build", "\u{2705}"), "build \u{2705}");
}

#[test]
fn round_trip_returns_base() {
    assert_eq!(strip(&annotate("build", "\u{2705}")), "build");
    assert_eq!(strip(&annotate("build", "\u{26A0}\u{FE0F}")), "build");
}

#[test]
fn reannotation_replaces_rather_than_stacks() {
    let first = annotate("build", "\u{26A1}");
    let second = annotate(&strip(&first), "\u{1F534}");
    assert_eq!(second, annotate("build", "\u{1F534}"));
}
