use taino_dnd::scroll::is_scroll_value;

#[test]
fn scroll_values_are_recognised() {
    assert!(is_scroll_value("auto"));
    assert!(is_scroll_value("scroll"));
    assert!(is_scroll_value("overlay"));
    assert!(is_scroll_value("  auto\t"));
    assert!(is_scroll_value("\nscroll "));
}

#[test]
fn other_overflow_values_are_not_scroll() {
    assert!(!is_scroll_value("visible"));
    assert!(!is_scroll_value("hidden"));
    assert!(!is_scroll_value("clip"));
    assert!(!is_scroll_value(""));
    assert!(!is_scroll_value("   "));
    assert!(!is_scroll_value("Auto"));
    assert!(!is_scroll_value("auto scroll"));
}

#[test]
fn unicode_white_space_is_trimmed() {
    assert!(is_scroll_value("\u{00A0}overlay\u{3000}"));
    assert!(is_scroll_value("\u{2003}auto"));
}
