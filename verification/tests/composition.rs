use muxde::application::compose_status;
use muxde::width::take_cols;

#[test]
fn take_cols_keeps_what_fits() {
    let (s, w) = take_cols("hello", 3);
    assert_eq!(s.as_str(), "hel");
    assert_eq!(w, 3);
}

#[test]
fn take_cols_keeps_everything_under_budget() {
    let (s, w) = take_cols("hi", 10);
    assert_eq!(s.as_str(), "hi");
    assert_eq!(w, 2);
}

#[test]
fn take_cols_measures_double_column_glyphs() {
    // each CJK glyph occupies two columns, so only two fit in five
    let (s, w) = take_cols("世界日", 5);
    assert_eq!(s.as_str(), "世界");
    assert_eq!(w, 4);
}

#[test]
fn take_cols_zero_budget_keeps_nothing() {
    let (s, w) = take_cols("abc", 0);
    assert_eq!(s.as_str(), "");
    assert_eq!(w, 0);
}

#[test]
fn status_line_fills_the_terminal_exactly() {
    let line = compose_status("nw", "", "new-window", false, 20);
    assert_eq!(line.show.as_str(), "nw");
    assert_eq!(line.suggestion.as_str(), "");
    assert_eq!(line.prompt.as_str(), " - new-window");
    assert!(!line.unknown);
    // 2 + 0 + 13 + 5 = 20 columns
    assert_eq!(line.pad, 5);
}

#[test]
fn status_line_without_text_has_no_separator() {
    let line = compose_status("", "", "", true, 10);
    assert_eq!(line.show.as_str(), "");
    assert_eq!(line.suggestion.as_str(), "");
    assert_eq!(line.prompt.as_str(), "");
    assert!(line.unknown);
    assert_eq!(line.pad, 10);
}

#[test]
fn status_line_truncates_wide_glyphs_to_the_column_budget() {
    // nine columns of text meet a six-column terminal: one column is held
    // back, and only two glyphs (four columns) fit the remaining five
    let line = compose_status("世界日本語", "", "", false, 6);
    assert_eq!(line.show.as_str(), "世界");
    // text precedes the prompt field, so its separator starts, and one
    // column of it fits the remaining budget
    assert_eq!(line.prompt.as_str(), " ");
    assert_eq!(line.pad, 1);
    // total: 4 columns of text + 1 separator column + 1 blank = 6 columns
}

#[test]
fn status_line_budgets_flow_left_to_right() {
    let line = compose_status("abcd", "efgh", "ij", false, 10);
    // nine columns fit: echoed text first, then the suggestion, then the
    // separator of the prompt field
    assert_eq!(line.show.as_str(), "abcd");
    assert_eq!(line.suggestion.as_str(), "efgh");
    assert_eq!(line.prompt.as_str(), " ");
    assert_eq!(line.pad, 1);
}

#[test]
fn zero_width_terminal_renders_nothing() {
    let line = compose_status("abc", "d", "e", false, 0);
    assert_eq!(line.show.as_str(), "");
    assert_eq!(line.suggestion.as_str(), "");
    assert_eq!(line.prompt.as_str(), "");
    assert_eq!(line.pad, 0);
}
