use mal::buffer::Color;
use mal::caret::Position;
use mal::line::LineBuffer;
use mal::screen::{decimal_text, push_decimal, right_aligned_text, row_runs, Face, Run};

fn line_of(text: &str) -> LineBuffer {
    text.chars().collect()
}

fn label(y: usize, text: &str) -> Run {
    Run { x: 0, y, face: Face::Bold, fg: Color::Yellow, bg: Color::Black, text: String::from(text) }
}

fn text(x: usize, y: usize, face: Face, text: &str) -> Run {
    Run { x, y, face, fg: Color::White, bg: Color::Black, text: String::from(text) }
}

#[test]
fn right_aligned_text_pads_on_the_left() {
    assert_eq!(right_aligned_text("12", 5), "   12");
    assert_eq!(right_aligned_text("12", 2), "12");
    assert_eq!(right_aligned_text("", 3), "   ");
    assert_eq!(right_aligned_text("", 0), "");
    assert_eq!(right_aligned_text("é√", 3), " é√");
}

#[test]
fn decimal_text_of_numbers() {
    assert_eq!(decimal_text(0), "0");
    assert_eq!(decimal_text(7), "7");
    assert_eq!(decimal_text(10), "10");
    assert_eq!(decimal_text(1234567890), "1234567890");
    assert_eq!(decimal_text(usize::MAX), usize::MAX.to_string());
    for n in 0..1200usize {
        assert_eq!(decimal_text(n), n.to_string());
    }
}

#[test]
fn push_decimal_appends() {
    let mut text = String::from("row ");
    push_decimal(&mut text, 42);
    assert_eq!(text, "row 42");
}

#[test]
fn row_without_caret_is_label_and_line() {
    let runs = row_runs(&line_of("hello"), 0, 0, 2, None, false);
    assert_eq!(runs, vec![label(0, " 1"), text(3, 0, Face::Normal, "hello")]);
    let runs = row_runs(&line_of(""), 11, 4, 2, None, true);
    assert_eq!(runs, vec![label(4, "12"), text(3, 4, Face::Normal, "")]);
}

#[test]
fn row_with_caret_inside_the_line() {
    let caret = Position { row: 0, col: 2, range: 0 };
    let runs = row_runs(&line_of("hello"), 0, 0, 1, Some(caret), false);
    assert_eq!(
        runs,
        vec![
            label(0, "1"),
            text(2, 0, Face::Normal, "he"),
            text(4, 0, Face::Reverse, "l"),
            text(5, 0, Face::Normal, "lo"),
        ]
    );
}

#[test]
fn row_with_caret_at_the_end_shows_a_blank() {
    let caret = Position { row: 3, col: 5, range: 0 };
    let runs = row_runs(&line_of("hello"), 3, 1, 3, Some(caret), false);
    assert_eq!(
        runs,
        vec![
            label(1, "  4"),
            text(4, 1, Face::Normal, "hello"),
            text(9, 1, Face::Reverse, " "),
            text(10, 1, Face::Normal, ""),
        ]
    );
    let caret = Position { row: 0, col: 0, range: 0 };
    let runs = row_runs(&line_of(""), 0, 0, 1, Some(caret), false);
    assert_eq!(
        runs,
        vec![
            label(0, "1"),
            text(2, 0, Face::Normal, ""),
            text(2, 0, Face::Reverse, " "),
            text(3, 0, Face::Normal, ""),
        ]
    );
}

#[test]
fn row_in_select_mode_reverses_the_selection() {
    let caret = Position { row: 0, col: 1, range: 2 };
    let runs = row_runs(&line_of("hello"), 0, 0, 1, Some(caret), true);
    assert_eq!(
        runs,
        vec![
            label(0, "1"),
            text(2, 0, Face::Normal, "h"),
            text(3, 0, Face::Reverse, "ell"),
            text(6, 0, Face::Normal, "o"),
        ]
    );
    let runs = row_runs(&line_of("hello"), 0, 0, 1, Some(caret), false);
    assert_eq!(
        runs,
        vec![
            label(0, "1"),
            text(2, 0, Face::Normal, "h"),
            text(3, 0, Face::Reverse, "e"),
            text(4, 0, Face::Normal, "llo"),
        ]
    );
}

#[test]
fn row_selection_is_cut_at_the_ends_of_the_line() {
    let caret = Position { row: 0, col: 3, range: 40 };
    let runs = row_runs(&line_of("hello"), 0, 0, 1, Some(caret), true);
    assert_eq!(
        runs,
        vec![
            label(0, "1"),
            text(2, 0, Face::Normal, "hel"),
            text(5, 0, Face::Reverse, "lo"),
            text(7, 0, Face::Normal, ""),
        ]
    );
    let caret = Position { row: 0, col: 3, range: isize::MAX };
    let runs = row_runs(&line_of("hello"), 0, 0, 1, Some(caret), true);
    assert_eq!(runs[2], text(5, 0, Face::Reverse, "lo"));
    let caret = Position { row: 0, col: 3, range: -2 };
    let runs = row_runs(&line_of("hello"), 0, 0, 1, Some(caret), true);
    assert_eq!(
        runs,
        vec![
            label(0, "1"),
            text(2, 0, Face::Normal, "h"),
            text(3, 0, Face::Reverse, "ell"),
            text(6, 0, Face::Normal, "o"),
        ]
    );
    let caret = Position { row: 0, col: 5, range: isize::MIN };
    let runs = row_runs(&line_of("hello"), 0, 0, 1, Some(caret), true);
    assert_eq!(
        runs,
        vec![
            label(0, "1"),
            text(2, 0, Face::Normal, ""),
            text(2, 0, Face::Reverse, "hello "),
            text(8, 0, Face::Normal, ""),
        ]
    );
}
