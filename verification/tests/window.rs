use mal::buffer::Color;
use mal::caret::Position;
use mal::screen::{Face, Run};
use mal::window::{Key, Reaction, Window};

fn at(row: usize, col: usize) -> Position {
    Position { row, col, range: 0 }
}

fn label(y: usize, text: &str) -> Run {
    Run { x: 0, y, face: Face::Bold, fg: Color::Yellow, bg: Color::Black, text: String::from(text) }
}

fn text(x: usize, y: usize, face: Face, text: &str) -> Run {
    Run { x, y, face, fg: Color::White, bg: Color::Black, text: String::from(text) }
}

fn info(y: usize, text: &str) -> Run {
    Run { x: 0, y, face: Face::Normal, fg: Color::White, bg: Color::Blue, text: String::from(text) }
}

fn type_text(window: &mut Window, text: &str) {
    for c in text.chars() {
        assert_eq!(window.press(Key::Char(c)), Reaction::Redraw);
    }
}

#[test]
fn new_window_shows_an_empty_document() {
    let window = Window::new(10, 4);
    assert_eq!(window.editor().len(), 1);
    assert_eq!(window.editor().carets, vec![at(0, 0)]);
    assert_eq!(
        window.frame(),
        Some(vec![
            label(0, "1"),
            text(2, 0, Face::Normal, ""),
            text(2, 0, Face::Reverse, " "),
            text(3, 0, Face::Normal, ""),
            info(3, "       1:1"),
        ])
    );
}

#[test]
fn typing_and_enter_through_keys() {
    let mut window = Window::new(12, 5);
    type_text(&mut window, "ab");
    assert_eq!(window.press(Key::Enter), Reaction::Redraw);
    type_text(&mut window, "c");
    assert_eq!(window.editor().get_all(), "ab\nc");
    assert_eq!(window.editor().carets, vec![at(1, 1)]);
    assert_eq!(window.format_info(), Some(String::from("         2:2")));
    assert_eq!(
        window.frame(),
        Some(vec![
            label(0, "1"),
            text(2, 0, Face::Normal, "ab"),
            label(1, "2"),
            text(2, 1, Face::Normal, "c"),
            text(3, 1, Face::Reverse, " "),
            text(4, 1, Face::Normal, ""),
            info(4, "         2:2"),
        ])
    );
}

#[test]
fn escape_quits_and_other_keys_do_nothing() {
    let mut window = Window::new(10, 4);
    type_text(&mut window, "x");
    assert_eq!(window.press(Key::Esc), Reaction::Quit);
    assert_eq!(window.press(Key::Other), Reaction::Nothing);
    assert_eq!(window.editor().get_all(), "x");
    assert_eq!(window.editor().carets, vec![at(0, 1)]);
}

#[test]
fn backspace_and_arrows_through_keys() {
    let mut window = Window::new(10, 4);
    window.load("abc\ndef");
    assert_eq!(window.press(Key::Down), Reaction::Redraw);
    assert_eq!(window.editor().carets, vec![at(1, 0)]);
    assert_eq!(window.press(Key::Left), Reaction::Redraw);
    assert_eq!(window.editor().carets, vec![at(0, 3)]);
    assert_eq!(window.press(Key::Right), Reaction::Redraw);
    assert_eq!(window.editor().carets, vec![at(1, 0)]);
    assert_eq!(window.press(Key::Backspace), Reaction::Redraw);
    assert_eq!(window.editor().get_all(), "abcdef");
    assert_eq!(window.editor().carets, vec![at(0, 3)]);
    assert_eq!(window.press(Key::Up), Reaction::Redraw);
    assert_eq!(window.editor().carets, vec![at(0, 0)]);
    assert_eq!(window.press(Key::End), Reaction::Redraw);
    assert_eq!(window.editor().carets, vec![at(0, 6)]);
    assert_eq!(window.press(Key::Home), Reaction::Redraw);
    assert_eq!(window.editor().carets, vec![at(0, 0)]);
}

#[test]
fn window_follows_the_caret_down_and_up() {
    let mut window = Window::new(10, 3);
    window.load("a\nb\nc\nd");
    window.fit_line_numbers();
    assert_eq!(window.press(Key::Down), Reaction::Redraw);
    assert_eq!(
        window.frame(),
        Some(vec![
            label(0, "1"),
            text(2, 0, Face::Normal, "a"),
            label(1, "2"),
            text(2, 1, Face::Normal, ""),
            text(2, 1, Face::Reverse, "b"),
            text(3, 1, Face::Normal, ""),
            info(2, "       2:1"),
        ])
    );
    assert_eq!(window.press(Key::Down), Reaction::Redraw);
    assert_eq!(
        window.frame(),
        Some(vec![
            label(0, "2"),
            text(2, 0, Face::Normal, "b"),
            label(1, "3"),
            text(2, 1, Face::Normal, ""),
            text(2, 1, Face::Reverse, "c"),
            text(3, 1, Face::Normal, ""),
            info(2, "       3:1"),
        ])
    );
    assert_eq!(window.press(Key::Up), Reaction::Redraw);
    assert_eq!(window.press(Key::Up), Reaction::Redraw);
    assert_eq!(
        window.frame(),
        Some(vec![
            label(0, "1"),
            text(2, 0, Face::Normal, ""),
            text(2, 0, Face::Reverse, "a"),
            text(3, 0, Face::Normal, ""),
            label(1, "2"),
            text(2, 1, Face::Normal, "b"),
            info(2, "       1:1"),
        ])
    );
}

#[test]
fn paging_moves_by_the_window_height_less_one() {
    let mut window = Window::new(10, 4);
    window.load("0\n1\n2\n3\n4\n5\n6\n7\n8\n9");
    window.fit_line_numbers();
    assert_eq!(window.press(Key::PageDown), Reaction::Redraw);
    assert_eq!(window.editor().carets, vec![at(2, 0)]);
    assert_eq!(window.frame().unwrap()[0], label(0, " 1"));
    assert_eq!(window.press(Key::PageDown), Reaction::Redraw);
    assert_eq!(window.editor().carets, vec![at(4, 0)]);
    assert_eq!(window.frame().unwrap()[0], label(0, " 3"));
    assert_eq!(window.press(Key::PageUp), Reaction::Redraw);
    assert_eq!(window.editor().carets, vec![at(2, 0)]);
    assert_eq!(window.frame().unwrap()[0], label(0, " 3"));
    assert_eq!(window.press(Key::End), Reaction::Redraw);
    assert_eq!(window.editor().carets, vec![at(9, 1)]);
    assert_eq!(
        window.frame(),
        Some(vec![
            label(0, "10"),
            text(3, 0, Face::Normal, "9"),
            text(4, 0, Face::Reverse, " "),
            text(5, 0, Face::Normal, ""),
            info(3, "      10:2"),
        ])
    );
    assert_eq!(window.press(Key::Home), Reaction::Redraw);
    assert_eq!(window.frame().unwrap()[0], label(0, " 1"));
}

#[test]
fn enter_widens_the_line_numbers() {
    let mut window = Window::new(10, 20);
    window.load("1\n2\n3\n4\n5\n6\n7\n8\n9");
    window.fit_line_numbers();
    assert_eq!(window.frame().unwrap()[0], label(0, "1"));
    assert_eq!(window.press(Key::Enter), Reaction::Redraw);
    assert_eq!(window.editor().len(), 10);
    assert_eq!(window.frame().unwrap()[0], label(0, " 1"));
}

#[test]
fn frame_is_undefined_where_a_label_does_not_fit() {
    let mut window = Window::new(10, 20);
    window.load("1\n2\n3\n4\n5\n6\n7\n8\n9\n10");
    assert_eq!(window.frame(), None);
    window.fit_line_numbers();
    assert!(window.frame().is_some());
}

#[test]
fn status_line_is_undefined_where_it_does_not_fit() {
    let mut window = Window::new(2, 4);
    assert_eq!(window.format_info(), None);
    assert_eq!(window.info_run(), None);
    assert_eq!(window.frame(), None);
    let window = Window::new(3, 4);
    assert_eq!(window.format_info(), Some(String::from("1:1")));
    assert_eq!(window.info_run(), Some(info(3, "1:1")));
}

#[test]
fn click_sends_the_caret_below_the_window() {
    let mut window = Window::new(10, 3);
    window.load("abc\ndef\nghi\njkl");
    assert_eq!(window.click(2, 1), Reaction::Nothing);
    assert_eq!(window.editor().carets, vec![at(3, 2)]);
    assert_eq!(window.click(7, usize::MAX), Reaction::Fault);
    assert_eq!(window.editor().carets, vec![at(3, 2)]);
    assert_eq!(window.click(7, 9), Reaction::Nothing);
    assert_eq!(window.editor().carets, vec![at(11, 7)]);
}

#[test]
fn keys_fault_where_the_caret_is_outside_the_document() {
    let mut window = Window::new(10, 3);
    window.load("abc");
    assert_eq!(window.click(1, 5), Reaction::Nothing);
    for key in [
        Key::Enter,
        Key::Backspace,
        Key::PageUp,
        Key::PageDown,
        Key::Left,
        Key::Right,
        Key::Up,
        Key::Down,
        Key::Char('x'),
    ] {
        assert_eq!(window.press(key), Reaction::Fault);
        assert_eq!(window.editor().carets, vec![at(7, 1)]);
        assert_eq!(window.editor().get_all(), "abc");
    }
    assert_eq!(window.frame().map(|runs| runs.len()), Some(3));
    assert_eq!(window.press(Key::Home), Reaction::Redraw);
    assert_eq!(window.editor().carets, vec![at(0, 0)]);
    assert_eq!(window.press(Key::Char('x')), Reaction::Redraw);
    assert_eq!(window.editor().get_all(), "xabc");
}

#[test]
fn frame_is_undefined_where_the_caret_is_behind_its_line() {
    let mut window = Window::new(10, 9);
    window.load("abc\nd");
    type_text(&mut window, "x");
    assert_eq!(window.press(Key::End), Reaction::Redraw);
    assert_eq!(window.press(Key::Home), Reaction::Redraw);
    assert_eq!(window.press(Key::Right), Reaction::Redraw);
    assert_eq!(window.press(Key::Right), Reaction::Redraw);
    assert_eq!(window.press(Key::Right), Reaction::Redraw);
    assert_eq!(window.editor().carets, vec![at(0, 3)]);
    assert!(window.frame().is_some());
    window.load("ab\ncd");
    assert_eq!(window.editor().carets, vec![at(0, 3)]);
    assert_eq!(window.frame(), None);
}

#[test]
fn paging_faults_in_a_window_without_text_rows() {
    let mut window = Window::new(10, 1);
    assert_eq!(window.press(Key::PageUp), Reaction::Fault);
    assert_eq!(window.press(Key::PageDown), Reaction::Fault);
    assert_eq!(window.frame(), Some(vec![info(0, "       1:1")]));
}

#[test]
fn frame_reverses_the_selection_in_select_mode_only() {
    let mut window = Window::new(10, 4);
    window.load("hello");
    window.editor_mut().mode_select();
    assert_eq!(window.press(Key::Right), Reaction::Redraw);
    assert_eq!(window.press(Key::Right), Reaction::Redraw);
    assert_eq!(window.editor().carets, vec![Position { row: 0, col: 0, range: 2 }]);
    assert_eq!(
        window.frame(),
        Some(vec![
            label(0, "1"),
            text(2, 0, Face::Normal, ""),
            text(2, 0, Face::Reverse, "hel"),
            text(5, 0, Face::Normal, "lo"),
            info(3, "       1:1"),
        ])
    );
    window.editor_mut().mode_normal();
    assert_eq!(
        window.frame(),
        Some(vec![
            label(0, "1"),
            text(2, 0, Face::Normal, ""),
            text(2, 0, Face::Reverse, "h"),
            text(3, 0, Face::Normal, "ello"),
            info(3, "       1:1"),
        ])
    );
}

#[test]
fn editor_behind_the_window_can_be_changed() {
    let mut window = Window::new(10, 4);
    window.editor_mut().insert(String::from("abc"));
    window.editor_mut().carets.push(at(0, 1));
    assert_eq!(window.editor().get_all(), "abc");
    assert_eq!(window.press(Key::Home), Reaction::Redraw);
    assert_eq!(window.editor().carets, vec![at(0, 0), at(0, 0)]);
}
