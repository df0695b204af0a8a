use mal::line::{chars_of, EditableLine, LineBuffer};
use mal::text::TextBuffer;

fn line_of(text: &str) -> LineBuffer {
    text.chars().collect()
}

#[test]
fn new_line_is_empty() {
    let line = <LineBuffer as EditableLine>::new();
    assert_eq!(line.len(), 0);
    assert_eq!(line.extract(), "");
}

#[test]
fn chars_of_keeps_order() {
    assert_eq!(chars_of("héllo"), vec!['h', 'é', 'l', 'l', 'o']);
    assert_eq!(chars_of(""), Vec::<char>::new());
}

#[test]
fn input_front_keeps_text_order() {
    let mut line = line_of("world");
    let count = line.input_front(String::from("Hello "));
    assert_eq!(count, 6);
    assert_eq!(line.extract(), "Hello world");
}

#[test]
fn input_back_appends() {
    let mut line = line_of("Hello");
    let count = line.input_back(String::from(" world"));
    assert_eq!(count, 6);
    assert_eq!(line.extract(), "Hello world");
}

#[test]
fn input_at_places_text_at_index() {
    let mut line = line_of("Held");
    let count = line.input_at(&3, String::from("lo worl"));
    assert_eq!(count, 7);
    assert_eq!(line.extract(), "Hello world");
}

#[test]
fn input_counts_characters_not_bytes() {
    let mut line = line_of("ab");
    assert_eq!(line.input_at(&1, String::from("é√")), 2);
    assert_eq!(line.extract(), "aé√b");
}

#[test]
fn input_of_empty_text_changes_nothing() {
    let mut line = line_of("abc");
    assert_eq!(line.input_front(String::new()), 0);
    assert_eq!(line.input_back(String::new()), 0);
    assert_eq!(line.input_at(&1, String::new()), 0);
    assert_eq!(line.input_at(&9, String::new()), 0);
    assert_eq!(line.extract(), "abc");
}

#[test]
fn three_input_paths_agree_with_single_inserts() {
    let text = "xyz";
    for col in 0..=4usize {
        let mut one_by_one = line_of("abcd");
        for (stride, c) in text.chars().enumerate() {
            one_by_one.insert(col + stride, c);
        }
        let mut at = line_of("abcd");
        at.input_at(&col, String::from(text));
        assert_eq!(at, one_by_one);
        if col == 0 {
            let mut front = line_of("abcd");
            front.input_front(String::from(text));
            assert_eq!(front, one_by_one);
        }
        if col == 4 {
            let mut back = line_of("abcd");
            back.input_back(String::from(text));
            assert_eq!(back, one_by_one);
        }
    }
}

#[test]
fn new_buffer_has_one_empty_line() {
    let buffer = TextBuffer::new();
    assert_eq!(buffer.len(), 1);
    assert_eq!(buffer.get(0).unwrap().len(), 0);
    assert!(buffer.get(1).is_none());
    assert_eq!(buffer.extract(), "");
}

#[test]
fn buffer_new_line_and_remove() {
    let mut buffer = TextBuffer::new();
    buffer.new_line(1, line_of("second"));
    buffer.new_line(0, line_of("first"));
    assert_eq!(buffer.len(), 3);
    assert_eq!(buffer.extract(), "first\n\nsecond");
    let removed = buffer.remove(1);
    assert_eq!(removed, Some(line_of("")));
    assert_eq!(buffer.extract(), "first\nsecond");
    assert_eq!(buffer.remove(5), None);
    assert_eq!(buffer.len(), 2);
    assert_eq!(buffer.back(), Some(&line_of("second")));
}

#[test]
fn buffer_get_mut_changes_one_line() {
    let mut buffer = TextBuffer::new();
    buffer.load("ab\ncd\nef");
    buffer.get_mut(1).unwrap().push_back('!');
    assert_eq!(buffer.extract(), "ab\ncd!\nef");
    assert!(buffer.get_mut(3).is_none());
}

#[test]
fn load_splits_on_line_ends() {
    let mut buffer = TextBuffer::new();
    buffer.load("ab\ncd");
    assert_eq!(buffer.len(), 2);
    assert_eq!(buffer.get(0), Some(&line_of("ab")));
    assert_eq!(buffer.get(1), Some(&line_of("cd")));
}

#[test]
fn load_of_empty_text_gives_one_empty_line() {
    let mut buffer = TextBuffer::new();
    buffer.load("abc\ndef");
    buffer.load("");
    assert_eq!(buffer.len(), 1);
    assert_eq!(buffer.get(0), Some(&line_of("")));
}

#[test]
fn load_ignores_one_trailing_line_end() {
    let mut buffer = TextBuffer::new();
    buffer.load("ab\ncd\n");
    assert_eq!(buffer.len(), 2);
    assert_eq!(buffer.extract(), "ab\ncd");
    buffer.load("ab\n\n");
    assert_eq!(buffer.len(), 2);
    assert_eq!(buffer.extract(), "ab\n");
    buffer.load("\n");
    assert_eq!(buffer.len(), 1);
    assert_eq!(buffer.extract(), "");
}

#[test]
fn load_strips_carriage_return_before_line_feed_only() {
    let mut buffer = TextBuffer::new();
    buffer.load("ab\r\ncd\r");
    assert_eq!(buffer.len(), 2);
    assert_eq!(buffer.get(0), Some(&line_of("ab")));
    assert_eq!(buffer.get(1), Some(&line_of("cd\r")));
    buffer.load("a\rb\r\r\n");
    assert_eq!(buffer.len(), 1);
    assert_eq!(buffer.get(0), Some(&line_of("a\rb\r")));
}

#[test]
fn load_then_extract_is_lines_rejoined() {
    let samples = [
        "",
        "a",
        "\n",
        "\n\n",
        "a\n",
        "a\nb",
        "a\r\nb\r\n",
        "\r\n",
        "\r",
        "a\r",
        "a\n\nb\n\n",
        "one\ntwo\r\nthree\rfour\n\r\nfive",
        "héllo\nwörld\n",
    ];
    for sample in samples {
        let mut buffer = TextBuffer::new();
        buffer.load(sample);
        let expected: Vec<&str> = sample.lines().collect();
        assert_eq!(buffer.extract(), expected.join("\n"));
        assert_eq!(buffer.len(), expected.len().max(1));
        assert!(buffer.len() >= 1);
    }
}
