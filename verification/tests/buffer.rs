use ecto::{Buffer, LoadError, GREETING};

fn lines_of(text: &str) -> Vec<String> {
    Buffer::from_text(text).data
}

#[test]
fn loading_joined_lines_gives_the_lines_back() {
    let buffer = Buffer::load("a\nbb\nccc".as_bytes()).unwrap();
    assert_eq!(buffer.data, vec!["a", "bb", "ccc"]);
    assert!(!buffer.is_empty());
}

#[test]
fn a_final_line_feed_adds_no_line() {
    assert_eq!(lines_of("a\nbb\nccc\n"), vec!["a", "bb", "ccc"]);
    assert_eq!(lines_of("a\n"), vec!["a"]);
}

#[test]
fn a_text_without_characters_has_no_lines() {
    assert_eq!(lines_of(""), Vec::<String>::new());
    assert!(Buffer::from_text("").is_empty());
    assert!(Buffer::load(&[]).unwrap().is_empty());
}

#[test]
fn empty_lines_are_kept() {
    assert_eq!(lines_of("\n"), vec![""]);
    assert_eq!(lines_of("\n\n"), vec!["", ""]);
    assert_eq!(lines_of("a\n\nb"), vec!["a", "", "b"]);
    assert!(!Buffer::from_text("\n").is_empty());
}

#[test]
fn a_carriage_return_before_a_line_feed_belongs_to_the_ending() {
    assert_eq!(lines_of("a\r\nbb\r\n"), vec!["a", "bb"]);
    assert_eq!(lines_of("\r\n"), vec![""]);
}

#[test]
fn only_one_carriage_return_is_taken_off() {
    assert_eq!(lines_of("a\r\r\nb"), vec!["a\r", "b"]);
}

#[test]
fn other_carriage_returns_are_kept() {
    assert_eq!(lines_of("a\rb\nc"), vec!["a\rb", "c"]);
    assert_eq!(lines_of("a\r"), vec!["a\r"]);
    assert_eq!(lines_of("a\nb\r"), vec!["a", "b\r"]);
    assert_eq!(lines_of("\r"), vec!["\r"]);
}

#[test]
fn splitting_agrees_with_the_lines_of_std() {
    let texts = [
        "",
        "\n",
        "\r",
        "\r\n",
        "\n\r",
        "a",
        "a\n",
        "a\r\n",
        "a\n\r\nb\r",
        "one\ntwo\r\nthree\r\r\n\nfour",
        "tab\tand space \n\n\n",
        "\u{e9}t\u{e9}\n\u{65e5}\u{672c}\u{8a9e}\r\n\u{1f600}",
    ];
    for text in texts {
        let expected: Vec<String> = text.lines().map(|line| line.to_string()).collect();
        assert_eq!(lines_of(text), expected, "{text:?}");
    }
}

#[test]
fn characters_of_several_bytes_are_kept_whole() {
    let buffer = Buffer::load("h\u{e9}llo\nw\u{f6}rld".as_bytes()).unwrap();
    assert_eq!(buffer.data, vec!["h\u{e9}llo", "w\u{f6}rld"]);
}

#[test]
fn bytes_that_are_not_utf8_are_refused() {
    assert_eq!(Buffer::load(&[0x61, 0xff, 0x62]).err(), Some(LoadError::InvalidEncoding));
    // A character cut off before its last byte.
    assert_eq!(Buffer::load(&[0x61, 0xc3]).err(), Some(LoadError::InvalidEncoding));
    // An encoding longer than the character needs.
    assert_eq!(Buffer::load(&[0xc0, 0x80]).err(), Some(LoadError::InvalidEncoding));
}

#[test]
fn the_default_buffer_is_one_line_of_greeting() {
    let buffer = Buffer::default();
    assert_eq!(buffer.data, vec!["Hello, World!"]);
    assert_eq!(GREETING, "Hello, World!");
    assert!(!buffer.is_empty());
}

#[test]
fn is_empty_tells_whether_there_are_lines() {
    assert!(Buffer { data: Vec::new() }.is_empty());
    assert!(!Buffer { data: vec![String::new()] }.is_empty());
}
