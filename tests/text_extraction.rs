use claude_code_server::selection::SelectionPosition;
use claude_code_server::text::{
    char_pos_to_byte_pos, contains, decimal_string, extract_range_text, file_path_of,
    starts_with_text, text_eq,
};

fn pos(line: u32, character: u32) -> SelectionPosition {
    SelectionPosition { line, character }
}

fn lines(ls: &[&str]) -> Vec<String> {
    ls.iter().map(|l| l.to_string()).collect()
}

#[test]
fn utf16_offsets_around_surrogate_pair() {
    let line = "a\u{1F600}b";
    assert_eq!(char_pos_to_byte_pos(line, 0), Some(0));
    assert_eq!(char_pos_to_byte_pos(line, 1), Some(1));
    // inside the surrogate pair: the start of the emoji
    assert_eq!(char_pos_to_byte_pos(line, 2), Some(1));
    assert_eq!(char_pos_to_byte_pos(line, 3), Some(5));
    assert_eq!(char_pos_to_byte_pos(line, 4), Some(6));
    assert_eq!(char_pos_to_byte_pos(line, 5), None);
}

#[test]
fn utf16_offsets_on_ascii_and_empty() {
    assert_eq!(char_pos_to_byte_pos("", 0), Some(0));
    assert_eq!(char_pos_to_byte_pos("", 1), None);
    assert_eq!(char_pos_to_byte_pos("hello", 3), Some(3));
    // two-byte and three-byte characters are one code unit each
    assert_eq!(char_pos_to_byte_pos("\u{e9}\u{20ac}x", 2), Some(5));
}

#[test]
fn multi_line_extraction() {
    let ls = lines(&["foo", "barbaz", "qux"]);
    assert_eq!(extract_range_text(&ls, pos(0, 1), pos(2, 2)), "oo\nbarbaz\nqu");
}

#[test]
fn multi_line_extraction_past_end_of_file() {
    let ls = lines(&["foo", "bar"]);
    assert_eq!(extract_range_text(&ls, pos(0, 2), pos(5, 1)), "o\nbar\n");
    assert_eq!(extract_range_text(&ls, pos(4, 0), pos(6, 1)), "");
}

#[test]
fn multi_line_extraction_with_unmappable_columns() {
    let ls = lines(&["foo", "bar", "baz"]);
    assert_eq!(extract_range_text(&ls, pos(0, 9), pos(2, 9)), "\nbar\n");
}

#[test]
fn single_line_extraction() {
    let ls = lines(&["hello", "a\u{1F600}b"]);
    assert_eq!(extract_range_text(&ls, pos(0, 1), pos(0, 3)), "el");
    assert_eq!(extract_range_text(&ls, pos(1, 1), pos(1, 3)), "\u{1F600}");
    assert_eq!(extract_range_text(&ls, pos(0, 3), pos(0, 1)), "");
    assert_eq!(extract_range_text(&ls, pos(0, 2), pos(0, 9)), "");
    assert_eq!(extract_range_text(&ls, pos(7, 0), pos(7, 1)), "");
}

#[test]
fn reversed_lines_select_nothing() {
    let ls = lines(&["foo", "bar"]);
    assert_eq!(extract_range_text(&ls, pos(1, 0), pos(0, 1)), "");
}

#[test]
fn file_scheme_is_stripped() {
    assert_eq!(file_path_of("file:///tmp/a.rs"), "/tmp/a.rs");
    assert_eq!(file_path_of("/tmp/a.rs"), "/tmp/a.rs");
}

#[test]
fn text_helpers() {
    assert!(text_eq("abc", "abc"));
    assert!(!text_eq("abc", "abd"));
    assert!(starts_with_text("notifications/initialized", "notifications/"));
    assert!(!starts_with_text("tools/call", "notifications/"));
    assert!(contains("chat, mcp", "mcp"));
    assert!(!contains("chat", "mcp"));
    assert_eq!(decimal_string(0), "0");
    assert_eq!(decimal_string(59792), "59792");
}
