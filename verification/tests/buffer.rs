use editor::gap_buffer::GapBuffer;

#[test]
fn chars_basic_insertion() {
    let mut buffer_of_chars = GapBuffer::new();
    for c in "hello, world!".chars() {
        buffer_of_chars.insert_left(c);
    }

    assert_eq!(buffer_of_chars.get_content(), "hello, world!");
}

#[test]
fn insert_move_left() {
    let mut buffer_of_chars = GapBuffer::new();

    for c in "hello, world!".chars() {
        buffer_of_chars.insert_left(c);
    }
    for _ in 0.."world!".len() {
        buffer_of_chars.move_gap_left();
    }

    for c in "bruh".chars() {
        buffer_of_chars.insert_left(c);
    }

    for _ in 0.."world!".len() {
        buffer_of_chars.move_gap_right();
    }

    assert_eq!(buffer_of_chars.get_content(), "hello, bruhworld!");
}

#[test]
fn grow() {
    let mut buffer_of_chars = GapBuffer::new();

    let bar = std::iter::repeat("c").take(200).collect::<String>();

    for c in bar.chars() {
        buffer_of_chars.insert_left(c);
    }
    println!("{:?}", buffer_of_chars.get_content());
    assert_eq!(buffer_of_chars.get_content(), bar);
}

#[test]
fn gap_indices_ordered_across_operations() {
    let mut buf = GapBuffer::new();
    assert!(buf.gap_begin <= buf.gap_end);
    for _ in 0..200 {
        buf.insert_left('x');
        assert!(buf.gap_begin <= buf.gap_end);
    }
    buf.move_gap_left();
    assert!(buf.gap_begin <= buf.gap_end);
    buf.move_gap_right();
    assert!(buf.gap_begin <= buf.gap_end);
    buf.delete_item();
    assert!(buf.gap_begin <= buf.gap_end);
    buf.reset();
    assert!(buf.gap_begin <= buf.gap_end);
}

#[test]
fn materialize_is_non_destructive() {
    let mut buf = GapBuffer::build(Some("alpha\nbeta"));
    let first = buf.get_content();
    let second = buf.get_content();
    assert_eq!(first, second);
    assert_eq!(first, "alpha\nbeta");
    buf.insert_left('x');
    assert_eq!(buf.get_content(), "xalpha\nbeta");
}

#[test]
fn round_trip_with_newlines() {
    let text = "line one\nline two\n\nline four";
    let mut buf = GapBuffer::new();
    for c in text.chars() {
        buf.insert_left(c);
    }
    assert_eq!(buf.get_content(), text);
}

#[test]
fn build_none_is_empty() {
    let buf = GapBuffer::build(None);
    assert_eq!(buf.get_content(), "");
    assert_eq!(buf.gap_begin, 0);
}

#[test]
fn build_starts_at_content_start() {
    let buf = GapBuffer::build(Some("abc"));
    assert_eq!(buf.gap_begin, 0);
    assert_eq!(buf.get_content(), "abc");
}

#[test]
fn delete_at_start_is_a_no_op() {
    let mut buf = GapBuffer::build(Some("abc"));
    buf.delete_item();
    assert_eq!(buf.get_content(), "abc");
    assert_eq!(buf.gap_begin, 0);
}

#[test]
fn move_left_at_start_and_right_at_end_are_no_ops() {
    let mut buf = GapBuffer::build(Some("ab"));
    buf.move_gap_left();
    assert_eq!(buf.gap_begin, 0);
    buf.move_gap_right();
    buf.move_gap_right();
    assert_eq!(buf.gap_begin, 2);
    buf.move_gap_right();
    assert_eq!(buf.gap_begin, 2);
    assert_eq!(buf.get_content(), "ab");
}

#[test]
fn delete_removes_char_before_edit_point() {
    let mut buf = GapBuffer::build(Some("abcd"));
    buf.move_gap_right();
    buf.move_gap_right();
    buf.delete_item();
    assert_eq!(buf.get_content(), "acd");
    assert_eq!(buf.gap_begin, 1);
}

#[test]
fn line_predicates() {
    let mut buf = GapBuffer::build(Some("ab\ncd"));
    assert!(buf.is_buf_begin());
    assert!(buf.is_first_line());
    assert!(!buf.is_last_line());
    assert!(buf.is_line_start());
    assert!(!buf.is_line_end());
    assert!(!buf.char_before_is_newline());
    assert!(!buf.char_at_is_newline());

    buf.move_gap_right();
    buf.move_gap_right();
    assert!(buf.is_line_end());
    assert!(buf.char_at_is_newline());

    buf.move_gap_right();
    assert!(buf.char_before_is_newline());
    assert!(buf.is_line_start());
    assert!(!buf.is_first_line());
    assert!(buf.is_last_line());
}

#[test]
fn next_is_space_looks_at_edit_point() {
    let mut buf = GapBuffer::build(Some("a b"));
    assert!(!buf.next_is_space());
    buf.move_gap_right();
    assert!(buf.next_is_space());
}

#[test]
fn get_len_measures_current_line() {
    let mut buf = GapBuffer::build(Some("abc\nfghij"));
    assert_eq!(buf.get_len(), 3);
    for _ in 0..4 {
        buf.move_gap_right();
    }
    assert_eq!(buf.get_len(), 5);
}

#[test]
fn grab_to_end_full_and_partial() {
    let mut buf = GapBuffer::build(Some("abcde\nxyz"));
    for _ in 0..2 {
        buf.move_gap_right();
    }
    assert_eq!(buf.grab_to_end(false), "cde");
    assert_eq!(buf.grab_to_end(true), "abcde");
    assert_eq!(buf.gap_begin, 2);
}

#[test]
fn move_to_last_char_stops_before_newline() {
    let mut buf = GapBuffer::build(Some("abc\nde"));
    buf.move_to_last_char();
    assert_eq!(buf.gap_begin, 3);
    assert!(buf.is_line_end());
}

#[test]
fn move_to_line_start_returns_to_column_one() {
    let mut buf = GapBuffer::build(Some("abc\nde"));
    for _ in 0..5 {
        buf.move_gap_right();
    }
    buf.move_to_line_start();
    assert_eq!(buf.gap_begin, 4);
}

#[test]
fn move_to_next_word_jumps_past_space() {
    let mut buf = GapBuffer::build(Some("one two three"));
    assert_eq!(buf.move_to_next_word(), 4);
    assert_eq!(buf.gap_begin, 4);
    assert_eq!(buf.move_to_next_word(), 4);
    assert_eq!(buf.gap_begin, 8);
    assert_eq!(buf.move_to_next_word(), 0);
    assert_eq!(buf.gap_begin, 8);
}

#[test]
fn move_to_next_word_stays_inside_line() {
    let mut buf = GapBuffer::build(Some("one\ntwo three"));
    assert_eq!(buf.move_to_next_word(), 0);
    assert_eq!(buf.gap_begin, 0);
}

#[test]
fn delete_spaces_right_drops_indentation() {
    let mut buf = GapBuffer::build(Some("   abc"));
    buf.delete_spaces_right();
    assert_eq!(buf.get_content(), "abc");
    assert_eq!(buf.gap_begin, 0);
}

#[test]
fn build_nested_wraps_lines() {
    let buf = GapBuffer::build_nested("the quick brown fox jumps", 8);
    assert_eq!(buf.get_content(), "the quick\nbrown fox\njumps");
    assert_eq!(buf.gap_begin, 0);
}

#[test]
fn build_nested_short_text_unchanged() {
    let buf = GapBuffer::build_nested("hello world", 100);
    assert_eq!(buf.get_content(), "hello world");
}

#[test]
fn build_nested_wraps_at_overflowing_space() {
    let buf = GapBuffer::build_nested("ab cd ef", 4);
    assert_eq!(buf.get_content(), "ab cd\nef");
}
