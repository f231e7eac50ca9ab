use editor::gap_buffer::GapBuffer;
use editor::navigator::attempt_move;
use editor::navigator::Direction;

#[test]
fn up_from_first_line_rejected() {
    let mut buf = GapBuffer::build(Some("hello\nworld"));
    for _ in 0..3 {
        buf.move_gap_right();
    }
    let before = buf.gap_begin;
    assert_eq!(attempt_move(&mut buf, Direction::Up, 1, 4), None);
    assert_eq!(buf.gap_begin, before);
    assert_eq!(attempt_move(&mut buf, Direction::Up, 1, 4), None);
    assert_eq!(buf.gap_begin, before);
    assert_eq!(buf.get_content(), "hello\nworld");
}

#[test]
fn down_clamps_to_short_line() {
    let mut buf = GapBuffer::build(Some("abcdef\ng\n"));
    for _ in 0..4 {
        buf.move_gap_right();
    }
    let r = attempt_move(&mut buf, Direction::Down, 1, 5);
    assert_eq!(r, Some((2, 1)));
    assert_eq!(buf.gap_begin, 7);
    assert_eq!(buf.get_content(), "abcdef\ng\n");
}

#[test]
fn up_then_walk_right_to_line_end() {
    let mut buf = GapBuffer::build(Some("hello\nworld"));
    for _ in 0..6 {
        buf.move_gap_right();
    }
    assert_eq!(attempt_move(&mut buf, Direction::Up, 2, 1), Some((1, 1)));
    assert_eq!(buf.gap_begin, 0);

    let mut col: u32 = 1;
    for _ in 0..5 {
        let r = attempt_move(&mut buf, Direction::Right, 1, col);
        assert_eq!(r, Some((1, col + 1)));
        col = col + 1;
    }
    assert_eq!(buf.gap_begin, 5);
    assert_eq!(attempt_move(&mut buf, Direction::Right, 1, 6), None);
    assert_eq!(buf.gap_begin, 5);
}

#[test]
fn left_rejected_at_line_start() {
    let mut buf = GapBuffer::build(Some("ab\ncd"));
    for _ in 0..3 {
        buf.move_gap_right();
    }
    assert_eq!(attempt_move(&mut buf, Direction::Left, 2, 1), None);
    assert_eq!(buf.gap_begin, 3);
}

#[test]
fn left_moves_within_line() {
    let mut buf = GapBuffer::build(Some("abcd"));
    for _ in 0..3 {
        buf.move_gap_right();
    }
    assert_eq!(attempt_move(&mut buf, Direction::Left, 1, 4), Some((1, 3)));
    assert_eq!(buf.gap_begin, 2);
}

#[test]
fn right_rejected_before_newline() {
    let mut buf = GapBuffer::build(Some("ab\ncd"));
    for _ in 0..2 {
        buf.move_gap_right();
    }
    assert_eq!(attempt_move(&mut buf, Direction::Right, 1, 3), None);
    assert_eq!(buf.gap_begin, 2);
}

#[test]
fn down_rejected_on_last_line() {
    let mut buf = GapBuffer::build(Some("ab\ncd"));
    for _ in 0..4 {
        buf.move_gap_right();
    }
    assert_eq!(attempt_move(&mut buf, Direction::Down, 2, 2), None);
    assert_eq!(buf.gap_begin, 4);
}

#[test]
fn down_rejected_when_trailing_newline_ends_text() {
    let mut buf = GapBuffer::build(Some("ab\n"));
    assert_eq!(attempt_move(&mut buf, Direction::Down, 1, 1), None);
}

#[test]
fn up_keeps_column_when_previous_line_is_long() {
    let mut buf = GapBuffer::build(Some("abcdef\nxy"));
    for _ in 0..8 {
        buf.move_gap_right();
    }
    assert_eq!(attempt_move(&mut buf, Direction::Up, 2, 2), Some((1, 2)));
    assert_eq!(buf.gap_begin, 1);
}

#[test]
fn up_into_empty_line_lands_in_column_one() {
    let mut buf = GapBuffer::build(Some("\nabc"));
    for _ in 0..3 {
        buf.move_gap_right();
    }
    assert_eq!(attempt_move(&mut buf, Direction::Up, 2, 3), Some((1, 1)));
    assert_eq!(buf.gap_begin, 0);
}

#[test]
fn down_keeps_column_when_next_line_is_long() {
    let mut buf = GapBuffer::build(Some("ab\nwxyz"));
    buf.move_gap_right();
    assert_eq!(attempt_move(&mut buf, Direction::Down, 1, 2), Some((2, 2)));
    assert_eq!(buf.gap_begin, 4);
}
