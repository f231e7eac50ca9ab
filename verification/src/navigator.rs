//! The navigator.
//!
//! Given a directional request and the terminal's current 1-based (line,
//! column) pair, it decides whether the move is legal and, if so, performs
//! exactly the buffer gap shifts that relocate the edit point to the target
//! position, returning the target coordinates. An illegal move is reported
//! as `None` and leaves the buffer untouched. Vertical moves clamp the
//! column to the target line's length rather than remembering a desired
//! column.

use vstd::prelude::*;

use crate::gap_buffer::GapBuffer;
use crate::lines::{
    col_of,
    has_next_line,
    lemma_cross_newline,
    lemma_first_line_iff,
    lemma_has_next_line_iff,
    lemma_line_end_props,
    lemma_line_of_ge_1,
    lemma_line_start_props,
    lemma_line_start_unique,
    lemma_same_line,
    line_end_at,
    line_of,
    line_start_at,
};

verus! {

#[derive(Clone, Copy, PartialEq, Eq, Structural, Debug)]
pub enum Direction {
    Up,
    Down,
    Left,
    Right,
}

/// Whether a move in `dir` is legal at position `cur` of text `s`: left of
/// a line's first character, right onto a newline or past the end, up from
/// the first line and down from the last are all rejected.
pub open spec fn move_legal(s: Seq<char>, cur: int, dir: Direction) -> bool {
    match dir {
        Direction::Left => !(cur == 0 || s[cur - 1] == '\n'),
        Direction::Right => !(cur == s.len() || s[cur] == '\n'),
        Direction::Up => line_of(s, cur) > 1,
        Direction::Down => has_next_line(s, cur),
    }
}

/// Column clamping for vertical moves: the target line's length bounds the
/// column, and an empty target line pins it to column 1.
pub open spec fn clamped_col(col: int, target_len: int) -> int {
    if target_len == 0 {
        1
    } else if col <= target_len {
        col
    } else {
        target_len
    }
}

/// The position a legal move relocates the edit point to.
pub open spec fn move_target(s: Seq<char>, cur: int, dir: Direction) -> int {
    match dir {
        Direction::Left => cur - 1,
        Direction::Right => cur + 1,
        Direction::Up => {
            let ls = line_start_at(s, cur);
            let ps = line_start_at(s, ls - 1);
            ps + clamped_col(col_of(s, cur), ls - 1 - ps) - 1
        },
        Direction::Down => {
            let le = line_end_at(s, cur);
            let ne = line_end_at(s, le + 1);
            le + 1 + clamped_col(col_of(s, cur), ne - le - 1) - 1
        },
    }
}

/// The (line, column) pair a legal move reports.
pub open spec fn move_coords(s: Seq<char>, cur: int, dir: Direction) -> (int, int) {
    let line = line_of(s, cur);
    let col = col_of(s, cur);
    match dir {
        Direction::Left => (line, col - 1),
        Direction::Right => (line, col + 1),
        Direction::Up => {
            let ls = line_start_at(s, cur);
            let ps = line_start_at(s, ls - 1);
            (line - 1, clamped_col(col, ls - 1 - ps))
        },
        Direction::Down => {
            let le = line_end_at(s, cur);
            let ne = line_end_at(s, le + 1);
            (line + 1, clamped_col(col, ne - le - 1))
        },
    }
}

/// Attempts one move. Returns `None` and leaves the buffer untouched when
/// the move is illegal — in particular, up from line 1 is always rejected
/// with the edit point unchanged. Otherwise performs the gap shifts to the
/// target position and returns the new coordinates, which again name the
/// edit point's line and column.
pub fn attempt_move(
    content_buffer: &mut GapBuffer,
    direction: Direction,
    current_line: u32,
    current_column: u32,
) -> (r: Option<(u32, u32)>)
    requires
        old(content_buffer).wf(),
        current_line as int == line_of(old(content_buffer).content(), old(content_buffer).cursor()),
        current_column as int == col_of(old(content_buffer).content(), old(content_buffer).cursor()),
        current_line < u32::MAX,
        current_column < u32::MAX,
    ensures
        final(content_buffer).wf(),
        final(content_buffer).content() == old(content_buffer).content(),
        final(content_buffer).cap() == old(content_buffer).cap(),
        !move_legal(old(content_buffer).content(), old(content_buffer).cursor(), direction) ==> (r
            is None && *final(content_buffer) == *old(content_buffer)),
        move_legal(old(content_buffer).content(), old(content_buffer).cursor(), direction) ==> ({
            let s = old(content_buffer).content();
            let cur = old(content_buffer).cursor();
            let coords = move_coords(s, cur, direction);
            &&& final(content_buffer).cursor() == move_target(s, cur, direction)
            &&& r matches Some(p) && p.0 as int == coords.0 && p.1 as int == coords.1
            &&& line_of(s, final(content_buffer).cursor()) == coords.0
            &&& col_of(s, final(content_buffer).cursor()) == coords.1
        }),
{
    let ghost s = content_buffer.content();
    let ghost cur = content_buffer.cursor();
    proof {
        lemma_line_start_props(s, cur);
        lemma_line_end_props(s, cur);
        lemma_line_of_ge_1(s, cur);
    }
    match direction {
        Direction::Left => {
            if content_buffer.is_line_start() {
                return None;
            }
            content_buffer.move_gap_left();
            proof {
                lemma_same_line(s, cur - 1, cur);
            }
            Some((current_line, current_column - 1))
        },
        Direction::Right => {
            if content_buffer.is_line_end() {
                return None;
            }
            content_buffer.move_gap_right();
            proof {
                lemma_same_line(s, cur, cur + 1);
            }
            Some((current_line, current_column + 1))
        },
        Direction::Up => {
            proof {
                lemma_first_line_iff(s, cur);
            }
            if current_line == 1 {
                return None;
            }
            let ls = content_buffer.scan_line_start(content_buffer.gap_begin);
            let ps = content_buffer.scan_line_start(ls - 1);
            proof {
                lemma_line_start_props(s, ls - 1 as int);
            }
            let prev_len = ls - 1 - ps;
            let new_col: u32 = if prev_len == 0 {
                1
            } else if (current_column as usize) <= prev_len {
                current_column
            } else {
                prev_len as u32
            };
            let target = ps + (new_col as usize) - 1;
            while content_buffer.gap_begin > target
                invariant
                    content_buffer.wf(),
                    content_buffer.content() == s,
                    content_buffer.cap() == old(content_buffer).cap(),
                    target <= content_buffer.gap_begin,
                decreases content_buffer.gap_begin,
            {
                content_buffer.move_gap_left();
            }
            proof {
                lemma_same_line(s, ls as int, cur);
                lemma_cross_newline(s, ls - 1 as int);
                lemma_same_line(s, target as int, ls - 1 as int);
                lemma_line_start_unique(s, ps as int, ps as int);
                lemma_same_line(s, ps as int, target as int);
            }
            Some((current_line - 1, new_col))
        },
        Direction::Down => {
            proof {
                lemma_has_next_line_iff(s, cur);
            }
            let n = content_buffer.content_length();
            let le = content_buffer.scan_line_end(content_buffer.gap_begin);
            if le >= n || le + 1 >= n {
                return None;
            }
            let ne = content_buffer.scan_line_end(le + 1);
            proof {
                lemma_line_end_props(s, le + 1 as int);
            }
            let next_len = ne - (le + 1);
            let new_col: u32 = if next_len == 0 {
                1
            } else if (current_column as usize) <= next_len {
                current_column
            } else {
                next_len as u32
            };
            let target = le + (new_col as usize);
            while content_buffer.gap_begin < target
                invariant
                    content_buffer.wf(),
                    content_buffer.content() == s,
                    content_buffer.cap() == old(content_buffer).cap(),
                    content_buffer.gap_begin <= target,
                    target as int <= s.len(),
                decreases target - content_buffer.gap_begin,
            {
                content_buffer.move_gap_right();
            }
            proof {
                lemma_same_line(s, cur, le as int);
                lemma_cross_newline(s, le as int);
                lemma_same_line(s, le + 1 as int, target as int);
                lemma_line_start_unique(s, target as int, le + 1 as int);
            }
            Some((current_line + 1, new_col))
        },
    }
}

} // verus!
