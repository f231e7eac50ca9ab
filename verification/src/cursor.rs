//! The tracked terminal cursor.
//!
//! The core keeps its own 1-based (row, column) pair and updates it in
//! lockstep with every buffer shift, treating the terminal purely as a
//! rendering sink; the renderer repositions the real cursor from these
//! coordinates after each step.

use vstd::prelude::*;

verus! {

pub struct Cursor {
    pub user_row: u32,
    pub user_col: u32,
}

/// Index of the first `;` at or after `i` in a status-report reply, or the
/// reply's length when none follows.
pub open spec fn first_semi_from(bytes: Seq<u8>, i: int) -> int
    decreases bytes.len() - i,
{
    if i >= bytes.len() {
        bytes.len() as int
    } else if bytes[i] == 59 {
        i
    } else {
        first_semi_from(bytes, i + 1)
    }
}

/// The number the digit bytes of `bytes[i..end]` spell, high digit first,
/// starting from `acc`; other bytes are skipped and the value saturates at
/// the largest 32-bit coordinate.
pub open spec fn digits_value(bytes: Seq<u8>, i: int, end: int, acc: int) -> int
    decreases end - i,
{
    if i >= end {
        acc
    } else {
        let b = bytes[i];
        if 48 <= b <= 57 {
            let a2 = acc * 10 + (b - 48);
            digits_value(bytes, i + 1, end, if a2 > u32::MAX { u32::MAX as int } else { a2 })
        } else {
            digits_value(bytes, i + 1, end, acc)
        }
    }
}

/// Position of the separating `;` in a reply.
fn scan_semi(reply: &Vec<u8>) -> (r: usize)
    ensures
        r as int == first_semi_from(reply@, 0),
        r <= reply@.len(),
{
    let n = reply.len();
    let mut i: usize = 0;
    while i < n
        invariant
            i <= n,
            n == reply@.len(),
            first_semi_from(reply@, 0) == first_semi_from(reply@, i as int),
        decreases n - i,
    {
        if reply[i] == 59 {
            return i;
        }
        i = i + 1;
    }
    n
}

/// The number spelled by the digit bytes of `reply[start..end]`.
fn fold_digits(reply: &Vec<u8>, start: usize, end: usize) -> (r: u32)
    requires
        end <= reply@.len(),
    ensures
        r as int == digits_value(reply@, start as int, end as int, 0),
{
    let mut acc: u32 = 0;
    let mut i = start;
    while i < end
        invariant
            start <= end ==> start <= i <= end,
            end <= reply@.len(),
            start > end ==> i == start,
            digits_value(reply@, start as int, end as int, 0) == digits_value(
                reply@,
                i as int,
                end as int,
                acc as int,
            ),
        decreases end - i,
    {
        let b = reply[i];
        if 48 <= b && b <= 57 {
            let a2: u64 = (acc as u64) * 10 + ((b - 48) as u64);
            if a2 > u32::MAX as u64 {
                acc = u32::MAX;
            } else {
                acc = a2 as u32;
            }
        }
        i = i + 1;
    }
    acc
}

impl Cursor {
    /// Coordinates are 1-based: the home position is (1, 1).
    pub open spec fn wf(self) -> bool {
        self.user_row >= 1 && self.user_col >= 1
    }

    pub fn new() -> (r: Cursor)
        ensures
            r.user_row == 1,
            r.user_col == 1,
    {
        Cursor { user_row: 1, user_col: 1 }
    }

    /// The coordinates a terminal status-report reply `ESC[{row};{col}R`
    /// names: the digits before the `;` give the row, those after it the
    /// column, each saturating at the largest 32-bit value. Bytes that are
    /// not digits are skipped, so the leading escape and the trailing `R`
    /// need not be stripped first.
    pub fn from_report(reply: &Vec<u8>) -> (r: Cursor)
        ensures
            r.user_row as int == digits_value(reply@, 0, first_semi_from(reply@, 0), 0),
            r.user_col as int == digits_value(
                reply@,
                first_semi_from(reply@, 0) + 1,
                reply@.len() as int,
                0,
            ),
    {
        let semi = scan_semi(reply);
        let row = fold_digits(reply, 0, semi);
        let col = if semi < reply.len() {
            fold_digits(reply, semi + 1, reply.len())
        } else {
            0
        };
        Cursor { user_row: row, user_col: col }
    }

    pub fn user_col(&self) -> (r: u32)
        ensures
            r == self.user_col,
    {
        self.user_col
    }

    pub fn user_row(&self) -> (r: u32)
        ensures
            r == self.user_row,
    {
        self.user_row
    }

    pub fn set_user_row(&mut self, row: u32)
        ensures
            final(self).user_row == row,
            final(self).user_col == old(self).user_col,
    {
        self.user_row = row;
    }

    pub fn set_user_col(&mut self, col: u32)
        ensures
            final(self).user_row == old(self).user_row,
            final(self).user_col == col,
    {
        self.user_col = col;
    }

    /// Back to the home position.
    pub fn reset_coords(&mut self)
        ensures
            final(self).user_row == 1,
            final(self).user_col == 1,
    {
        self.user_row = 1;
        self.user_col = 1;
    }

    /// Start of the next row: one row down, column 1.
    pub fn return_newline(&mut self)
        requires
            old(self).user_row < u32::MAX,
        ensures
            final(self).user_row == old(self).user_row + 1,
            final(self).user_col == 1,
    {
        self.user_col = 1;
        self.user_row = self.user_row + 1;
    }

    pub fn inc_row(&mut self, num: u32)
        requires
            old(self).user_row + num <= u32::MAX,
        ensures
            final(self).user_row == old(self).user_row + num,
            final(self).user_col == old(self).user_col,
    {
        self.user_row = self.user_row + num;
    }

    /// Rows never retreat past row 1; at row 1 this is a no-op.
    pub fn dec_row(&mut self, num: u32)
        requires
            old(self).user_row != 1 ==> num < old(self).user_row,
        ensures
            final(self).user_row == if old(self).user_row == 1 {
                old(self).user_row
            } else {
                (old(self).user_row - num) as u32
            },
            final(self).user_col == old(self).user_col,
    {
        if self.user_row != 1 {
            self.user_row = self.user_row - num;
        }
    }

    pub fn inc_col(&mut self, num: u32)
        requires
            old(self).user_col + num <= u32::MAX,
        ensures
            final(self).user_col == old(self).user_col + num,
            final(self).user_row == old(self).user_row,
    {
        self.user_col = self.user_col + num;
    }

    /// Columns never retreat past column 1; at column 1 this is a no-op.
    pub fn dec_col(&mut self, num: u32)
        requires
            old(self).user_col != 1 ==> num < old(self).user_col,
        ensures
            final(self).user_col == if old(self).user_col == 1 {
                old(self).user_col
            } else {
                (old(self).user_col - num) as u32
            },
            final(self).user_row == old(self).user_row,
    {
        if self.user_col != 1 {
            self.user_col = self.user_col - num;
        }
    }
}

} // verus!
