//! The line and column model of flat text.
//!
//! Positions are 0-based indices into a character sequence; a position sits
//! between characters, so the character "at" position `p` is `s[p]`. Terminal
//! coordinates are 1-based: position `p` is on line `line_of(s, p)` at column
//! `col_of(s, p)`. A line runs from just after a newline (or the start of the
//! text) up to the next newline (or the end of the text), the newline itself
//! excluded.

use vstd::prelude::*;

verus! {

/// Index of the first character of the line containing position `cur`.
pub open spec fn line_start_at(s: Seq<char>, cur: int) -> int
    decreases cur,
{
    if cur <= 0 {
        0
    } else if s[cur - 1] == '\n' {
        cur
    } else {
        line_start_at(s, cur - 1)
    }
}

/// Index just past the last character of the line containing position `cur`:
/// the index of the next newline at or after `cur`, or the text's length.
pub open spec fn line_end_at(s: Seq<char>, cur: int) -> int
    decreases s.len() - cur,
{
    if cur >= s.len() {
        s.len() as int
    } else if s[cur] == '\n' {
        cur
    } else {
        line_end_at(s, cur + 1)
    }
}

/// 1-based line number of position `cur`: one more than the number of
/// newlines strictly before it.
pub open spec fn line_of(s: Seq<char>, cur: int) -> int
    decreases cur,
{
    if cur <= 0 {
        1
    } else if s[cur - 1] == '\n' {
        line_of(s, cur - 1) + 1
    } else {
        line_of(s, cur - 1)
    }
}

/// 1-based column of position `cur` within its line.
pub open spec fn col_of(s: Seq<char>, cur: int) -> int {
    cur - line_start_at(s, cur) + 1
}

/// Length of the line containing position `cur`, its newline excluded.
pub open spec fn line_len_at(s: Seq<char>, cur: int) -> int {
    line_end_at(s, cur) - line_start_at(s, cur)
}

/// Whether a line follows the line of position `cur`: some newline at or
/// after `cur` has at least one position after it.
pub open spec fn has_next_line(s: Seq<char>, cur: int) -> bool {
    exists|i: int| cur <= i && i + 1 < s.len() && #[trigger] s[i] == '\n'
}

/// `line_start_at` lands at or before `cur`, just after a newline or at the
/// start, and no newline lies between it and `cur`.
pub proof fn lemma_line_start_props(s: Seq<char>, cur: int)
    requires
        0 <= cur,
    ensures
        0 <= line_start_at(s, cur) <= cur,
        line_start_at(s, cur) == 0 || s[line_start_at(s, cur) - 1] == '\n',
        forall|m: int| line_start_at(s, cur) <= m < cur ==> #[trigger] s[m] != '\n',
    decreases cur,
{
    if cur > 0 && s[cur - 1] != '\n' {
        lemma_line_start_props(s, cur - 1);
    }
}

/// Any position with the properties of `line_start_at` is `line_start_at`.
pub proof fn lemma_line_start_unique(s: Seq<char>, cur: int, a: int)
    requires
        0 <= a <= cur,
        a == 0 || s[a - 1] == '\n',
        forall|m: int| a <= m < cur ==> #[trigger] s[m] != '\n',
    ensures
        line_start_at(s, cur) == a,
    decreases cur,
{
    if cur > a {
        lemma_line_start_unique(s, cur - 1, a);
    }
}

/// `line_end_at` lands at or after `cur`, on a newline or at the end, and no
/// newline lies between `cur` and it.
pub proof fn lemma_line_end_props(s: Seq<char>, cur: int)
    requires
        0 <= cur <= s.len(),
    ensures
        cur <= line_end_at(s, cur) <= s.len(),
        line_end_at(s, cur) == s.len() || s[line_end_at(s, cur)] == '\n',
        forall|m: int| cur <= m < line_end_at(s, cur) ==> #[trigger] s[m] != '\n',
    decreases s.len() - cur,
{
    if cur < s.len() && s[cur] != '\n' {
        lemma_line_end_props(s, cur + 1);
    }
}

/// Any position with the properties of `line_end_at` is `line_end_at`.
pub proof fn lemma_line_end_unique(s: Seq<char>, cur: int, a: int)
    requires
        0 <= cur <= a <= s.len(),
        a == s.len() || s[a] == '\n',
        forall|m: int| cur <= m < a ==> #[trigger] s[m] != '\n',
    ensures
        line_end_at(s, cur) == a,
    decreases a - cur,
{
    if cur < a {
        lemma_line_end_unique(s, cur + 1, a);
    }
}

/// Positions separated by no newline share a line number and a line start.
pub proof fn lemma_same_line(s: Seq<char>, a: int, b: int)
    requires
        0 <= a <= b,
        forall|m: int| a <= m < b ==> #[trigger] s[m] != '\n',
    ensures
        line_of(s, b) == line_of(s, a),
        line_start_at(s, b) == line_start_at(s, a),
    decreases b - a,
{
    if b > a {
        lemma_same_line(s, a, b - 1);
    }
}

/// Crossing a newline moves to the start of the next line.
pub proof fn lemma_cross_newline(s: Seq<char>, c: int)
    requires
        0 <= c,
        s[c] == '\n',
    ensures
        line_of(s, c + 1) == line_of(s, c) + 1,
        line_start_at(s, c + 1) == c + 1,
{
}

/// Line numbers start at 1.
pub proof fn lemma_line_of_ge_1(s: Seq<char>, cur: int)
    ensures
        line_of(s, cur) >= 1,
    decreases cur,
{
    if cur > 0 {
        lemma_line_of_ge_1(s, cur - 1);
    }
}

/// A position is on the first line exactly when no newline precedes it,
/// which is also exactly when its line starts at the start of the text.
pub proof fn lemma_first_line_iff(s: Seq<char>, cur: int)
    requires
        0 <= cur,
    ensures
        (line_of(s, cur) == 1) <==> (forall|m: int| 0 <= m < cur ==> #[trigger] s[m] != '\n'),
        (line_of(s, cur) == 1) <==> (line_start_at(s, cur) == 0),
    decreases cur,
{
    lemma_line_of_ge_1(s, cur);
    if cur > 0 {
        lemma_first_line_iff(s, cur - 1);
        lemma_line_of_ge_1(s, cur - 1);
    }
}

/// Line and column are 1-based and at most one past the position.
pub proof fn lemma_coord_bounds(s: Seq<char>, cur: int)
    requires
        0 <= cur,
    ensures
        1 <= line_of(s, cur) <= cur + 1,
        1 <= col_of(s, cur) <= cur + 1,
    decreases cur,
{
    lemma_line_start_props(s, cur);
    if cur > 0 {
        lemma_coord_bounds(s, cur - 1);
    }
}

/// The text with its leading run of spaces removed.
pub open spec fn drop_leading_spaces(s: Seq<char>) -> Seq<char>
    decreases s.len(),
{
    if s.len() > 0 && s[0] == ' ' {
        drop_leading_spaces(s.drop_first())
    } else {
        s
    }
}

/// Dropping leading spaces never lengthens the text.
pub proof fn lemma_drop_leading_spaces_len(s: Seq<char>)
    ensures
        drop_leading_spaces(s).len() <= s.len(),
    decreases s.len(),
{
    if s.len() > 0 && s[0] == ' ' {
        lemma_drop_leading_spaces_len(s.drop_first());
    }
}

/// A line follows exactly when the next newline is not the final character.
pub proof fn lemma_has_next_line_iff(s: Seq<char>, cur: int)
    requires
        0 <= cur <= s.len(),
    ensures
        has_next_line(s, cur) <==> line_end_at(s, cur) + 1 < s.len(),
{
    lemma_line_end_props(s, cur);
    let le = line_end_at(s, cur);
    if le + 1 < s.len() {
        assert(cur <= le && le + 1 < s.len() && s[le] == '\n');
    }
    if has_next_line(s, cur) {
        let i = choose|i: int| cur <= i && i + 1 < s.len() && #[trigger] s[i] == '\n';
        assert(le <= i);
    }
}

/// Whether a character is in the ASCII range.
pub open spec fn ascii_char(c: char) -> bool {
    (c as u32) < 128
}

/// The word scan that decides whether the edit point sits in the last word
/// of its line: walking right from `i`, a newline or the end of the text
/// appears before a space followed by a further ASCII word character does.
/// `seen_space` records whether a space has been passed already.
pub open spec fn last_word_scan(s: Seq<char>, i: int, seen_space: bool) -> bool
    decreases s.len() - i,
{
    if i >= s.len() {
        false
    } else if s[i] == '\n' {
        true
    } else if s[i] == ' ' {
        last_word_scan(s, i + 1, true)
    } else if ascii_char(s[i]) && seen_space {
        false
    } else {
        last_word_scan(s, i + 1, seen_space)
    }
}

/// Index of the first space at or after `i`, or the text's length.
pub open spec fn first_space_from(s: Seq<char>, i: int) -> int
    decreases s.len() - i,
{
    if i >= s.len() {
        s.len() as int
    } else if s[i] == ' ' {
        i
    } else {
        first_space_from(s, i + 1)
    }
}

/// `first_space_from` lands at or after `i`, on a space or at the end, and
/// no space lies between `i` and it.
pub proof fn lemma_first_space_props(s: Seq<char>, i: int)
    requires
        0 <= i,
    ensures
        i <= first_space_from(s, i) || first_space_from(s, i) == s.len(),
        first_space_from(s, i) <= s.len(),
        first_space_from(s, i) == s.len() || s[first_space_from(s, i)] == ' ',
        forall|m: int| i <= m < first_space_from(s, i) ==> #[trigger] s[m] != ' ',
    decreases s.len() - i,
{
    if i < s.len() && s[i] != ' ' {
        lemma_first_space_props(s, i + 1);
    }
}

/// `line_of` and `line_start_at` depend only on the text before the position.
pub proof fn lemma_prefix_line(s: Seq<char>, t: Seq<char>, cur: int)
    requires
        0 <= cur,
        forall|m: int| 0 <= m < cur ==> #[trigger] s[m] == t[m],
    ensures
        line_of(s, cur) == line_of(t, cur),
        line_start_at(s, cur) == line_start_at(t, cur),
    decreases cur,
{
    if cur > 0 {
        lemma_prefix_line(s, t, cur - 1);
    }
}

} // verus!
