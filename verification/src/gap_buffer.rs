//! The gap-based edit buffer.
//!
//! Backing storage is a vector of character slots partitioned by two indices
//! into a "before" region `[0, gap_begin)`, the gap `[gap_begin, gap_end]`,
//! and an "after" region `(gap_end, capacity)`. The logical content is the
//! before region followed by the after region; the gap is unused slack whose
//! position marks the edit point. Insertion writes at `gap_begin`; moving the
//! edit point slides characters across the gap without changing the content.

use vstd::prelude::*;

use crate::lines::{
    ascii_char,
    drop_leading_spaces,
    first_space_from,
    has_next_line,
    last_word_scan,
    lemma_first_space_props,
    lemma_line_end_props,
    lemma_line_end_unique,
    lemma_line_start_props,
    lemma_line_start_unique,
    line_end_at,
    line_len_at,
    line_start_at,
};

verus! {

/// Number of empty slots spliced into the gap when it runs out.
pub const GROW_SIZE: usize = 50;

/// Capacity of a freshly created buffer.
pub const INITIAL_SIZE: usize = 150;

pub struct GapBuffer {
    pub buffer: Vec<Option<char>>,
    pub gap_begin: usize,
    pub gap_end: usize,
}

impl GapBuffer {
    /// Capacity of the backing storage.
    pub open spec fn cap(self) -> int {
        self.buffer.len() as int
    }

    /// Well-formedness: the gap is a non-empty range inside the storage, and
    /// every slot outside the gap holds a character. In particular
    /// `gap_begin <= gap_end` holds whenever a buffer is well-formed.
    pub open spec fn wf(self) -> bool {
        &&& self.gap_begin <= self.gap_end < self.buffer.len()
        &&& forall|i: int| 0 <= i < self.gap_begin ==> self.buffer[i] is Some
        &&& forall|i: int| self.gap_end < i < self.buffer.len() ==> self.buffer[i] is Some
    }

    /// The characters before the gap.
    pub open spec fn before_gap(self) -> Seq<char> {
        Seq::new(self.gap_begin as nat, |i: int| self.buffer[i]->0)
    }

    /// The characters after the gap.
    pub open spec fn after_gap(self) -> Seq<char> {
        Seq::new(
            (self.buffer.len() - self.gap_end - 1) as nat,
            |i: int| self.buffer[self.gap_end + 1 + i]->0,
        )
    }

    /// The logical content of the buffer.
    pub open spec fn content(self) -> Seq<char> {
        self.before_gap() + self.after_gap()
    }

    /// The edit point: the number of characters before the gap. Insertion
    /// happens just left of this position.
    pub open spec fn cursor(self) -> int {
        self.gap_begin as int
    }

    /// An empty buffer: the gap spans the whole initial capacity.
    pub fn new() -> (r: GapBuffer)
        ensures
            r.wf(),
            r.content() == Seq::<char>::empty(),
            r.cursor() == 0,
            r.cap() == INITIAL_SIZE as int,
    {
        let mut buffer: Vec<Option<char>> = Vec::new();
        let mut i: usize = 0;
        while i < INITIAL_SIZE
            invariant
                i <= INITIAL_SIZE,
                buffer.len() == i,
            decreases INITIAL_SIZE - i,
        {
            buffer.push(None);
            i = i + 1;
        }
        let r = GapBuffer { buffer, gap_begin: 0, gap_end: INITIAL_SIZE - 1 };
        proof {
            assert(r.content() =~= Seq::<char>::empty());
        }
        r
    }

    /// Splices `GROW_SIZE` empty slots into the gap, leaving the content and
    /// the edit point as they were.
    fn grow_buffer(&mut self)
        requires
            old(self).wf(),
            old(self).cap() + GROW_SIZE < usize::MAX,
        ensures
            final(self).wf(),
            final(self).content() == old(self).content(),
            final(self).cursor() == old(self).cursor(),
            final(self).gap_begin == old(self).gap_begin,
            final(self).gap_end == old(self).gap_end + GROW_SIZE,
            final(self).cap() == old(self).cap() + GROW_SIZE,
    {
        let old_len = self.buffer.len();
        let mut nb: Vec<Option<char>> = Vec::new();
        let mut i: usize = 0;
        while i < self.gap_begin
            invariant
                self == old(self),
                old(self).wf(),
                i <= self.gap_begin,
                nb.len() == i,
                forall|t: int| 0 <= t < i ==> nb[t] == self.buffer[t],
            decreases self.gap_begin - i,
        {
            let c = self.buffer[i];
            nb.push(c);
            i = i + 1;
        }
        let gap_slots = self.gap_end - self.gap_begin + 1 + GROW_SIZE;
        let mut j: usize = 0;
        while j < gap_slots
            invariant
                self == old(self),
                old(self).wf(),
                gap_slots == self.gap_end - self.gap_begin + 1 + GROW_SIZE,
                j <= gap_slots,
                nb.len() == self.gap_begin + j,
                forall|t: int| 0 <= t < self.gap_begin ==> nb[t] == self.buffer[t],
            decreases gap_slots - j,
        {
            nb.push(None);
            j = j + 1;
        }
        let mut k = self.gap_end + 1;
        while k < self.buffer.len()
            invariant
                self == old(self),
                old(self).wf(),
                self.gap_end < k <= self.buffer.len(),
                nb.len() == self.gap_begin + (self.gap_end - self.gap_begin + 1 + GROW_SIZE) + (
                k - self.gap_end - 1),
                forall|t: int| 0 <= t < self.gap_begin ==> nb[t] == self.buffer[t],
                forall|t: int|
                    self.gap_end + GROW_SIZE < t < nb.len() ==> nb[t] == self.buffer[t
                        - GROW_SIZE],
            decreases self.buffer.len() - k,
        {
            let c = self.buffer[k];
            nb.push(c);
            k = k + 1;
        }
        self.buffer = nb;
        self.gap_end = self.gap_end + GROW_SIZE;
        proof {
            assert(self.before_gap() =~= old(self).before_gap());
            assert(self.after_gap() =~= old(self).after_gap());
            assert(self.content() == old(self).content());
        }
    }

    /// Writes `item` just left of the edit point and advances the edit point,
    /// growing the buffer first when the gap has shrunk to its last slot.
    pub fn insert_left(&mut self, item: char)
        requires
            old(self).wf(),
            old(self).cap() + GROW_SIZE < usize::MAX,
        ensures
            final(self).wf(),
            final(self).content() == old(self).content().insert(old(self).cursor(), item),
            final(self).cursor() == old(self).cursor() + 1,
            final(self).cap() == if old(self).gap_begin == old(self).gap_end {
                old(self).cap() + GROW_SIZE
            } else {
                old(self).cap()
            },
    {
        if self.gap_begin == self.gap_end {
            self.grow_buffer();
        }
        let ghost pre = *self;
        self.buffer[self.gap_begin] = Some(item);
        self.gap_begin = self.gap_begin + 1;
        proof {
            assert(self.before_gap() =~= pre.before_gap().push(item));
            assert(self.after_gap() =~= pre.after_gap());
            assert(self.content() =~= pre.content().insert(pre.cursor(), item));
            assert(pre.content().insert(pre.cursor(), item) =~= old(self).content().insert(
                old(self).cursor(),
                item,
            ));
        }
    }

    /// Removes the character immediately left of the edit point by widening
    /// the gap; a silent no-op when the edit point is at the start.
    pub fn delete_item(&mut self)
        requires
            old(self).wf(),
        ensures
            final(self).wf(),
            final(self).cap() == old(self).cap(),
            old(self).cursor() == 0 ==> *final(self) == *old(self),
            old(self).cursor() > 0 ==> {
                &&& final(self).content() == old(self).content().remove(old(self).cursor() - 1)
                &&& final(self).cursor() == old(self).cursor() - 1
            },
    {
        if self.gap_begin != 0 {
            let ghost pre = *self;
            self.buffer[self.gap_begin - 1] = None;
            self.gap_begin = self.gap_begin - 1;
            proof {
                assert(self.before_gap() =~= pre.before_gap().drop_last());
                assert(self.after_gap() =~= pre.after_gap());
                assert(self.content() =~= pre.content().remove(pre.cursor() - 1));
            }
        }
    }

    /// Slides the gap one slot right: the character just after the gap
    /// becomes the character just before it. The edit point advances by one;
    /// a silent no-op at the end of the content.
    pub fn move_gap_right(&mut self)
        requires
            old(self).wf(),
        ensures
            final(self).wf(),
            final(self).content() == old(self).content(),
            final(self).cap() == old(self).cap(),
            final(self).gap_end - final(self).gap_begin == old(self).gap_end - old(self).gap_begin,
            old(self).cursor() < old(self).content().len() ==> final(self).cursor() == old(
                self,
            ).cursor() + 1,
            old(self).cursor() == old(self).content().len() ==> *final(self) == *old(self),
    {
        if self.gap_end + 1 == self.buffer.len() {
            return ;
        }
        let ghost pre = *self;
        let right_item = self.buffer[self.gap_end + 1];
        self.buffer[self.gap_end + 1] = None;
        self.buffer[self.gap_begin] = right_item;
        self.gap_begin = self.gap_begin + 1;
        self.gap_end = self.gap_end + 1;
        proof {
            assert(self.before_gap() =~= pre.before_gap().push(pre.after_gap()[0]));
            assert(self.after_gap() =~= pre.after_gap().drop_first());
            assert(self.content() =~= pre.content());
        }
    }

    /// Slides the gap one slot left: the character just before the gap
    /// becomes the character just after it. The edit point retreats by one;
    /// a silent no-op at the start.
    pub fn move_gap_left(&mut self)
        requires
            old(self).wf(),
        ensures
            final(self).wf(),
            final(self).content() == old(self).content(),
            final(self).cap() == old(self).cap(),
            final(self).gap_end - final(self).gap_begin == old(self).gap_end - old(self).gap_begin,
            old(self).cursor() > 0 ==> final(self).cursor() == old(self).cursor() - 1,
            old(self).cursor() == 0 ==> *final(self) == *old(self),
    {
        if self.gap_begin == 0 {
            return ;
        }
        let ghost pre = *self;
        let left_val = self.buffer[self.gap_begin - 1];
        self.buffer[self.gap_begin - 1] = None;
        self.buffer[self.gap_end] = left_val;
        self.gap_begin = self.gap_begin - 1;
        self.gap_end = self.gap_end - 1;
        proof {
            assert(self.before_gap() =~= pre.before_gap().drop_last());
            assert(self.after_gap() =~= seq![pre.before_gap().last()] + pre.after_gap());
            assert(self.content() =~= pre.content());
        }
    }

    /// Moves the edit point back to the start of the content.
    pub fn reset(&mut self)
        requires
            old(self).wf(),
        ensures
            final(self).wf(),
            final(self).content() == old(self).content(),
            final(self).cap() == old(self).cap(),
            final(self).cursor() == 0,
    {
        while self.gap_begin != 0
            invariant
                self.wf(),
                self.content() == old(self).content(),
                self.cap() == old(self).cap(),
            decreases self.gap_begin,
        {
            self.move_gap_left();
        }
    }
}

/// Relies on `String::push`: appends one character to the string.
#[verifier::external_body]
pub(crate) fn string_push_char(s: &mut String, c: char)
    ensures
        final(s)@ == old(s)@.push(c),
{
    s.push(c);
}

impl GapBuffer {
    /// Number of characters of content.
    pub(crate) fn content_length(&self) -> (n: usize)
        requires
            self.wf(),
        ensures
            n as int == self.content().len(),
    {
        self.gap_begin + (self.buffer.len() - self.gap_end - 1)
    }

    /// The character at content position `i`.
    fn char_at_idx(&self, i: usize) -> (c: char)
        requires
            self.wf(),
            i < self.content().len(),
        ensures
            c == self.content()[i as int],
    {
        if i < self.gap_begin {
            self.buffer[i].unwrap()
        } else {
            let k = i + (self.gap_end - self.gap_begin) + 1;
            self.buffer[k].unwrap()
        }
    }

    /// The content as a string; reading is non-destructive, so consecutive
    /// calls with no mutation in between return the same string.
    pub fn get_content(&self) -> (r: String)
        requires
            self.wf(),
        ensures
            r@ == self.content(),
    {
        let n = self.content_length();
        let mut r = String::new();
        let mut i: usize = 0;
        while i < n
            invariant
                self.wf(),
                n as int == self.content().len(),
                i <= n,
                r@ == self.content().take(i as int),
            decreases n - i,
        {
            let c = self.char_at_idx(i);
            string_push_char(&mut r, c);
            proof {
                assert(self.content().take(i + 1 as int) =~= self.content().take(i as int).push(
                    self.content()[i as int],
                ));
            }
            i = i + 1;
        }
        proof {
            assert(self.content().take(n as int) =~= self.content());
        }
        r
    }

    /// Whether the edit point is at the very start of the content.
    pub fn is_buf_begin(&self) -> (r: bool)
        ensures
            r == (self.cursor() == 0),
    {
        self.gap_begin == 0
    }

    /// Whether the edit point is on the first line: no newline precedes it.
    pub fn is_first_line(&self) -> (r: bool)
        requires
            self.wf(),
        ensures
            r <==> (forall|i: int| 0 <= i < self.cursor() ==> self.content()[i] != '\n'),
    {
        let mut i: usize = 0;
        while i < self.gap_begin
            invariant
                self.wf(),
                i <= self.gap_begin,
                forall|m: int| 0 <= m < i ==> self.content()[m] != '\n',
            decreases self.gap_begin - i,
        {
            if self.char_at_idx(i) == '\n' {
                return false;
            }
            i = i + 1;
        }
        true
    }

    /// Whether the edit point is on the last line: no line follows it.
    pub fn is_last_line(&self) -> (r: bool)
        requires
            self.wf(),
        ensures
            r == !has_next_line(self.content(), self.cursor()),
    {
        let n = self.content_length();
        let mut i = self.gap_begin;
        while i < n
            invariant
                self.wf(),
                n as int == self.content().len(),
                self.cursor() <= i as int <= n as int,
                forall|m: int|
                    self.cursor() <= m < i ==> !(#[trigger] self.content()[m] == '\n' && m + 1
                        < self.content().len()),
            decreases n - i,
        {
            if i + 1 < n {
                if self.char_at_idx(i) == '\n' {
                    return false;
                }
            }
            i = i + 1;
        }
        true
    }

    /// Whether the next character is a newline or the content has ended.
    pub fn is_line_end(&self) -> (r: bool)
        requires
            self.wf(),
        ensures
            r == (self.cursor() == self.content().len() || self.content()[self.cursor()] == '\n'),
    {
        let n = self.content_length();
        if self.gap_begin == n {
            true
        } else {
            self.char_at_idx(self.gap_begin) == '\n'
        }
    }

    /// Whether the edit point is at the start of its line.
    pub fn is_line_start(&self) -> (r: bool)
        requires
            self.wf(),
        ensures
            r == (self.cursor() == 0 || self.content()[self.cursor() - 1] == '\n'),
    {
        if self.gap_begin == 0 {
            true
        } else {
            self.char_at_idx(self.gap_begin - 1) == '\n'
        }
    }

    /// Whether the character just left of the edit point is a newline.
    pub fn char_before_is_newline(&self) -> (r: bool)
        requires
            self.wf(),
        ensures
            r == (self.cursor() > 0 && self.content()[self.cursor() - 1] == '\n'),
    {
        if self.gap_begin == 0 {
            false
        } else {
            self.char_at_idx(self.gap_begin - 1) == '\n'
        }
    }

    /// Whether the character at the edit point is a newline.
    pub fn char_at_is_newline(&self) -> (r: bool)
        requires
            self.wf(),
        ensures
            r == (self.cursor() < self.content().len() && self.content()[self.cursor()] == '\n'),
    {
        let n = self.content_length();
        if self.gap_begin == n {
            false
        } else {
            self.char_at_idx(self.gap_begin) == '\n'
        }
    }

    /// Whether the character at the edit point is a space.
    pub fn next_is_space(&self) -> (r: bool)
        requires
            self.wf(),
        ensures
            r == (self.cursor() < self.content().len() && self.content()[self.cursor()] == ' '),
    {
        let n = self.content_length();
        if self.gap_begin == n {
            false
        } else {
            self.char_at_idx(self.gap_begin) == ' '
        }
    }

    /// Start of the line containing content position `from`.
    pub(crate) fn scan_line_start(&self, from: usize) -> (r: usize)
        requires
            self.wf(),
            from as int <= self.content().len(),
        ensures
            r as int == line_start_at(self.content(), from as int),
    {
        let mut i = from;
        while i > 0
            invariant
                self.wf(),
                from as int <= self.content().len(),
                i <= from,
                forall|m: int| i <= m < from ==> #[trigger] self.content()[m] != '\n',
            decreases i,
        {
            if self.char_at_idx(i - 1) == '\n' {
                proof {
                    lemma_line_start_unique(self.content(), from as int, i as int);
                }
                return i;
            }
            i = i - 1;
        }
        proof {
            lemma_line_start_unique(self.content(), from as int, 0);
        }
        0
    }

    /// End of the line containing content position `from`: the index of the
    /// next newline, or the content's length.
    pub(crate) fn scan_line_end(&self, from: usize) -> (r: usize)
        requires
            self.wf(),
            from as int <= self.content().len(),
        ensures
            r as int == line_end_at(self.content(), from as int),
    {
        let n = self.content_length();
        let mut i = from;
        while i < n
            invariant
                self.wf(),
                n as int == self.content().len(),
                from <= i <= n,
                forall|m: int| from <= m < i ==> #[trigger] self.content()[m] != '\n',
            decreases n - i,
        {
            if self.char_at_idx(i) == '\n' {
                proof {
                    lemma_line_end_unique(self.content(), from as int, i as int);
                }
                return i;
            }
            i = i + 1;
        }
        proof {
            lemma_line_end_unique(self.content(), from as int, n as int);
        }
        n
    }

    /// Length of the line the edit point is on, its newline excluded.
    pub fn get_len(&self) -> (r: usize)
        requires
            self.wf(),
        ensures
            r as int == line_len_at(self.content(), self.cursor()),
    {
        proof {
            lemma_line_start_props(self.content(), self.cursor());
            lemma_line_end_props(self.content(), self.cursor());
        }
        let s = self.scan_line_start(self.gap_begin);
        let e = self.scan_line_end(self.gap_begin);
        e - s
    }

    /// The current line up to its newline or the end of the content: the
    /// whole line when `full_line` is set, otherwise only the part from the
    /// edit point on.
    pub fn grab_to_end(&self, full_line: bool) -> (r: String)
        requires
            self.wf(),
        ensures
            r@ == self.content().subrange(
                if full_line {
                    line_start_at(self.content(), self.cursor())
                } else {
                    self.cursor()
                },
                line_end_at(self.content(), self.cursor()),
            ),
    {
        proof {
            lemma_line_start_props(self.content(), self.cursor());
            lemma_line_end_props(self.content(), self.cursor());
        }
        let start = if full_line {
            self.scan_line_start(self.gap_begin)
        } else {
            self.gap_begin
        };
        let end = self.scan_line_end(self.gap_begin);
        let mut r = String::new();
        let mut i = start;
        while i < end
            invariant
                self.wf(),
                start <= i <= end,
                end as int <= self.content().len(),
                r@ == self.content().subrange(start as int, i as int),
            decreases end - i,
        {
            let c = self.char_at_idx(i);
            string_push_char(&mut r, c);
            proof {
                assert(self.content().subrange(start as int, i + 1 as int) =~= self.content()
                    .subrange(start as int, i as int).push(self.content()[i as int]));
            }
            i = i + 1;
        }
        r
    }

    /// Moves the edit point to the end of its line, just before the newline
    /// or at the end of the content.
    pub fn move_to_last_char(&mut self)
        requires
            old(self).wf(),
        ensures
            final(self).wf(),
            final(self).content() == old(self).content(),
            final(self).cap() == old(self).cap(),
            final(self).cursor() == line_end_at(old(self).content(), old(self).cursor()),
    {
        proof {
            lemma_line_end_props(self.content(), self.cursor());
        }
        let target = self.scan_line_end(self.gap_begin);
        while self.gap_begin < target
            invariant
                self.wf(),
                self.content() == old(self).content(),
                self.cap() == old(self).cap(),
                self.gap_begin <= target,
                target as int <= self.content().len(),
            decreases target - self.gap_begin,
        {
            self.move_gap_right();
        }
    }

    /// Moves the edit point back to the start of its line.
    pub fn move_to_line_start(&mut self)
        requires
            old(self).wf(),
        ensures
            final(self).wf(),
            final(self).content() == old(self).content(),
            final(self).cap() == old(self).cap(),
            final(self).cursor() == line_start_at(old(self).content(), old(self).cursor()),
    {
        proof {
            lemma_line_start_props(self.content(), self.cursor());
        }
        let target = self.scan_line_start(self.gap_begin);
        while self.gap_begin > target
            invariant
                self.wf(),
                self.content() == old(self).content(),
                self.cap() == old(self).cap(),
                target <= self.gap_begin,
            decreases self.gap_begin,
        {
            self.move_gap_left();
        }
    }

    /// Removes the run of spaces at the edit point, as when a line break
    /// would otherwise carry indentation onto the new line.
    pub fn delete_spaces_right(&mut self)
        requires
            old(self).wf(),
        ensures
            final(self).wf(),
            final(self).cap() == old(self).cap(),
            final(self).cursor() == old(self).cursor(),
            final(self).content() == old(self).content().take(old(self).cursor())
                + drop_leading_spaces(old(self).content().skip(old(self).cursor())),
    {
        while self.next_is_space()
            invariant
                self.wf(),
                self.cap() == old(self).cap(),
                self.cursor() == old(self).cursor(),
                self.content().take(self.cursor()) == old(self).content().take(old(self).cursor()),
                drop_leading_spaces(self.content().skip(self.cursor())) == drop_leading_spaces(
                    old(self).content().skip(old(self).cursor()),
                ),
            decreases self.content().len(),
        {
            let ghost pre = *self;
            self.buffer[self.gap_end + 1] = None;
            self.gap_end = self.gap_end + 1;
            proof {
                assert(self.before_gap() =~= pre.before_gap());
                assert(self.after_gap() =~= pre.after_gap().drop_first());
                assert(self.content() =~= pre.content().remove(pre.cursor()));
                assert(self.content().take(self.cursor()) =~= pre.content().take(pre.cursor()));
                assert(self.content().skip(self.cursor()) =~= pre.content().skip(
                    pre.cursor(),
                ).drop_first());
            }
        }
        proof {
            assert(drop_leading_spaces(self.content().skip(self.cursor())) == self.content().skip(
                self.cursor(),
            ));
            assert(self.content() =~= self.content().take(self.cursor()) + self.content().skip(
                self.cursor(),
            ));
        }
    }

    /// Splits the current line at the edit point, as the enter key does
    /// while inserting: a newline goes in and the run of spaces that would
    /// otherwise carry indentation onto the new line is dropped. The edit
    /// point ends at the start of the new line.
    pub fn move_line_contents_enter(&mut self)
        requires
            old(self).wf(),
            old(self).cap() + GROW_SIZE < usize::MAX,
        ensures
            final(self).wf(),
            final(self).cap() <= old(self).cap() + GROW_SIZE,
            final(self).content() == old(self).content().take(old(self).cursor()) + seq!['\n']
                + drop_leading_spaces(old(self).content().skip(old(self).cursor())),
            final(self).cursor() == old(self).cursor() + 1,
    {
        let ghost s = self.content();
        let ghost cur = self.cursor();
        self.insert_left('\n');
        self.delete_spaces_right();
        proof {
            let s1 = s.insert(cur, '\n');
            assert(s1.take(cur + 1) =~= s.take(cur) + seq!['\n']);
            assert(s1.skip(cur + 1) =~= s.skip(cur));
            assert(self.content() =~= s.take(cur) + seq!['\n'] + drop_leading_spaces(s.skip(cur)));
        }
    }

    /// Joins the line at the edit point onto the previous one, as backspace
    /// does at the start of a line: the newline just left of the edit point
    /// becomes a single separating space. The edit point stays on the same
    /// character.
    pub fn move_line_contents_backspace(&mut self)
        requires
            old(self).wf(),
            old(self).cursor() > 0,
            old(self).content()[old(self).cursor() - 1] == '\n',
            old(self).cap() + GROW_SIZE < usize::MAX,
        ensures
            final(self).wf(),
            final(self).cap() <= old(self).cap() + GROW_SIZE,
            final(self).content() == old(self).content().update(old(self).cursor() - 1, ' '),
            final(self).cursor() == old(self).cursor(),
    {
        let ghost s = self.content();
        let ghost cur = self.cursor();
        self.delete_item();
        self.insert_left(' ');
        proof {
            assert(self.content() =~= s.update(cur - 1, ' '));
        }
    }

    /// Whether the edit point sits in the last word of its line.
    fn is_last_word(&self) -> (r: bool)
        requires
            self.wf(),
        ensures
            r == last_word_scan(self.content(), self.cursor(), false),
    {
        let n = self.content_length();
        let mut i = self.gap_begin;
        let mut word = false;
        while i < n
            invariant
                self.wf(),
                n as int == self.content().len(),
                self.cursor() <= i as int <= n as int,
                last_word_scan(self.content(), self.cursor(), false) == last_word_scan(
                    self.content(),
                    i as int,
                    word,
                ),
            decreases n - i,
        {
            let c = self.char_at_idx(i);
            if c == '\n' {
                return true;
            }
            if c == ' ' {
                word = true;
            } else if (c as u32) < 128 && word {
                return false;
            }
            i = i + 1;
        }
        false
    }

    /// Jumps the edit point past the current word: right of the next space
    /// on this line, returning how many positions it moved. Reports zero and
    /// stays put when it already sits in the line's last word or no space
    /// follows on the line.
    pub fn move_to_next_word(&mut self) -> (r: usize)
        requires
            old(self).wf(),
        ensures
            final(self).wf(),
            final(self).content() == old(self).content(),
            final(self).cap() == old(self).cap(),
            ({
                let s = old(self).content();
                let cur = old(self).cursor();
                let k = first_space_from(s, cur + 1);
                if last_word_scan(s, cur, false) || k >= line_end_at(s, cur) {
                    r == 0 && *final(self) == *old(self)
                } else {
                    final(self).cursor() == k + 1 && r as int == k + 1 - cur
                }
            }),
    {
        if self.is_last_word() {
            return 0;
        }
        let le = self.scan_line_end(self.gap_begin);
        let k = self.scan_space(self.gap_begin + 1);
        if k >= le {
            return 0;
        }
        proof {
            lemma_line_end_props(self.content(), self.cursor());
            lemma_first_space_props(self.content(), self.cursor() + 1);
        }
        let start = self.gap_begin;
        let target = k + 1;
        while self.gap_begin < target
            invariant
                self.wf(),
                self.content() == old(self).content(),
                self.cap() == old(self).cap(),
                self.gap_begin <= target,
                target as int <= self.content().len(),
            decreases target - self.gap_begin,
        {
            self.move_gap_right();
        }
        target - start
    }

    /// A buffer holding the given text, or an empty buffer for `None`, with
    /// the edit point at the start.
    pub fn build(s: Option<&str>) -> (r: GapBuffer)
        requires
            s matches Some(t) ==> t@.len() + INITIAL_SIZE + 2 * GROW_SIZE <= usize::MAX,
        ensures
            r.wf(),
            r.cursor() == 0,
            r.content() == match s {
                Some(t) => t@,
                None => Seq::<char>::empty(),
            },
            r.cap() <= INITIAL_SIZE + GROW_SIZE + r.content().len(),
    {
        let mut r = GapBuffer::new();
        match s {
            None => r,
            Some(t) => {
                let n = t.unicode_len();
                let mut i: usize = 0;
                while i < n
                    invariant
                        r.wf(),
                        n == t@.len(),
                        t@.len() + INITIAL_SIZE + 2 * GROW_SIZE <= usize::MAX,
                        i <= n,
                        r.cursor() == i as int,
                        r.content() == t@.take(i as int),
                        r.cap() <= INITIAL_SIZE + GROW_SIZE + i,
                    decreases n - i,
                {
                    let c = t.get_char(i);
                    r.insert_left(c);
                    proof {
                        assert(t@.take(i as int).insert(i as int, t@[i as int]) =~= t@.take(
                            i + 1 as int,
                        ));
                    }
                    i = i + 1;
                }
                proof {
                    assert(t@.take(n as int) =~= t@);
                }
                r.reset();
                r
            },
        }
    }

    /// A buffer holding the whole of `s` reflowed to rows of at most
    /// `max_line_len` columns, with the edit point at the start.
    pub fn build_nested(s: &str, max_line_len: usize) -> (r: GapBuffer)
        requires
            max_line_len >= 1,
            s@.len() + INITIAL_SIZE + 2 * GROW_SIZE <= usize::MAX,
        ensures
            r.wf(),
            r.cursor() == 0,
            r.content() == reformat(s@, max_line_len as int),
            r.cap() <= INITIAL_SIZE + GROW_SIZE + r.content().len(),
    {
        proof {
            lemma_reformat_len(s@, max_line_len - 1 as int, 0, 0);
        }
        let text = reformat_string(s, max_line_len);
        GapBuffer::build(Some(text.as_str()))
    }

    /// Index of the first space at or after content position `from`, or the
    /// content's length when no space follows.
    fn scan_space(&self, from: usize) -> (r: usize)
        requires
            self.wf(),
            from as int <= self.content().len() + 1,
        ensures
            r as int == first_space_from(self.content(), from as int),
    {
        let n = self.content_length();
        if from > n {
            return n;
        }
        let mut i = from;
        while i < n
            invariant
                self.wf(),
                n as int == self.content().len(),
                from <= i <= n,
                first_space_from(self.content(), from as int) == first_space_from(
                    self.content(),
                    i as int,
                ),
            decreases n - i,
        {
            if self.char_at_idx(i) == ' ' {
                return i;
            }
            i = i + 1;
        }
        n
    }
}

/// One step of the line-wrap scan: the reflowed text from position `i` on,
/// with `j` columns already counted on the current display row. The column
/// counter resets on a newline; once it reaches the limit, the next space is
/// replaced by a newline and the counter starts over.
pub open spec fn reformat_from(s: Seq<char>, limit: int, i: int, j: int) -> Seq<char>
    decreases s.len() - i,
{
    if i >= s.len() {
        Seq::empty()
    } else {
        let j1 = if s[i] == '\n' {
            0
        } else {
            j
        };
        if j1 >= limit && ascii_char(s[i]) && s[i] != ' ' {
            seq![s[i]] + reformat_from(s, limit, i + 1, j1)
        } else if j1 >= limit && s[i] == ' ' {
            seq!['\n'] + reformat_from(s, limit, i + 1, 1)
        } else {
            seq![s[i]] + reformat_from(s, limit, i + 1, j1 + 1)
        }
    }
}

/// Text reflowed to display rows of at most `max_line_len` columns.
pub open spec fn reformat(s: Seq<char>, max_line_len: int) -> Seq<char> {
    reformat_from(s, max_line_len - 1, 0, 0)
}

/// Reflowing replaces characters one for one and so keeps the length.
pub proof fn lemma_reformat_len(s: Seq<char>, limit: int, i: int, j: int)
    requires
        0 <= i <= s.len(),
    ensures
        reformat_from(s, limit, i, j).len() == s.len() - i,
    decreases s.len() - i,
{
    if i < s.len() {
        let j1 = if s[i] == '\n' {
            0
        } else {
            j
        };
        if j1 >= limit && ascii_char(s[i]) && s[i] != ' ' {
            lemma_reformat_len(s, limit, i + 1, j1);
        } else if j1 >= limit && s[i] == ' ' {
            lemma_reformat_len(s, limit, i + 1, 1);
        } else {
            lemma_reformat_len(s, limit, i + 1, j1 + 1);
        }
    }
}

/// The line-wrap pass over a string, used when a file's text is first laid
/// out for a terminal of a given width.
fn reformat_string(s: &str, max_line_len: usize) -> (r: String)
    requires
        max_line_len >= 1,
    ensures
        r@ == reformat(s@, max_line_len as int),
{
    let limit = max_line_len - 1;
    let n = s.unicode_len();
    let mut r = String::new();
    let mut j: usize = 0;
    let mut i: usize = 0;
    while i < n
        invariant
            n == s@.len(),
            j <= i <= n,
            limit == max_line_len - 1,
            max_line_len >= 1,
            reformat(s@, max_line_len as int) == r@ + reformat_from(
                s@,
                limit as int,
                i as int,
                j as int,
            ),
        decreases n - i,
    {
        let ghost r0 = r@;
        let ghost jprev = j as int;
        let c = s.get_char(i);
        let j1 = if c == '\n' {
            0
        } else {
            j
        };
        if j1 >= limit && (c as u32) < 128 && c != ' ' {
            string_push_char(&mut r, c);
            j = j1;
            proof {
                assert(r@ + reformat_from(s@, limit as int, i + 1 as int, j1 as int) =~= r0
                    + reformat_from(s@, limit as int, i as int, jprev));
            }
        } else if j1 >= limit && c == ' ' {
            string_push_char(&mut r, '\n');
            j = 1;
            proof {
                assert(r@ + reformat_from(s@, limit as int, i + 1 as int, 1) =~= r0
                    + reformat_from(s@, limit as int, i as int, jprev));
            }
        } else {
            string_push_char(&mut r, c);
            j = j1 + 1;
            proof {
                assert(r@ + reformat_from(s@, limit as int, i + 1 as int, j1 + 1 as int) =~= r0
                    + reformat_from(s@, limit as int, i as int, jprev));
            }
        }
        i = i + 1;
    }
    proof {
        assert(r@ + reformat_from(s@, limit as int, n as int, j as int) =~= r@);
    }
    r
}

/// The result of inserting the characters of `t`, in order, each at the edit
/// point, into a buffer whose content is `s` with its edit point at `cur`.
/// This is exactly what a sequence of `insert_left` calls does.
pub open spec fn insert_all(s: Seq<char>, cur: int, t: Seq<char>) -> Seq<char>
    decreases t.len(),
{
    if t.len() == 0 {
        s
    } else {
        insert_all(s.insert(cur, t[0]), cur + 1, t.drop_first())
    }
}

/// Round trip: inserting a text character by character at the edit point
/// splices exactly that text into the content at that position.
pub proof fn lemma_insert_round_trip(s: Seq<char>, cur: int, t: Seq<char>)
    requires
        0 <= cur <= s.len(),
    ensures
        insert_all(s, cur, t) == s.take(cur) + t + s.skip(cur),
    decreases t.len(),
{
    if t.len() == 0 {
        assert(insert_all(s, cur, t) =~= s.take(cur) + t + s.skip(cur));
    } else {
        let s1 = s.insert(cur, t[0]);
        lemma_insert_round_trip(s1, cur + 1, t.drop_first());
        assert(s1.take(cur + 1) =~= s.take(cur).push(t[0]));
        assert(s1.skip(cur + 1) =~= s.skip(cur));
        assert(s.take(cur) + t + s.skip(cur) =~= s1.take(cur + 1) + t.drop_first() + s1.skip(
            cur + 1,
        ));
    }
}

/// Round trip from empty: inserting a text character by character into an
/// empty buffer and then materializing the content returns exactly that text.
pub proof fn lemma_insert_round_trip_empty(t: Seq<char>)
    ensures
        insert_all(Seq::<char>::empty(), 0, t) == t,
{
    lemma_insert_round_trip(Seq::<char>::empty(), 0, t);
    assert(Seq::<char>::empty().take(0) + t + Seq::<char>::empty().skip(0) =~= t);
}

} // verus!
