//! The input dispatcher.
//!
//! Each iteration of the event loop hands one decoded key, together with the
//! mode state machine, the edit buffer, the tracked cursor and the pending
//! command line, to the handler for the current mode. The handler performs
//! the buffer mutation and mode transition and reports an [`Effect`]: the
//! one redraw the surrounding terminal layer still has to carry out. The
//! tracked cursor moves in lockstep with the buffer's edit point, so the
//! two can never drift apart.

use vstd::prelude::*;

use crate::cursor::Cursor;
use crate::gap_buffer::{GapBuffer, GROW_SIZE};
use crate::key::Key;
use crate::key::decode_key;
use crate::key::key_of;
use crate::lines::{
    col_of,
    drop_leading_spaces,
    first_space_from,
    last_word_scan,
    lemma_first_space_props,
    lemma_coord_bounds,
    lemma_cross_newline,
    lemma_drop_leading_spaces_len,
    lemma_line_end_props,
    lemma_line_start_props,
    lemma_prefix_line,
    lemma_same_line,
    line_end_at,
    line_len_at,
    line_of,
    line_start_at,
};
use crate::mode::{EditorMode, EditorState};
use crate::navigator::{
    attempt_move,
    move_coords,
    move_legal,
    move_target,
    Direction,
};

verus! {

/// The one redraw the terminal layer must perform after a dispatch step.
#[derive(Clone, Copy, PartialEq, Eq, Structural, Debug)]
pub enum Effect {
    /// No visible change beyond what the status bar shows anyway.
    Nothing,
    /// The terminal cursor must be repositioned to the tracked coordinates.
    CursorSync,
    /// A character was inserted: echo the byte and redraw the line's tail.
    InsertedChar(u8),
    /// A character was deleted: erase one cell and redraw the line's tail.
    DeletedChar,
    /// The line was split at the edit point: redraw to the end of the screen.
    SplitLine,
    /// Two lines were joined: redraw to the end of the screen.
    JoinedLines,
    /// Echo a byte into the command field.
    PendingEcho(u8),
    /// Erase one cell back in the command field.
    PendingErase,
    /// Persist the buffer's materialized content to the opened file.
    SaveFile,
}

/// The tracked cursor names exactly the line and column of the buffer's
/// edit point.
pub open spec fn synced(b: GapBuffer, c: Cursor) -> bool {
    &&& c.user_row as int == line_of(b.content(), b.cursor())
    &&& c.user_col as int == col_of(b.content(), b.cursor())
}

/// The direction a movement key requests, if any.
pub open spec fn movement_of(k: Key) -> Option<Direction> {
    match k {
        Key::ArrowUp => Some(Direction::Up),
        Key::ArrowDown => Some(Direction::Down),
        Key::ArrowLeft => Some(Direction::Left),
        Key::ArrowRight => Some(Direction::Right),
        Key::Character(b) => {
            if b == 107 {
                Some(Direction::Up)
            } else if b == 106 {
                Some(Direction::Down)
            } else if b == 104 {
                Some(Direction::Left)
            } else if b == 108 {
                Some(Direction::Right)
            } else {
                None
            }
        },
        _ => None,
    }
}

/// What one navigator call leaves behind: on a legal move the edit point
/// stands at the target and the cursor at the target's coordinates; an
/// illegal move changes nothing.
pub open spec fn movement_outcome(
    b0: GapBuffer,
    c0: Cursor,
    b1: GapBuffer,
    c1: Cursor,
    dir: Direction,
) -> bool {
    let s = b0.content();
    let cur = b0.cursor();
    if move_legal(s, cur, dir) {
        &&& b1.cursor() == move_target(s, cur, dir)
        &&& c1.user_row as int == move_coords(s, cur, dir).0
        &&& c1.user_col as int == move_coords(s, cur, dir).1
    } else {
        b1 == b0 && c1 == c0
    }
}

/// The shared handling of escape and movement keys: escape or interrupt
/// returns to normal mode, a movement key runs the navigator, anything else
/// is ignored.
pub open spec fn basic_step(
    k: Key,
    b0: GapBuffer,
    c0: Cursor,
    m0: EditorState,
    b1: GapBuffer,
    c1: Cursor,
    m1: EditorState,
    eff: Effect,
) -> bool {
    if k == Key::Escape || k == Key::Interrupt {
        &&& b1 == b0
        &&& c1 == c0
        &&& m1.editor_mode == EditorMode::Normal
        &&& m1.previous_mode == m0.editor_mode
        &&& eff == Effect::Nothing
    } else {
        match movement_of(k) {
            Some(dir) => {
                &&& m1 == m0
                &&& movement_outcome(b0, c0, b1, c1, dir)
                &&& eff == if move_legal(b0.content(), b0.cursor(), dir) {
                    Effect::CursorSync
                } else {
                    Effect::Nothing
                }
            },
            None => b1 == b0 && c1 == c0 && m1 == m0 && eff == Effect::Nothing,
        }
    }
}

/// What the word jump leaves behind.
pub open spec fn word_step(b0: GapBuffer, c0: Cursor, b1: GapBuffer, c1: Cursor, eff: Effect) -> bool {
    let s = b0.content();
    let cur = b0.cursor();
    let k = first_space_from(s, cur + 1);
    if last_word_scan(s, cur, false) || k >= line_end_at(s, cur) {
        b1 == b0 && c1 == c0 && eff == Effect::Nothing
    } else {
        &&& b1.cursor() == k + 1
        &&& c1.user_row == c0.user_row
        &&& c1.user_col as int == c0.user_col + (k + 1 - cur)
        &&& eff == Effect::CursorSync
    }
}

/// One normal-mode (or visual-mode) step, by key: `:` arms the command
/// line, `i`/`a`/`v` switch modes, `0`, `$` and `w` jump within the line,
/// and escape or movement keys take the shared path.
pub open spec fn normal_step(
    k: Key,
    b0: GapBuffer,
    c0: Cursor,
    m0: EditorState,
    b1: GapBuffer,
    c1: Cursor,
    m1: EditorState,
    eff: Effect,
) -> bool {
    let s = b0.content();
    let cur = b0.cursor();
    if k == Key::Character(58) {  // `:`
        &&& b1 == b0
        &&& c1 == c0
        &&& m1.editor_mode == EditorMode::Command
        &&& m1.previous_mode == m0.editor_mode
        &&& eff == Effect::Nothing
    } else if k == Key::Character(105) {  // `i`
        &&& b1 == b0
        &&& c1 == c0
        &&& m1.editor_mode == EditorMode::Insert
        &&& m1.previous_mode == m0.editor_mode
        &&& eff == Effect::Nothing
    } else if k == Key::Character(118) {  // `v`
        &&& b1 == b0
        &&& c1 == c0
        &&& m1.editor_mode == EditorMode::Visual
        &&& m1.previous_mode == m0.editor_mode
        &&& eff == Effect::Nothing
    } else if k == Key::Character(97) {  // `a`: one right move, then insert
        &&& movement_outcome(b0, c0, b1, c1, Direction::Right)
        &&& m1.editor_mode == EditorMode::Insert
        &&& m1.previous_mode == m0.editor_mode
        &&& eff == if move_legal(s, cur, Direction::Right) {
            Effect::CursorSync
        } else {
            Effect::Nothing
        }
    } else if k == Key::Character(48) {  // `0`: to the start of the line
        &&& m1 == m0
        &&& b1.cursor() == line_start_at(s, cur)
        &&& c1.user_row == c0.user_row
        &&& c1.user_col == 1
        &&& eff == Effect::CursorSync
    } else if k == Key::Character(36) {  // `$`: to the end of the line
        &&& m1 == m0
        &&& b1.cursor() == line_end_at(s, cur)
        &&& c1.user_row == c0.user_row
        &&& c1.user_col as int == line_len_at(s, cur) + 1
        &&& eff == Effect::CursorSync
    } else if k == Key::Character(119) {  // `w`: past the next word boundary
        &&& m1 == m0
        &&& word_step(b0, c0, b1, c1, eff)
    } else {
        basic_step(k, b0, c0, m0, b1, c1, m1, eff)
    }
}

/// One insert-mode step, by key: enter splits the line and drops the
/// indentation carried onto the new line, backspace deletes or joins,
/// escape and arrows take the shared path, and any other byte is written
/// at the edit point.
pub open spec fn insert_step(
    k: Key,
    b0: GapBuffer,
    c0: Cursor,
    m0: EditorState,
    b1: GapBuffer,
    c1: Cursor,
    m1: EditorState,
    eff: Effect,
) -> bool {
    let s = b0.content();
    let cur = b0.cursor();
    match k {
        Key::Enter => {
            &&& b1.content() == s.take(cur) + seq!['\n'] + drop_leading_spaces(s.skip(cur))
            &&& b1.cursor() == cur + 1
            &&& c1.user_row as int == c0.user_row + 1
            &&& c1.user_col == 1
            &&& m1 == m0
            &&& eff == Effect::SplitLine
        },
        Key::Backspace => {
            if cur == 0 {
                b1 == b0 && c1 == c0 && m1 == m0 && eff == Effect::Nothing
            } else if s[cur - 1] == '\n' {
                &&& b1.content() == s.update(cur - 1, ' ')
                &&& b1.cursor() == cur
                &&& c1.user_row as int == c0.user_row - 1
                &&& c1.user_col as int == (cur - 1) - line_start_at(s, cur - 1) + 2
                &&& m1 == m0
                &&& eff == Effect::JoinedLines
            } else {
                &&& b1.content() == s.remove(cur - 1)
                &&& b1.cursor() == cur - 1
                &&& c1.user_row == c0.user_row
                &&& c1.user_col as int == c0.user_col - 1
                &&& m1 == m0
                &&& eff == Effect::DeletedChar
            }
        },
        Key::Character(b) => {
            if b == 10 || b == 13 {
                b1 == b0 && c1 == c0 && m1 == m0 && eff == Effect::Nothing
            } else {
                &&& b1.content() == s.insert(cur, b as char)
                &&& b1.cursor() == cur + 1
                &&& c1.user_row == c0.user_row
                &&& c1.user_col as int == c0.user_col + 1
                &&& m1 == m0
                &&& eff == Effect::InsertedChar(b)
            }
        },
        _ => basic_step(k, b0, c0, m0, b1, c1, m1, eff),
    }
}

/// One command-mode step, by key: enter replays the pending command —
/// `q` requests shutdown, `w` requests a save, anything else is ignored —
/// and clears it; backspace erases one pending byte; escape, interrupt or
/// an arrow discards the pending command; any other byte is appended.
pub open spec fn command_step(
    k: Key,
    m0: EditorState,
    p0: Seq<u8>,
    m1: EditorState,
    p1: Seq<u8>,
    eff: Effect,
) -> bool {
    match k {
        Key::Enter => {
            &&& m1.editor_mode == if p0.contains(113) {
                EditorMode::ShutDown
            } else {
                EditorMode::Normal
            }
            &&& m1.previous_mode == m0.editor_mode
            &&& p1 == Seq::<u8>::empty()
            &&& eff == if p0.contains(119) {
                Effect::SaveFile
            } else {
                Effect::Nothing
            }
        },
        Key::Backspace => {
            &&& m1 == m0
            &&& p1 == if p0.len() > 0 {
                p0.drop_last()
            } else {
                p0
            }
            &&& eff == Effect::PendingErase
        },
        Key::Character(b) => m1 == m0 && p1 == p0.push(b) && eff == Effect::PendingEcho(b),
        _ => {
            &&& m1.editor_mode == EditorMode::Normal
            &&& m1.previous_mode == m0.editor_mode
            &&& p1 == Seq::<u8>::empty()
            &&& eff == Effect::Nothing
        },
    }
}

/// Runs the navigator for one direction and keeps the tracked cursor on the
/// edit point's coordinates.
fn do_move(content_buffer: &mut GapBuffer, cursor: &mut Cursor, dir: Direction) -> (eff: Effect)
    requires
        old(content_buffer).wf(),
        synced(*old(content_buffer), *old(cursor)),
        old(content_buffer).content().len() + 2 < u32::MAX,
    ensures
        final(content_buffer).wf(),
        final(content_buffer).content() == old(content_buffer).content(),
        final(content_buffer).cap() == old(content_buffer).cap(),
        synced(*final(content_buffer), *final(cursor)),
        movement_outcome(*old(content_buffer), *old(cursor), *final(content_buffer), *final(cursor), dir),
        eff == if move_legal(old(content_buffer).content(), old(content_buffer).cursor(), dir) {
            Effect::CursorSync
        } else {
            Effect::Nothing
        },
{
    proof {
        lemma_coord_bounds(content_buffer.content(), content_buffer.cursor());
    }
    let r = attempt_move(content_buffer, dir, cursor.user_row(), cursor.user_col());
    match r {
        Some(p) => {
            cursor.set_user_row(p.0);
            cursor.set_user_col(p.1);
            Effect::CursorSync
        },
        None => Effect::Nothing,
    }
}

/// The shared handler for escape and movement keys, reached from both
/// normal and insert mode.
pub fn basic_movement_handler(
    k: Key,
    content_buffer: &mut GapBuffer,
    editor_state: &mut EditorState,
    cursor: &mut Cursor,
) -> (eff: Effect)
    requires
        old(content_buffer).wf(),
        synced(*old(content_buffer), *old(cursor)),
        old(content_buffer).content().len() + 2 < u32::MAX,
    ensures
        final(content_buffer).wf(),
        final(content_buffer).content() == old(content_buffer).content(),
        final(content_buffer).cap() == old(content_buffer).cap(),
        synced(*final(content_buffer), *final(cursor)),
        basic_step(
            k,
            *old(content_buffer),
            *old(cursor),
            *old(editor_state),
            *final(content_buffer),
            *final(cursor),
            *final(editor_state),
            eff,
        ),
{
    match k {
        Key::Escape => {
            editor_state.update_editor_mode(EditorMode::Normal);
            Effect::Nothing
        },
        Key::Interrupt => {
            editor_state.update_editor_mode(EditorMode::Normal);
            Effect::Nothing
        },
        Key::ArrowUp => do_move(content_buffer, cursor, Direction::Up),
        Key::ArrowDown => do_move(content_buffer, cursor, Direction::Down),
        Key::ArrowLeft => do_move(content_buffer, cursor, Direction::Left),
        Key::ArrowRight => do_move(content_buffer, cursor, Direction::Right),
        Key::Character(b) => {
            if b == 107 {
                do_move(content_buffer, cursor, Direction::Up)
            } else if b == 106 {
                do_move(content_buffer, cursor, Direction::Down)
            } else if b == 104 {
                do_move(content_buffer, cursor, Direction::Left)
            } else if b == 108 {
                do_move(content_buffer, cursor, Direction::Right)
            } else {
                Effect::Nothing
            }
        },
        _ => Effect::Nothing,
    }
}

/// The normal-mode (and visual-mode) handler.
pub fn normal_mode_handler(
    k: Key,
    editor_state: &mut EditorState,
    content_buffer: &mut GapBuffer,
    cursor: &mut Cursor,
) -> (eff: Effect)
    requires
        old(content_buffer).wf(),
        synced(*old(content_buffer), *old(cursor)),
        old(content_buffer).content().len() + 2 < u32::MAX,
    ensures
        final(content_buffer).wf(),
        final(content_buffer).content() == old(content_buffer).content(),
        final(content_buffer).cap() == old(content_buffer).cap(),
        synced(*final(content_buffer), *final(cursor)),
        normal_step(
            k,
            *old(content_buffer),
            *old(cursor),
            *old(editor_state),
            *final(content_buffer),
            *final(cursor),
            *final(editor_state),
            eff,
        ),
{
    let ghost s = content_buffer.content();
    let ghost cur = content_buffer.cursor();
    proof {
        lemma_line_start_props(s, cur);
        lemma_line_end_props(s, cur);
        lemma_coord_bounds(s, cur);
        lemma_first_space_props(s, cur + 1);
    }
    match k {
        Key::Character(58) => {
            editor_state.update_editor_mode(EditorMode::Command);
            Effect::Nothing
        },
        Key::Character(105) => {
            editor_state.update_editor_mode(EditorMode::Insert);
            Effect::Nothing
        },
        Key::Character(118) => {
            editor_state.update_editor_mode(EditorMode::Visual);
            Effect::Nothing
        },
        Key::Character(97) => {
            let eff = do_move(content_buffer, cursor, Direction::Right);
            editor_state.update_editor_mode(EditorMode::Insert);
            eff
        },
        Key::Character(48) => {
            content_buffer.move_to_line_start();
            cursor.set_user_col(1);
            proof {
                lemma_same_line(s, line_start_at(s, cur), cur);
            }
            Effect::CursorSync
        },
        Key::Character(36) => {
            let len = content_buffer.get_len();
            content_buffer.move_to_last_char();
            cursor.set_user_col((len as u32) + 1);
            proof {
                lemma_same_line(s, cur, line_end_at(s, cur));
            }
            Effect::CursorSync
        },
        Key::Character(119) => {
            let moved = content_buffer.move_to_next_word();
            if moved == 0 {
                Effect::Nothing
            } else {
                proof {
                    lemma_same_line(s, cur, content_buffer.cursor());
                }
                cursor.set_user_col(cursor.user_col() + (moved as u32));
                Effect::CursorSync
            }
        },
        _ => basic_movement_handler(k, content_buffer, editor_state, cursor),
    }
}

/// The insert-mode handler.
pub fn insert_mode_handler(
    k: Key,
    editor_state: &mut EditorState,
    content_buffer: &mut GapBuffer,
    cursor: &mut Cursor,
) -> (eff: Effect)
    requires
        old(content_buffer).wf(),
        synced(*old(content_buffer), *old(cursor)),
        old(content_buffer).content().len() + 2 < u32::MAX,
        old(content_buffer).cap() + GROW_SIZE < usize::MAX,
    ensures
        final(content_buffer).wf(),
        final(content_buffer).cap() <= old(content_buffer).cap() + GROW_SIZE,
        final(content_buffer).content().len() <= old(content_buffer).content().len() + 1,
        synced(*final(content_buffer), *final(cursor)),
        insert_step(
            k,
            *old(content_buffer),
            *old(cursor),
            *old(editor_state),
            *final(content_buffer),
            *final(cursor),
            *final(editor_state),
            eff,
        ),
{
    let ghost s = content_buffer.content();
    let ghost cur = content_buffer.cursor();
    proof {
        lemma_line_start_props(s, cur);
        lemma_line_end_props(s, cur);
        lemma_coord_bounds(s, cur);
    }
    match k {
        Key::Enter => {
            content_buffer.move_line_contents_enter();
            proof {
                lemma_drop_leading_spaces_len(s.skip(cur));
                let s2 = content_buffer.content();
                assert(forall|m: int| 0 <= m < cur ==> s2[m] == s[m]);
                lemma_prefix_line(s2, s, cur);
                assert(s2[cur] == '\n');
                lemma_cross_newline(s2, cur);
            }
            cursor.return_newline();
            Effect::SplitLine
        },
        Key::Backspace => {
            if content_buffer.is_buf_begin() {
                Effect::Nothing
            } else if content_buffer.char_before_is_newline() {
                proof {
                    lemma_line_start_props(s, cur - 1);
                }
                let pls = content_buffer.scan_line_start(content_buffer.gap_begin - 1);
                let plen = content_buffer.gap_begin - 1 - pls;
                content_buffer.move_line_contents_backspace();
                proof {
                    let s2 = content_buffer.content();
                    lemma_line_start_props(s, cur - 1);
                    lemma_coord_bounds(s, cur - 1);
                    assert(forall|m: int| 0 <= m < cur - 1 ==> s2[m] == s[m]);
                    lemma_prefix_line(s2, s, cur - 1);
                    lemma_cross_newline(s, cur - 1);
                    assert(s2[cur - 1] == ' ');
                    lemma_same_line(s2, cur - 1, cur);
                }
                cursor.dec_row(1);
                cursor.set_user_col((plen as u32) + 2);
                Effect::JoinedLines
            } else {
                content_buffer.delete_item();
                proof {
                    let s2 = content_buffer.content();
                    assert(forall|m: int| 0 <= m < cur - 1 ==> s2[m] == s[m]);
                    lemma_prefix_line(s2, s, cur - 1);
                    lemma_same_line(s, cur - 1, cur);
                }
                cursor.dec_col(1);
                Effect::DeletedChar
            }
        },
        Key::Character(b) => {
            if b == 10 || b == 13 {
                Effect::Nothing
            } else {
                content_buffer.insert_left(b as char);
                proof {
                    let s2 = content_buffer.content();
                    assert((b as char) != '\n');
                    assert(forall|m: int| 0 <= m < cur ==> s2[m] == s[m]);
                    lemma_prefix_line(s2, s, cur);
                    lemma_same_line(s2, cur, cur + 1);
                }
                cursor.inc_col(1);
                Effect::InsertedChar(b)
            }
        },
        _ => basic_movement_handler(k, content_buffer, editor_state, cursor),
    }
}

/// The command-mode handler. The buffer is untouched here: a requested save
/// is reported as an effect and carried out by the surrounding layer.
pub fn command_mode_handler(
    k: Key,
    editor_state: &mut EditorState,
    command: &mut Vec<u8>,
) -> (eff: Effect)
    ensures
        command_step(
            k,
            *old(editor_state),
            old(command)@,
            *final(editor_state),
            final(command)@,
            eff,
        ),
{
    match k {
        Key::Enter => {
            let mut has_q = false;
            let mut has_w = false;
            let mut i: usize = 0;
            while i < command.len()
                invariant
                    i <= command.len(),
                    command@ == old(command)@,
                    has_q <==> (exists|j: int| 0 <= j < i && command@[j] == 113),
                    has_w <==> (exists|j: int| 0 <= j < i && command@[j] == 119),
                decreases command.len() - i,
            {
                let b = command[i];
                if b == 113 {
                    has_q = true;
                }
                if b == 119 {
                    has_w = true;
                }
                i = i + 1;
            }
            if has_q {
                editor_state.update_editor_mode(EditorMode::ShutDown);
            } else {
                editor_state.update_editor_mode(EditorMode::Normal);
            }
            command.clear();
            if has_w {
                Effect::SaveFile
            } else {
                Effect::Nothing
            }
        },
        Key::Backspace => {
            command.pop();
            proof {
                if old(command)@.len() > 0 {
                    assert(command@ =~= old(command)@.drop_last());
                }
            }
            Effect::PendingErase
        },
        Key::Character(b) => {
            command.push(b);
            Effect::PendingEcho(b)
        },
        _ => {
            editor_state.update_editor_mode(EditorMode::Normal);
            command.clear();
            Effect::Nothing
        },
    }
}

/// One full dispatch step: decodes the frame and routes it to the handler
/// for the current mode. In `ShutDown` nothing is read and nothing changes:
/// the loop's cooperative exit.
pub fn dispatch_frame(
    b0: u8,
    b1: u8,
    b2: u8,
    editor_state: &mut EditorState,
    content_buffer: &mut GapBuffer,
    cursor: &mut Cursor,
    command: &mut Vec<u8>,
) -> (eff: Effect)
    requires
        old(content_buffer).wf(),
        synced(*old(content_buffer), *old(cursor)),
        old(content_buffer).content().len() + 2 < u32::MAX,
        old(content_buffer).cap() + GROW_SIZE < usize::MAX,
    ensures
        final(content_buffer).wf(),
        final(content_buffer).cap() <= old(content_buffer).cap() + GROW_SIZE,
        final(content_buffer).content().len() <= old(content_buffer).content().len() + 1,
        synced(*final(content_buffer), *final(cursor)),
        ({
            let k = key_of(b0, b1, b2);
            match old(editor_state).editor_mode {
                EditorMode::Normal | EditorMode::Visual => {
                    &&& normal_step(
                        k,
                        *old(content_buffer),
                        *old(cursor),
                        *old(editor_state),
                        *final(content_buffer),
                        *final(cursor),
                        *final(editor_state),
                        eff,
                    )
                    &&& final(command)@ == old(command)@
                },
                EditorMode::Insert => {
                    &&& insert_step(
                        k,
                        *old(content_buffer),
                        *old(cursor),
                        *old(editor_state),
                        *final(content_buffer),
                        *final(cursor),
                        *final(editor_state),
                        eff,
                    )
                    &&& final(command)@ == old(command)@
                },
                EditorMode::Command => {
                    &&& command_step(
                        k,
                        *old(editor_state),
                        old(command)@,
                        *final(editor_state),
                        final(command)@,
                        eff,
                    )
                    &&& *final(content_buffer) == *old(content_buffer)
                    &&& *final(cursor) == *old(cursor)
                },
                EditorMode::ShutDown => {
                    &&& *final(editor_state) == *old(editor_state)
                    &&& *final(content_buffer) == *old(content_buffer)
                    &&& *final(cursor) == *old(cursor)
                    &&& final(command)@ == old(command)@
                    &&& eff == Effect::Nothing
                },
            }
        }),
{
    let k = decode_key(b0, b1, b2);
    match editor_state.get_current_mode() {
        EditorMode::Normal => normal_mode_handler(k, editor_state, content_buffer, cursor),
        EditorMode::Visual => normal_mode_handler(k, editor_state, content_buffer, cursor),
        EditorMode::Insert => insert_mode_handler(k, editor_state, content_buffer, cursor),
        EditorMode::Command => command_mode_handler(k, editor_state, command),
        EditorMode::ShutDown => Effect::Nothing,
    }
}

} // verus!
