use editor::cursor::Cursor;
use editor::dispatch::dispatch_frame;
use editor::dispatch::Effect;
use editor::gap_buffer::GapBuffer;
use editor::key::decode_key;
use editor::key::Key;
use editor::mode::EditorMode;
use editor::mode::EditorState;
use editor::render::update_cursor;
use editor::render::update_tui;
use editor::render::CursorStyle;
use editor::render::RenderPlan;

fn fresh() -> (EditorState, GapBuffer, Cursor, Vec<u8>) {
    (
        EditorState::new(EditorMode::Normal, EditorMode::Normal),
        GapBuffer::new(),
        Cursor::new(),
        Vec::new(),
    )
}

#[test]
fn decode_key_structural() {
    assert_eq!(decode_key(27, 91, 65), Key::ArrowUp);
    assert_eq!(decode_key(27, 91, 66), Key::ArrowDown);
    assert_eq!(decode_key(27, 91, 67), Key::ArrowRight);
    assert_eq!(decode_key(27, 91, 68), Key::ArrowLeft);
    assert_eq!(decode_key(27, 0, 0), Key::Escape);
    assert_eq!(decode_key(27, 91, 90), Key::Unrecognized);
    assert_eq!(decode_key(3, 0, 0), Key::Interrupt);
    assert_eq!(decode_key(13, 0, 0), Key::Enter);
    assert_eq!(decode_key(10, 0, 0), Key::Enter);
    assert_eq!(decode_key(127, 0, 0), Key::Backspace);
    assert_eq!(decode_key(b'x', 0, 0), Key::Character(b'x'));
}

#[test]
fn mode_labels() {
    assert_eq!(EditorMode::Normal.value(), "normal");
    assert_eq!(EditorMode::Insert.value(), "insert");
    assert_eq!(EditorMode::Visual.value(), "visual");
    assert_eq!(EditorMode::Command.value(), "command");
    assert_eq!(EditorMode::ShutDown.value(), "");
}

#[test]
fn state_machine_transitions() {
    let mut state = EditorState::new(EditorMode::Normal, EditorMode::Normal);
    state.update_editor_mode(EditorMode::Insert);
    assert_eq!(state.get_current_mode(), EditorMode::Insert);
    assert_eq!(state.previous_mode, EditorMode::Normal);
    state.update_editor_mode(EditorMode::Normal);
    assert_eq!(state.get_current_mode(), EditorMode::Normal);
    assert_eq!(state.previous_mode, EditorMode::Insert);
}

#[test]
fn insert_escape_and_quit_transitions() {
    let (mut state, mut buf, mut cur, mut pending) = fresh();

    dispatch_frame(b'i', 0, 0, &mut state, &mut buf, &mut cur, &mut pending);
    assert_eq!(state.get_current_mode(), EditorMode::Insert);

    dispatch_frame(27, 0, 0, &mut state, &mut buf, &mut cur, &mut pending);
    assert_eq!(state.get_current_mode(), EditorMode::Normal);

    dispatch_frame(b':', 0, 0, &mut state, &mut buf, &mut cur, &mut pending);
    assert_eq!(state.get_current_mode(), EditorMode::Command);

    let eff = dispatch_frame(b'q', 0, 0, &mut state, &mut buf, &mut cur, &mut pending);
    assert_eq!(eff, Effect::PendingEcho(b'q'));

    let eff = dispatch_frame(13, 0, 0, &mut state, &mut buf, &mut cur, &mut pending);
    assert_eq!(eff, Effect::Nothing);
    assert_eq!(state.get_current_mode(), EditorMode::ShutDown);

    let eff = dispatch_frame(b'x', 0, 0, &mut state, &mut buf, &mut cur, &mut pending);
    assert_eq!(eff, Effect::Nothing);
    assert_eq!(state.get_current_mode(), EditorMode::ShutDown);
    assert_eq!(buf.get_content(), "");
}

#[test]
fn command_write_requests_save() {
    let (mut state, mut buf, mut cur, mut pending) = fresh();
    dispatch_frame(b':', 0, 0, &mut state, &mut buf, &mut cur, &mut pending);
    dispatch_frame(b'w', 0, 0, &mut state, &mut buf, &mut cur, &mut pending);
    let eff = dispatch_frame(13, 0, 0, &mut state, &mut buf, &mut cur, &mut pending);
    assert_eq!(eff, Effect::SaveFile);
    assert_eq!(state.get_current_mode(), EditorMode::Normal);
    assert_eq!(pending.len(), 0);
}

#[test]
fn command_write_and_quit_saves_then_shuts_down() {
    let (mut state, mut buf, mut cur, mut pending) = fresh();
    dispatch_frame(b':', 0, 0, &mut state, &mut buf, &mut cur, &mut pending);
    dispatch_frame(b'w', 0, 0, &mut state, &mut buf, &mut cur, &mut pending);
    dispatch_frame(b'q', 0, 0, &mut state, &mut buf, &mut cur, &mut pending);
    let eff = dispatch_frame(13, 0, 0, &mut state, &mut buf, &mut cur, &mut pending);
    assert_eq!(eff, Effect::SaveFile);
    assert_eq!(state.get_current_mode(), EditorMode::ShutDown);
}

#[test]
fn command_escape_discards_pending() {
    let (mut state, mut buf, mut cur, mut pending) = fresh();
    dispatch_frame(b':', 0, 0, &mut state, &mut buf, &mut cur, &mut pending);
    dispatch_frame(b'q', 0, 0, &mut state, &mut buf, &mut cur, &mut pending);
    let eff = dispatch_frame(27, 0, 0, &mut state, &mut buf, &mut cur, &mut pending);
    assert_eq!(eff, Effect::Nothing);
    assert_eq!(state.get_current_mode(), EditorMode::Normal);
    assert_eq!(pending.len(), 0);
    let eff = dispatch_frame(b':', 0, 0, &mut state, &mut buf, &mut cur, &mut pending);
    assert_eq!(eff, Effect::Nothing);
    let eff = dispatch_frame(13, 0, 0, &mut state, &mut buf, &mut cur, &mut pending);
    assert_eq!(eff, Effect::Nothing);
    assert_eq!(state.get_current_mode(), EditorMode::Normal);
}

#[test]
fn command_backspace_erases_pending_byte() {
    let (mut state, mut buf, mut cur, mut pending) = fresh();
    dispatch_frame(b':', 0, 0, &mut state, &mut buf, &mut cur, &mut pending);
    dispatch_frame(b'w', 0, 0, &mut state, &mut buf, &mut cur, &mut pending);
    let eff = dispatch_frame(127, 0, 0, &mut state, &mut buf, &mut cur, &mut pending);
    assert_eq!(eff, Effect::PendingErase);
    assert_eq!(pending.len(), 0);
    let eff = dispatch_frame(13, 0, 0, &mut state, &mut buf, &mut cur, &mut pending);
    assert_eq!(eff, Effect::Nothing);
    assert_eq!(state.get_current_mode(), EditorMode::Normal);
}

#[test]
fn insert_chars_update_buffer_and_cursor() {
    let (mut state, mut buf, mut cur, mut pending) = fresh();
    dispatch_frame(b'i', 0, 0, &mut state, &mut buf, &mut cur, &mut pending);
    let eff = dispatch_frame(b'h', 0, 0, &mut state, &mut buf, &mut cur, &mut pending);
    assert_eq!(eff, Effect::InsertedChar(b'h'));
    dispatch_frame(b'e', 0, 0, &mut state, &mut buf, &mut cur, &mut pending);
    dispatch_frame(b'y', 0, 0, &mut state, &mut buf, &mut cur, &mut pending);
    assert_eq!(buf.get_content(), "hey");
    assert_eq!(cur.user_row(), 1);
    assert_eq!(cur.user_col(), 4);
}

#[test]
fn insert_enter_splits_line_and_trims_indent() {
    let mut state = EditorState::new(EditorMode::Insert, EditorMode::Normal);
    let mut buf = GapBuffer::build(Some("ab  cd"));
    buf.move_gap_right();
    buf.move_gap_right();
    let mut cur = Cursor::new();
    cur.set_user_col(3);
    let mut pending: Vec<u8> = Vec::new();

    let eff = dispatch_frame(13, 0, 0, &mut state, &mut buf, &mut cur, &mut pending);
    assert_eq!(eff, Effect::SplitLine);
    assert_eq!(buf.get_content(), "ab\ncd");
    assert_eq!(buf.gap_begin, 3);
    assert_eq!(cur.user_row(), 2);
    assert_eq!(cur.user_col(), 1);
}

#[test]
fn insert_backspace_mid_line_deletes() {
    let mut state = EditorState::new(EditorMode::Insert, EditorMode::Normal);
    let mut buf = GapBuffer::build(Some("abcd"));
    buf.move_gap_right();
    buf.move_gap_right();
    let mut cur = Cursor::new();
    cur.set_user_col(3);
    let mut pending: Vec<u8> = Vec::new();

    let eff = dispatch_frame(127, 0, 0, &mut state, &mut buf, &mut cur, &mut pending);
    assert_eq!(eff, Effect::DeletedChar);
    assert_eq!(buf.get_content(), "acd");
    assert_eq!(cur.user_col(), 2);
}

#[test]
fn insert_backspace_at_line_start_joins_with_space() {
    let mut state = EditorState::new(EditorMode::Insert, EditorMode::Normal);
    let mut buf = GapBuffer::build(Some("ab\ncd"));
    for _ in 0..3 {
        buf.move_gap_right();
    }
    let mut cur = Cursor::new();
    cur.set_user_row(2);
    cur.set_user_col(1);
    let mut pending: Vec<u8> = Vec::new();

    let eff = dispatch_frame(127, 0, 0, &mut state, &mut buf, &mut cur, &mut pending);
    assert_eq!(eff, Effect::JoinedLines);
    assert_eq!(buf.get_content(), "ab cd");
    assert_eq!(cur.user_row(), 1);
    assert_eq!(cur.user_col(), 4);
}

#[test]
fn insert_backspace_at_buffer_start_is_a_no_op() {
    let mut state = EditorState::new(EditorMode::Insert, EditorMode::Normal);
    let mut buf = GapBuffer::build(Some("ab"));
    let mut cur = Cursor::new();
    let mut pending: Vec<u8> = Vec::new();

    let eff = dispatch_frame(127, 0, 0, &mut state, &mut buf, &mut cur, &mut pending);
    assert_eq!(eff, Effect::Nothing);
    assert_eq!(buf.get_content(), "ab");
    assert_eq!(cur.user_col(), 1);
}

#[test]
fn normal_append_moves_right_then_inserts() {
    let mut state = EditorState::new(EditorMode::Normal, EditorMode::Normal);
    let mut buf = GapBuffer::build(Some("abc"));
    let mut cur = Cursor::new();
    let mut pending: Vec<u8> = Vec::new();

    let eff = dispatch_frame(b'a', 0, 0, &mut state, &mut buf, &mut cur, &mut pending);
    assert_eq!(eff, Effect::CursorSync);
    assert_eq!(state.get_current_mode(), EditorMode::Insert);
    assert_eq!(buf.gap_begin, 1);
    assert_eq!(cur.user_col(), 2);
}

#[test]
fn normal_dollar_jumps_to_line_end() {
    let mut state = EditorState::new(EditorMode::Normal, EditorMode::Normal);
    let mut buf = GapBuffer::build(Some("abc\nde"));
    let mut cur = Cursor::new();
    let mut pending: Vec<u8> = Vec::new();

    let eff = dispatch_frame(b'$', 0, 0, &mut state, &mut buf, &mut cur, &mut pending);
    assert_eq!(eff, Effect::CursorSync);
    assert_eq!(buf.gap_begin, 3);
    assert_eq!(cur.user_col(), 4);
    assert_eq!(cur.user_row(), 1);
}

#[test]
fn normal_zero_jumps_to_line_start() {
    let mut state = EditorState::new(EditorMode::Normal, EditorMode::Normal);
    let mut buf = GapBuffer::build(Some("abc"));
    buf.move_gap_right();
    buf.move_gap_right();
    let mut cur = Cursor::new();
    cur.set_user_col(3);
    let mut pending: Vec<u8> = Vec::new();

    let eff = dispatch_frame(b'0', 0, 0, &mut state, &mut buf, &mut cur, &mut pending);
    assert_eq!(eff, Effect::CursorSync);
    assert_eq!(buf.gap_begin, 0);
    assert_eq!(cur.user_col(), 1);
}

#[test]
fn normal_word_jump_moves_cursor() {
    let mut state = EditorState::new(EditorMode::Normal, EditorMode::Normal);
    let mut buf = GapBuffer::build(Some("one two"));
    let mut cur = Cursor::new();
    let mut pending: Vec<u8> = Vec::new();

    let eff = dispatch_frame(b'w', 0, 0, &mut state, &mut buf, &mut cur, &mut pending);
    assert_eq!(eff, Effect::CursorSync);
    assert_eq!(buf.gap_begin, 4);
    assert_eq!(cur.user_col(), 5);
}

#[test]
fn normal_movement_keys_drive_navigator() {
    let mut state = EditorState::new(EditorMode::Normal, EditorMode::Normal);
    let mut buf = GapBuffer::build(Some("ab\ncd"));
    let mut cur = Cursor::new();
    let mut pending: Vec<u8> = Vec::new();

    let eff = dispatch_frame(b'l', 0, 0, &mut state, &mut buf, &mut cur, &mut pending);
    assert_eq!(eff, Effect::CursorSync);
    assert_eq!((cur.user_row(), cur.user_col()), (1, 2));

    let eff = dispatch_frame(b'j', 0, 0, &mut state, &mut buf, &mut cur, &mut pending);
    assert_eq!(eff, Effect::CursorSync);
    assert_eq!((cur.user_row(), cur.user_col()), (2, 2));

    let eff = dispatch_frame(b'h', 0, 0, &mut state, &mut buf, &mut cur, &mut pending);
    assert_eq!(eff, Effect::CursorSync);
    assert_eq!((cur.user_row(), cur.user_col()), (2, 1));

    let eff = dispatch_frame(27, 91, 65, &mut state, &mut buf, &mut cur, &mut pending);
    assert_eq!(eff, Effect::CursorSync);
    assert_eq!((cur.user_row(), cur.user_col()), (1, 1));

    let eff = dispatch_frame(b'k', 0, 0, &mut state, &mut buf, &mut cur, &mut pending);
    assert_eq!(eff, Effect::Nothing);
    assert_eq!((cur.user_row(), cur.user_col()), (1, 1));
}

#[test]
fn render_plan_follows_mode_changes() {
    let mut state = EditorState::new(EditorMode::Command, EditorMode::Command);
    assert_eq!(update_tui(&mut state), RenderPlan::Skip);

    let mut state = EditorState::new(EditorMode::Command, EditorMode::Normal);
    assert_eq!(update_tui(&mut state), RenderPlan::CommandField);

    let mut state = EditorState::new(EditorMode::Normal, EditorMode::Command);
    assert_eq!(update_tui(&mut state), RenderPlan::RestoreFromCommand);
    assert_eq!(state.previous_mode, EditorMode::Normal);

    let mut state = EditorState::new(EditorMode::Insert, EditorMode::Normal);
    assert_eq!(update_tui(&mut state), RenderPlan::StatusBar(CursorStyle::Bar));

    let mut state = EditorState::new(EditorMode::Visual, EditorMode::Visual);
    assert_eq!(update_tui(&mut state), RenderPlan::StatusBar(CursorStyle::Block));
}

#[test]
fn cursor_style_by_mode() {
    assert_eq!(
        update_cursor(&EditorState::new(EditorMode::Insert, EditorMode::Normal)),
        CursorStyle::Bar,
    );
    assert_eq!(
        update_cursor(&EditorState::new(EditorMode::Command, EditorMode::Normal)),
        CursorStyle::Bar,
    );
    assert_eq!(
        update_cursor(&EditorState::new(EditorMode::Normal, EditorMode::Normal)),
        CursorStyle::Block,
    );
}

#[test]
fn tracked_cursor_coordinates() {
    let mut cur = Cursor::new();
    assert_eq!((cur.user_row(), cur.user_col()), (1, 1));
    cur.inc_col(3);
    cur.inc_row(2);
    assert_eq!((cur.user_row(), cur.user_col()), (3, 4));
    cur.dec_col(1);
    cur.dec_row(1);
    assert_eq!((cur.user_row(), cur.user_col()), (2, 3));
    cur.return_newline();
    assert_eq!((cur.user_row(), cur.user_col()), (3, 1));
    cur.dec_row(1);
    cur.dec_row(1);
    cur.dec_row(1);
    assert_eq!(cur.user_row(), 1);
    cur.dec_col(0);
    assert_eq!(cur.user_col(), 1);
    cur.reset_coords();
    assert_eq!((cur.user_row(), cur.user_col()), (1, 1));
}

#[test]
fn cursor_report_parses_row_and_column() {
    let reply: Vec<u8> = b"\x1b[24;80R".to_vec();
    let cur = Cursor::from_report(&reply);
    assert_eq!((cur.user_row(), cur.user_col()), (24, 80));

    let reply: Vec<u8> = b"\x1b[3;1R".to_vec();
    let cur = Cursor::from_report(&reply);
    assert_eq!((cur.user_row(), cur.user_col()), (3, 1));

    let reply: Vec<u8> = Vec::new();
    let cur = Cursor::from_report(&reply);
    assert_eq!((cur.user_row(), cur.user_col()), (0, 0));
}
