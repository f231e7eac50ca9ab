//! What the renderer must redraw after a dispatch step.
//!
//! The renderer itself lives outside the core; it receives a plan and turns
//! it into terminal writes. The plan also keeps `previous_mode` in step so
//! redundant redraws are skipped.

use vstd::prelude::*;

use crate::mode::{EditorMode, EditorState};

verus! {

/// Terminal cursor shape.
#[derive(Clone, Copy, PartialEq, Eq, Structural, Debug)]
pub enum CursorStyle {
    Bar,
    Block,
}

/// The redraw the status area needs after a state change.
#[derive(Clone, Copy, PartialEq, Eq, Structural, Debug)]
pub enum RenderPlan {
    /// Nothing to redraw: the editor stayed in command mode.
    Skip,
    /// Command mode was just entered: draw the command field.
    CommandField,
    /// Command mode was just left: restore the saved cursor position.
    RestoreFromCommand,
    /// Redraw the status bar and set the cursor shape.
    StatusBar(CursorStyle),
}

/// A bar cursor while typing into the buffer or the command field, a block
/// cursor otherwise.
pub open spec fn cursor_style_of(m: EditorMode) -> CursorStyle {
    match m {
        EditorMode::Insert => CursorStyle::Bar,
        EditorMode::Command => CursorStyle::Bar,
        _ => CursorStyle::Block,
    }
}

/// The cursor shape the current mode calls for.
pub fn update_cursor(editor_state: &EditorState) -> (r: CursorStyle)
    ensures
        r == cursor_style_of(editor_state.editor_mode),
{
    match editor_state.editor_mode {
        EditorMode::Insert => CursorStyle::Bar,
        EditorMode::Command => CursorStyle::Bar,
        _ => CursorStyle::Block,
    }
}

/// Decides the redraw after a dispatch step. Entering command mode draws the
/// command field once; leaving it restores the cursor and records the new
/// mode as seen; otherwise the status bar is redrawn with the mode's label
/// and cursor shape.
pub fn update_tui(editor_state: &mut EditorState) -> (r: RenderPlan)
    ensures
        final(editor_state).editor_mode == old(editor_state).editor_mode,
        old(editor_state).editor_mode == EditorMode::Command ==> {
            &&& *final(editor_state) == *old(editor_state)
            &&& r == if old(editor_state).previous_mode == EditorMode::Command {
                RenderPlan::Skip
            } else {
                RenderPlan::CommandField
            }
        },
        old(editor_state).editor_mode != EditorMode::Command && old(editor_state).previous_mode
            == EditorMode::Command ==> {
            &&& final(editor_state).previous_mode == old(editor_state).editor_mode
            &&& r == RenderPlan::RestoreFromCommand
        },
        old(editor_state).editor_mode != EditorMode::Command && old(editor_state).previous_mode
            != EditorMode::Command ==> {
            &&& *final(editor_state) == *old(editor_state)
            &&& r == RenderPlan::StatusBar(cursor_style_of(old(editor_state).editor_mode))
        },
{
    match editor_state.editor_mode {
        EditorMode::Command => {
            if editor_state.previous_mode == EditorMode::Command {
                RenderPlan::Skip
            } else {
                RenderPlan::CommandField
            }
        },
        _ => {
            if editor_state.previous_mode == EditorMode::Command {
                editor_state.previous_mode = editor_state.editor_mode;
                RenderPlan::RestoreFromCommand
            } else {
                RenderPlan::StatusBar(update_cursor(editor_state))
            }
        },
    }
}

} // verus!
