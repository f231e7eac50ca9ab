//! Modal editing state: the current and previous editor mode.
//!
//! `ShutDown` is terminal: once the state machine enters it, the event loop
//! reads no further input and the process cleans up and exits.

use vstd::prelude::*;

verus! {

/// The editing modes of the state machine.
#[derive(Clone, Copy, PartialEq, Eq, Structural, Debug)]
pub enum EditorMode {
    Normal,
    Insert,
    Visual,
    Command,
    ShutDown,
}

/// The label shown for a mode in the status bar.
pub open spec fn mode_label(m: EditorMode) -> Seq<char> {
    match m {
        EditorMode::Normal => "normal"@,
        EditorMode::Insert => "insert"@,
        EditorMode::Visual => "visual"@,
        EditorMode::Command => "command"@,
        EditorMode::ShutDown => ""@,
    }
}

impl EditorMode {
    /// The human-readable name of the mode, empty for `ShutDown`.
    pub fn value(&self) -> (r: String)
        ensures
            r@ == mode_label(*self),
    {
        match *self {
            EditorMode::Normal => String::from_str("normal"),
            EditorMode::Insert => String::from_str("insert"),
            EditorMode::Visual => String::from_str("visual"),
            EditorMode::Command => String::from_str("command"),
            EditorMode::ShutDown => String::from_str(""),
        }
    }
}

/// The mode state machine: the current mode plus the mode it replaced.
///
/// `previous_mode` exists so the renderer can skip redundant redraws and
/// restore the pre-command cursor position when leaving `Command` mode.
pub struct EditorState {
    pub editor_mode: EditorMode,
    pub previous_mode: EditorMode,
}

impl EditorState {
    pub fn new(editor_mode: EditorMode, previous_mode: EditorMode) -> (r: Self)
        ensures
            r.editor_mode == editor_mode,
            r.previous_mode == previous_mode,
    {
        EditorState { editor_mode, previous_mode }
    }

    /// The single transition operation: enter `mode` and stash the mode
    /// that was current until now.
    pub fn update_editor_mode(&mut self, mode: EditorMode)
        ensures
            final(self).editor_mode == mode,
            final(self).previous_mode == old(self).editor_mode,
    {
        self.previous_mode = self.editor_mode;
        self.editor_mode = mode;
    }

    pub fn get_current_mode(&self) -> (r: EditorMode)
        ensures
            r == self.editor_mode,
    {
        self.editor_mode
    }
}

} // verus!
