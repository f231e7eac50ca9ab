//! Core of a terminal-resident, modal text editor.
//!
//! The crate verifies the three parts of the editor that carry real
//! invariants: the gap-based edit buffer ([`gap_buffer::GapBuffer`]), the
//! navigation algorithm that reconciles the buffer's edit point with the
//! terminal's 1-based (line, column) coordinates ([`navigator`]), and the
//! modal input state machine together with the key dispatcher ([`mode`],
//! [`key`], [`dispatch`]). Terminal configuration, rendering and file I/O
//! are thin unverified collaborators that consume the plain values these
//! modules produce.

pub mod cursor;
pub mod dispatch;
pub mod gap_buffer;
pub mod key;
pub mod lines;
pub mod mode;
pub mod navigator;
pub mod render;
