//! Decoding of raw input frames into logical keys.
//!
//! Each loop iteration reads one fixed-size frame covering a single byte or
//! a three-byte escape sequence. The decoder matches the frame structurally
//! against the known byte prefixes and produces a tagged key.

use vstd::prelude::*;

verus! {

/// One logical key decoded from a three-byte input frame.
#[derive(Clone, Copy, PartialEq, Eq, Structural, Debug)]
pub enum Key {
    Character(u8),
    Enter,
    Backspace,
    Escape,
    Interrupt,
    ArrowUp,
    ArrowDown,
    ArrowLeft,
    ArrowRight,
    Unrecognized,
}

/// The key a frame stands for: an arrow sequence `ESC [ A..D`, a bare
/// escape, an interrupt, a line feed or carriage return, a delete byte, or
/// a plain character.
pub open spec fn key_of(b0: u8, b1: u8, b2: u8) -> Key {
    if b0 == 27 {
        if b1 == 91 && b2 == 65 {
            Key::ArrowUp
        } else if b1 == 91 && b2 == 66 {
            Key::ArrowDown
        } else if b1 == 91 && b2 == 67 {
            Key::ArrowRight
        } else if b1 == 91 && b2 == 68 {
            Key::ArrowLeft
        } else if b1 == 0 && b2 == 0 {
            Key::Escape
        } else {
            Key::Unrecognized
        }
    } else if b0 == 3 {
        Key::Interrupt
    } else if b0 == 13 || b0 == 10 {
        Key::Enter
    } else if b0 == 127 {
        Key::Backspace
    } else {
        Key::Character(b0)
    }
}

/// Decodes the three bytes of one input frame.
pub fn decode_key(b0: u8, b1: u8, b2: u8) -> (k: Key)
    ensures
        k == key_of(b0, b1, b2),
{
    if b0 == 27 {
        if b1 == 91 && b2 == 65 {
            Key::ArrowUp
        } else if b1 == 91 && b2 == 66 {
            Key::ArrowDown
        } else if b1 == 91 && b2 == 67 {
            Key::ArrowRight
        } else if b1 == 91 && b2 == 68 {
            Key::ArrowLeft
        } else if b1 == 0 && b2 == 0 {
            Key::Escape
        } else {
            Key::Unrecognized
        }
    } else if b0 == 3 {
        Key::Interrupt
    } else if b0 == 13 || b0 == 10 {
        Key::Enter
    } else if b0 == 127 {
        Key::Backspace
    } else {
        Key::Character(b0)
    }
}

} // verus!
