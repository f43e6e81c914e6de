//! The input mailbox: the most recent direction the player asked for.
//!
//! The mailbox has one slot. Each key press overwrites it, each frame empties
//! it, and presses that arrive between two frames are lost but for the last.

use vstd::prelude::*;

verus! {

/// What the player last asked for and no frame has consumed yet.
#[derive(Clone, Copy, Debug, PartialEq, Eq, Structural)]
pub enum InputIntent {
    Up,
    Down,
    Left,
    Right,
    /// Nothing is pending.
    Neutral,
}

impl InputIntent {
    /// The horizontal displacement this intent asks for.
    pub open spec fn dx(self) -> int {
        match self {
            InputIntent::Left => -1,
            InputIntent::Right => 1,
            _ => 0,
        }
    }

    /// The vertical displacement this intent asks for. Rows grow downwards.
    /// `Up` is recognised but moves nothing.
    pub open spec fn dy(self) -> int {
        match self {
            InputIntent::Down => 1,
            _ => 0,
        }
    }

    /// The intent that a character key stands for: `w`, `s`, `a` and `d` are
    /// up, down, left and right, and every other character clears the slot.
    pub open spec fn of_char(key: char) -> InputIntent {
        if key == 'w' {
            InputIntent::Up
        } else if key == 's' {
            InputIntent::Down
        } else if key == 'a' {
            InputIntent::Left
        } else if key == 'd' {
            InputIntent::Right
        } else {
            InputIntent::Neutral
        }
    }

    /// The intent that the character key `key` stands for.
    pub fn from_char(key: char) -> (intent: InputIntent)
        ensures
            intent == InputIntent::of_char(key),
    {
        if key == 'w' {
            InputIntent::Up
        } else if key == 's' {
            InputIntent::Down
        } else if key == 'a' {
            InputIntent::Left
        } else if key == 'd' {
            InputIntent::Right
        } else {
            InputIntent::Neutral
        }
    }
}

} // verus!
