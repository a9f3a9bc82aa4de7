use vstd::prelude::*;

verus! {

/// Pixels that one held direction moves the pointer by on each tick.
pub const STEP: i32 = 5;

/// One of the four directions a movement key stands for.
#[derive(Debug, Clone, Copy, PartialEq, Eq, Structural, Hash)]
pub enum WindowMovement {
    Top,
    Down,
    Left,
    Right,
}

/// Whether a key went down or came up.
#[derive(Debug, Clone, Copy, PartialEq, Eq, Structural, Hash)]
pub enum KeyState {
    Pressed,
    Released,
}

/// A press or release of one movement key, as handed to the held-key set.
#[derive(Debug, Clone, Copy, PartialEq, Eq, Structural, Hash)]
pub struct Transition {
    pub movement: WindowMovement,
    pub state: KeyState,
}

impl WindowMovement {
    /// Horizontal part of the displacement that this direction contributes.
    pub open spec fn dx(self) -> int {
        match self {
            WindowMovement::Left => -(STEP as int),
            WindowMovement::Right => STEP as int,
            _ => 0,
        }
    }

    /// Vertical part of the displacement that this direction contributes
    /// (screen coordinates grow downwards).
    pub open spec fn dy(self) -> int {
        match self {
            WindowMovement::Top => -(STEP as int),
            WindowMovement::Down => STEP as int,
            _ => 0,
        }
    }
}

} // verus!
