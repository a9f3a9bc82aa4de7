//! Keyboard-driven pointer control: the state machine that turns key events
//! into pointer motion, jumps and clicks.
//!
//! The operating-system side (reading keys, moving the pointer) stays outside
//! this library; it hands key events in and carries the returned actions out.
//! `controller` classifies key events and keeps the mode, `held_keys` is the
//! held-key set and its per-tick displacement, `jump` computes jump targets.

pub mod controller;
pub mod held_keys;
pub mod jump;
pub mod movement;

pub use controller::{
    classify, map_to_movement, Action, Controller, Key, KeyClass, KeyInput, MouseButton,
    WindowSignal,
};
pub use held_keys::{handle_movement, HeldKeys};
pub use jump::{jump, jump_on_monitor};
pub use movement::{KeyState, Transition, WindowMovement, STEP};
