use vstd::prelude::*;

use crate::movement::{KeyState, Transition, WindowMovement};

verus! {

/// The physical keys that carry a meaning; every other key is `Other`.
#[derive(Debug, Clone, Copy, PartialEq, Eq, Structural, Hash)]
pub enum Key {
    /// Moves up.
    KeyK,
    /// Moves down.
    KeyJ,
    /// Moves left.
    KeyH,
    /// Moves right.
    KeyL,
    /// Toggles jump mode.
    KeyG,
    /// Exits.
    KeyQ,
    /// Clicks the primary button.
    KeyC,
    /// Clicks the secondary button.
    KeyV,
    Other,
}

/// A mouse button that a click key presses and releases.
#[derive(Debug, Clone, Copy, PartialEq, Eq, Structural, Hash)]
pub enum MouseButton {
    Left,
    Right,
}

/// One keyboard event as the windowing system reports it.
#[derive(Debug, Clone, Copy, PartialEq, Eq, Structural, Hash)]
pub struct KeyInput {
    pub key: Key,
    pub state: KeyState,
    /// Set on the synthetic presses that the system sends while a key is held.
    pub repeat: bool,
}

/// What a keyboard event means, before the mode is taken into account.
#[derive(Debug, Clone, Copy, PartialEq, Eq, Structural, Hash)]
pub enum KeyClass {
    Exit,
    ToggleJumpMode,
    Movement(WindowMovement, KeyState, bool),
    Click(MouseButton),
    Unrecognized,
}

/// The window events that the controller reacts to.
#[derive(Debug, Clone, Copy, PartialEq, Eq, Structural, Hash)]
pub enum WindowSignal {
    CloseRequested,
    Focused(bool),
    RedrawRequested,
    KeyboardInput(KeyInput),
    Other,
}

/// What the caller has to carry out after the controller has seen an event.
#[derive(Debug, Clone, Copy, PartialEq, Eq, Structural, Hash)]
pub enum Action {
    Nothing,
    /// Stop dispatching and end the process.
    Exit,
    /// Ask for input focus again.
    RefocusWindow,
    /// Acknowledge a redraw request.
    RequestRedraw,
    /// Move the pointer to the jump target of this direction.
    Jump(WindowMovement),
    /// Hand this transition to the held-key set.
    Forward(Transition),
    /// Press and release this button.
    Click(MouseButton),
}

impl Key {
    /// The direction a movement key stands for.
    pub open spec fn movement(self) -> Option<WindowMovement> {
        match self {
            Key::KeyK => Some(WindowMovement::Top),
            Key::KeyJ => Some(WindowMovement::Down),
            Key::KeyH => Some(WindowMovement::Left),
            Key::KeyL => Some(WindowMovement::Right),
            _ => None,
        }
    }
}

/// The meaning of a keyboard event: exit on any press of the exit key,
/// toggle on a first press of the toggle key, every event of a movement key
/// passed on with its state and repeat flag, a click on any press of a click
/// key, and nothing for the rest.
pub open spec fn classify_spec(input: KeyInput) -> KeyClass {
    if input.key == Key::KeyQ && input.state == KeyState::Pressed {
        KeyClass::Exit
    } else if input.key == Key::KeyG && input.state == KeyState::Pressed && !input.repeat {
        KeyClass::ToggleJumpMode
    } else if let Some(d) = input.key.movement() {
        KeyClass::Movement(d, input.state, input.repeat)
    } else if input.state == KeyState::Pressed && input.key == Key::KeyC {
        KeyClass::Click(MouseButton::Left)
    } else if input.state == KeyState::Pressed && input.key == Key::KeyV {
        KeyClass::Click(MouseButton::Right)
    } else {
        KeyClass::Unrecognized
    }
}

/// The direction of a movement key, `None` for any other key.
pub fn map_to_movement(key: Key) -> (r: Option<WindowMovement>)
    ensures
        r == key.movement(),
{
    match key {
        Key::KeyK => Some(WindowMovement::Top),
        Key::KeyJ => Some(WindowMovement::Down),
        Key::KeyH => Some(WindowMovement::Left),
        Key::KeyL => Some(WindowMovement::Right),
        _ => None,
    }
}

/// Classifies a keyboard event.
pub fn classify(input: KeyInput) -> (r: KeyClass)
    ensures
        r == classify_spec(input),
{
    let pressed = input.state == KeyState::Pressed;
    if input.key == Key::KeyQ && pressed {
        KeyClass::Exit
    } else if input.key == Key::KeyG && pressed && !input.repeat {
        KeyClass::ToggleJumpMode
    } else if let Some(d) = map_to_movement(input.key) {
        KeyClass::Movement(d, input.state, input.repeat)
    } else if pressed && input.key == Key::KeyC {
        KeyClass::Click(MouseButton::Left)
    } else if pressed && input.key == Key::KeyV {
        KeyClass::Click(MouseButton::Right)
    } else {
        KeyClass::Unrecognized
    }
}

/// The mode state of the key-receiving window.
#[derive(Debug, Clone, Copy, PartialEq, Eq, Structural, Hash)]
pub struct Controller {
    pub jump_mode_enabled: bool,
}

impl Controller {
    /// The next state and the action for one keyboard event. In jump mode only
    /// a first press of a movement key does anything (a jump); otherwise every
    /// movement-key event goes to the held-key set.
    pub open spec fn key_step(self, input: KeyInput) -> (Controller, Action) {
        match classify_spec(input) {
            KeyClass::Exit => (self, Action::Exit),
            KeyClass::ToggleJumpMode => (
                Controller { jump_mode_enabled: !self.jump_mode_enabled },
                Action::Nothing,
            ),
            KeyClass::Movement(d, state, repeat) => if self.jump_mode_enabled {
                if state == KeyState::Pressed && !repeat {
                    (self, Action::Jump(d))
                } else {
                    (self, Action::Nothing)
                }
            } else {
                (self, Action::Forward(Transition { movement: d, state }))
            },
            KeyClass::Click(b) => (self, Action::Click(b)),
            KeyClass::Unrecognized => (self, Action::Nothing),
        }
    }

    /// The next state and the action for one window event.
    pub open spec fn event_step(self, signal: WindowSignal) -> (Controller, Action) {
        match signal {
            WindowSignal::CloseRequested => (self, Action::Exit),
            WindowSignal::Focused(focused) => if focused {
                (self, Action::Nothing)
            } else {
                (self, Action::RefocusWindow)
            },
            WindowSignal::RedrawRequested => (self, Action::RequestRedraw),
            WindowSignal::KeyboardInput(input) => self.key_step(input),
            WindowSignal::Other => (self, Action::Nothing),
        }
    }

    /// The actions that a run of keyboard events produces, one per event.
    pub open spec fn actions_of(self, inputs: Seq<KeyInput>) -> Seq<Action>
        decreases inputs.len(),
    {
        if inputs.len() == 0 {
            Seq::empty()
        } else {
            let (next, a) = self.key_step(inputs[0]);
            seq![a] + next.actions_of(inputs.drop_first())
        }
    }

    /// Starts in movement mode.
    pub fn new() -> (r: Controller)
        ensures
            !r.jump_mode_enabled,
    {
        Controller { jump_mode_enabled: false }
    }

    /// Handles one keyboard event.
    pub fn on_key(&mut self, input: KeyInput) -> (a: Action)
        ensures
            (*final(self), a) == old(self).key_step(input),
            input.key == Key::KeyQ && input.state == KeyState::Pressed ==> a == Action::Exit,
            input.key == Key::KeyG && input.state == KeyState::Pressed && !input.repeat
                ==> final(self).jump_mode_enabled == !old(self).jump_mode_enabled,
            !(input.key == Key::KeyG && input.state == KeyState::Pressed && !input.repeat)
                ==> final(self).jump_mode_enabled == old(self).jump_mode_enabled,
    {
        match classify(input) {
            KeyClass::Exit => Action::Exit,
            KeyClass::ToggleJumpMode => {
                self.jump_mode_enabled = !self.jump_mode_enabled;
                Action::Nothing
            },
            KeyClass::Movement(d, state, repeat) => {
                if self.jump_mode_enabled {
                    if state == KeyState::Pressed && !repeat {
                        Action::Jump(d)
                    } else {
                        Action::Nothing
                    }
                } else {
                    Action::Forward(Transition { movement: d, state })
                }
            },
            KeyClass::Click(b) => Action::Click(b),
            KeyClass::Unrecognized => Action::Nothing,
        }
    }

    /// Handles one window event.
    pub fn window_event(&mut self, signal: WindowSignal) -> (a: Action)
        ensures
            (*final(self), a) == old(self).event_step(signal),
            signal matches WindowSignal::KeyboardInput(input) && input.key == Key::KeyQ
                && input.state == KeyState::Pressed ==> a == Action::Exit,
    {
        match signal {
            WindowSignal::CloseRequested => Action::Exit,
            WindowSignal::Focused(focused) => {
                if focused {
                    Action::Nothing
                } else {
                    Action::RefocusWindow
                }
            },
            WindowSignal::RedrawRequested => Action::RequestRedraw,
            WindowSignal::KeyboardInput(input) => self.on_key(input),
            WindowSignal::Other => Action::Nothing,
        }
    }
}

/// The events of one key held down: a first press, `repeats` synthetic
/// presses, then a release.
pub open spec fn held_key_inputs(key: Key, repeats: nat) -> Seq<KeyInput> {
    seq![KeyInput { key, state: KeyState::Pressed, repeat: false }] + Seq::new(
        repeats,
        |i: int| KeyInput { key, state: KeyState::Pressed, repeat: true },
    ) + seq![KeyInput { key, state: KeyState::Released, repeat: false }]
}

/// The toggle key flips jump mode on a first press, so that two such presses
/// restore the mode, and leaves it alone on a repeated press.
pub proof fn lemma_mode_toggle(c: Controller, repeat: bool)
    ensures
        ({
            let input = KeyInput { key: Key::KeyG, state: KeyState::Pressed, repeat };
            let next = c.key_step(input).0;
            &&& !repeat ==> next.jump_mode_enabled == !c.jump_mode_enabled
            &&& !repeat ==> next.key_step(input).0 == c
            &&& repeat ==> next == c
        }),
{
}

/// A press of the exit key ends dispatch, whatever the mode.
pub proof fn lemma_exit_key_exits(c: Controller, repeat: bool)
    ensures
        ({
            let input = KeyInput { key: Key::KeyQ, state: KeyState::Pressed, repeat };
            &&& c.key_step(input).1 == Action::Exit
            &&& c.event_step(WindowSignal::KeyboardInput(input)).1 == Action::Exit
        }),
{
}

/// In jump mode, repeated presses and releases of a movement key do nothing.
proof fn lemma_jump_mode_ignores_held(c: Controller, key: Key, inputs: Seq<KeyInput>)
    requires
        c.jump_mode_enabled,
        key.movement() is Some,
        forall|i: int|
            0 <= i < inputs.len() ==> (#[trigger] inputs[i]).key == key && !(inputs[i].state
                == KeyState::Pressed && !inputs[i].repeat),
    ensures
        c.actions_of(inputs) == Seq::new(inputs.len(), |i: int| Action::Nothing),
    decreases inputs.len(),
{
    if inputs.len() > 0 {
        let rest = inputs.drop_first();
        assert(c.key_step(inputs[0]) == (c, Action::Nothing));
        assert forall|i: int| 0 <= i < rest.len() implies (#[trigger] rest[i]).key == key && !(
        rest[i].state == KeyState::Pressed && !rest[i].repeat) by {
            assert(rest[i] == inputs[i + 1]);
        }
        lemma_jump_mode_ignores_held(c, key, rest);
        assert(c.actions_of(inputs) =~= Seq::new(inputs.len(), |i: int| Action::Nothing));
    }
}

/// In jump mode, holding a movement key down, through any number of repeats
/// and the release, jumps exactly once, on the first press.
pub proof fn lemma_jump_once_per_hold(c: Controller, key: Key, repeats: nat)
    requires
        c.jump_mode_enabled,
        key.movement() is Some,
    ensures
        c.actions_of(held_key_inputs(key, repeats)) == seq![Action::Jump(key.movement()->0)]
            + Seq::new(repeats + 1, |i: int| Action::Nothing),
{
    let inputs = held_key_inputs(key, repeats);
    let rest = inputs.drop_first();
    assert(c.key_step(inputs[0]) == (c, Action::Jump(key.movement()->0)));
    assert forall|i: int| 0 <= i < rest.len() implies (#[trigger] rest[i]).key == key && !(
    rest[i].state == KeyState::Pressed && !rest[i].repeat) by {
        assert(rest[i] == inputs[i + 1]);
    }
    lemma_jump_mode_ignores_held(c, key, rest);
    assert(c.actions_of(inputs) =~= seq![Action::Jump(key.movement()->0)] + Seq::new(
        repeats + 1,
        |i: int| Action::Nothing,
    ));
}

} // verus!
