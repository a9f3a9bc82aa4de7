use keyboard_mouse::{handle_movement, HeldKeys, KeyState, Transition, WindowMovement, STEP};

fn t(movement: WindowMovement, state: KeyState) -> Transition {
    Transition { movement, state }
}

#[test]
fn new_set_is_empty() {
    let h = HeldKeys::new();
    for d in [WindowMovement::Top, WindowMovement::Down, WindowMovement::Left, WindowMovement::Right] {
        assert!(!h.contains(d));
    }
}

#[test]
fn held_set_follows_last_event_per_direction() {
    let mut h = HeldKeys::new();
    let events = vec![
        t(WindowMovement::Top, KeyState::Pressed),
        t(WindowMovement::Left, KeyState::Pressed),
        t(WindowMovement::Top, KeyState::Pressed),
        t(WindowMovement::Top, KeyState::Released),
        t(WindowMovement::Right, KeyState::Released),
        t(WindowMovement::Down, KeyState::Released),
        t(WindowMovement::Down, KeyState::Pressed),
    ];
    h.apply_all(&events);
    assert!(!h.contains(WindowMovement::Top));
    assert!(h.contains(WindowMovement::Left));
    assert!(!h.contains(WindowMovement::Right));
    assert!(h.contains(WindowMovement::Down));
}

#[test]
fn repeated_press_is_idempotent() {
    let mut once = HeldKeys::new();
    once.press(WindowMovement::Right);
    let mut thrice = HeldKeys::new();
    thrice.press(WindowMovement::Right);
    thrice.press(WindowMovement::Right);
    thrice.press(WindowMovement::Right);
    assert_eq!(once, thrice);
    thrice.release(WindowMovement::Right);
    assert!(!thrice.contains(WindowMovement::Right));
    thrice.release(WindowMovement::Right);
    assert_eq!(thrice, HeldKeys::new());
}

#[test]
fn single_direction_displacements() {
    let cases = [
        (WindowMovement::Top, (0, -5)),
        (WindowMovement::Down, (0, 5)),
        (WindowMovement::Left, (-5, 0)),
        (WindowMovement::Right, (5, 0)),
    ];
    for (d, expected) in cases {
        let mut h = HeldKeys::new();
        h.press(d);
        assert_eq!(handle_movement(&h), expected);
    }
    assert_eq!(STEP, 5);
}

#[test]
fn diagonal_displacement_sums() {
    let mut h = HeldKeys::new();
    h.press(WindowMovement::Down);
    h.press(WindowMovement::Right);
    assert_eq!(handle_movement(&h), (5, 5));
}

#[test]
fn opposing_keys_cancel_and_release_restores() {
    let mut h = HeldKeys::new();
    h.press(WindowMovement::Left);
    h.press(WindowMovement::Right);
    assert_eq!(handle_movement(&h), (0, 0));
    h.press(WindowMovement::Top);
    assert_eq!(handle_movement(&h), (0, -5));
    h.release(WindowMovement::Left);
    assert_eq!(handle_movement(&h), (5, -5));
    h.press(WindowMovement::Left);
    h.release(WindowMovement::Right);
    assert_eq!(handle_movement(&h), (-5, -5));
    h.press(WindowMovement::Down);
    h.press(WindowMovement::Right);
    assert_eq!(handle_movement(&h), (0, 0));
}

#[test]
fn idle_tick_moves_by_zero() {
    let mut h = HeldKeys::new();
    assert_eq!(h.tick(&vec![]), (0, 0));
    assert_eq!(h.tick(&vec![]), (0, 0));
}

#[test]
fn tick_applies_pending_in_order() {
    let mut h = HeldKeys::new();
    let pending = vec![
        t(WindowMovement::Top, KeyState::Pressed),
        t(WindowMovement::Top, KeyState::Released),
        t(WindowMovement::Left, KeyState::Released),
        t(WindowMovement::Left, KeyState::Pressed),
    ];
    assert_eq!(h.tick(&pending), (-5, 0));
    assert_eq!(h.tick(&vec![]), (-5, 0));
    assert_eq!(h.tick(&vec![t(WindowMovement::Left, KeyState::Released)]), (0, 0));
}
