use vstd::prelude::*;

use crate::movement::{KeyState, Transition, WindowMovement, STEP};

verus! {

/// The held-key set after one transition: a press inserts the direction, a
/// release removes it, and either is idempotent.
pub open spec fn apply_spec(s: Set<WindowMovement>, t: Transition) -> Set<WindowMovement> {
    match t.state {
        KeyState::Pressed => s.insert(t.movement),
        KeyState::Released => s.remove(t.movement),
    }
}

/// The held-key set after a run of transitions, applied in order.
pub open spec fn held_after(s: Set<WindowMovement>, ts: Seq<Transition>) -> Set<WindowMovement>
    decreases ts.len(),
{
    if ts.len() == 0 {
        s
    } else {
        apply_spec(held_after(s, ts.drop_last()), ts.last())
    }
}

/// The state of the last transition of `d` in `ts`, if there is one.
pub open spec fn last_event(ts: Seq<Transition>, d: WindowMovement) -> Option<KeyState>
    decreases ts.len(),
{
    if ts.len() == 0 {
        None
    } else if ts.last().movement == d {
        Some(ts.last().state)
    } else {
        last_event(ts.drop_last(), d)
    }
}

/// What a direction contributes to a displacement while it is held.
pub open spec fn held_contribution(s: Set<WindowMovement>, d: WindowMovement) -> (int, int) {
    if s.contains(d) {
        (d.dx(), d.dy())
    } else {
        (0, 0)
    }
}

/// The displacement of one tick: the sum of the contributions of the held
/// directions.
pub open spec fn displacement_of(s: Set<WindowMovement>) -> (int, int) {
    let t = held_contribution(s, WindowMovement::Top);
    let d = held_contribution(s, WindowMovement::Down);
    let l = held_contribution(s, WindowMovement::Left);
    let r = held_contribution(s, WindowMovement::Right);
    (t.0 + d.0 + l.0 + r.0, t.1 + d.1 + l.1 + r.1)
}

/// The set of movement directions whose keys are currently down.
#[derive(Debug, Clone, Copy, PartialEq, Eq, Structural, Hash)]
pub struct HeldKeys {
    top: bool,
    down: bool,
    left: bool,
    right: bool,
}

impl View for HeldKeys {
    type V = Set<WindowMovement>;

    closed spec fn view(&self) -> Set<WindowMovement> {
        Set::new(
            |d: WindowMovement|
                match d {
                    WindowMovement::Top => self.top,
                    WindowMovement::Down => self.down,
                    WindowMovement::Left => self.left,
                    WindowMovement::Right => self.right,
                },
        )
    }
}

impl HeldKeys {
    /// No key is held.
    pub fn new() -> (r: HeldKeys)
        ensures
            r@ == Set::<WindowMovement>::empty(),
    {
        let r = HeldKeys { top: false, down: false, left: false, right: false };
        assert(r@ =~= Set::<WindowMovement>::empty());
        r
    }

    /// Whether the key of `d` is held.
    pub fn contains(&self, d: WindowMovement) -> (r: bool)
        ensures
            r == self@.contains(d),
    {
        match d {
            WindowMovement::Top => self.top,
            WindowMovement::Down => self.down,
            WindowMovement::Left => self.left,
            WindowMovement::Right => self.right,
        }
    }

    fn set(&mut self, d: WindowMovement, held: bool)
        ensures
            final(self)@ == (if held {
                old(self)@.insert(d)
            } else {
                old(self)@.remove(d)
            }),
    {
        match d {
            WindowMovement::Top => self.top = held,
            WindowMovement::Down => self.down = held,
            WindowMovement::Left => self.left = held,
            WindowMovement::Right => self.right = held,
        }
        if held {
            assert(self@ =~= old(self)@.insert(d));
        } else {
            assert(self@ =~= old(self)@.remove(d));
        }
    }

    /// Records that the key of `d` went down.
    pub fn press(&mut self, d: WindowMovement)
        ensures
            final(self)@ == old(self)@.insert(d),
    {
        self.set(d, true);
    }

    /// Records that the key of `d` came up.
    pub fn release(&mut self, d: WindowMovement)
        ensures
            final(self)@ == old(self)@.remove(d),
    {
        self.set(d, false);
    }

    /// Applies one transition.
    pub fn apply(&mut self, t: Transition)
        ensures
            final(self)@ == apply_spec(old(self)@, t),
    {
        match t.state {
            KeyState::Pressed => self.press(t.movement),
            KeyState::Released => self.release(t.movement),
        }
    }

    /// Applies the transitions in the order given.
    pub fn apply_all(&mut self, ts: &Vec<Transition>)
        ensures
            final(self)@ == held_after(old(self)@, ts@),
    {
        let ghost start = self@;
        let mut i: usize = 0;
        while i < ts.len()
            invariant
                i <= ts@.len(),
                self@ == held_after(start, ts@.take(i as int)),
            decreases ts@.len() - i,
        {
            assert(ts@.take(i as int + 1).drop_last() =~= ts@.take(i as int));
            self.apply(ts[i]);
            i = i + 1;
        }
        assert(ts@.take(i as int) =~= ts@);
    }

    /// One tick of the integrator: applies the pending transitions in order,
    /// then returns the displacement of the keys that are held. The move is
    /// owed on every tick, also when it is (0, 0).
    pub fn tick(&mut self, pending: &Vec<Transition>) -> (r: (i32, i32))
        ensures
            final(self)@ == held_after(old(self)@, pending@),
            (r.0 as int, r.1 as int) == displacement_of(final(self)@),
    {
        self.apply_all(pending);
        handle_movement(self)
    }
}

/// The displacement of one tick for the held keys.
pub fn handle_movement(movements: &HeldKeys) -> (r: (i32, i32))
    ensures
        (r.0 as int, r.1 as int) == displacement_of(movements@),
{
    let mut x: i32 = 0;
    let mut y: i32 = 0;
    if movements.contains(WindowMovement::Top) {
        y = y - STEP;
    }
    if movements.contains(WindowMovement::Down) {
        y = y + STEP;
    }
    if movements.contains(WindowMovement::Left) {
        x = x - STEP;
    }
    if movements.contains(WindowMovement::Right) {
        x = x + STEP;
    }
    (x, y)
}

/// After any run of transitions, a direction is held exactly when its last
/// transition was a press, or when it has none and was held before.
pub proof fn lemma_held_after_is_last_press(s: Set<WindowMovement>, ts: Seq<Transition>)
    ensures
        forall|d: WindowMovement|
            #[trigger] held_after(s, ts).contains(d) == (last_event(ts, d) == Some(KeyState::Pressed)
                || (last_event(ts, d) is None && s.contains(d))),
    decreases ts.len(),
{
    if ts.len() > 0 {
        let prev = ts.drop_last();
        lemma_held_after_is_last_press(s, prev);
        assert forall|d: WindowMovement|
            #[trigger] held_after(s, ts).contains(d) == (last_event(ts, d) == Some(
                KeyState::Pressed,
            ) || (last_event(ts, d) is None && s.contains(d))) by {
            assert(held_after(s, prev).contains(d) == (last_event(prev, d) == Some(
                KeyState::Pressed,
            ) || (last_event(prev, d) is None && s.contains(d))));
        }
    }
}

/// Starting with no key held, the held-key set after a run of transitions is
/// the set of directions whose last transition was a press, however presses
/// repeat.
pub proof fn lemma_held_keys_from_empty(ts: Seq<Transition>)
    ensures
        held_after(Set::empty(), ts) == Set::new(
            |d: WindowMovement| last_event(ts, d) == Some(KeyState::Pressed),
        ),
{
    lemma_held_after_is_last_press(Set::empty(), ts);
    assert(held_after(Set::empty(), ts) =~= Set::new(
        |d: WindowMovement| last_event(ts, d) == Some(KeyState::Pressed),
    ));
}

/// Opposite keys cancel: with left and right both held the horizontal
/// displacement is zero and the vertical one is that of the vertical keys;
/// releasing one of the two restores the other's direction. Likewise for up
/// and down.
pub proof fn lemma_opposing_keys_cancel(s: Set<WindowMovement>)
    ensures
        s.contains(WindowMovement::Left) && s.contains(WindowMovement::Right) ==> {
            &&& displacement_of(s).0 == 0
            &&& displacement_of(s).1 == held_contribution(s, WindowMovement::Top).1
                + held_contribution(s, WindowMovement::Down).1
            &&& displacement_of(s.remove(WindowMovement::Left)) == (STEP as int, displacement_of(s).1)
            &&& displacement_of(s.remove(WindowMovement::Right)) == (-STEP as int, displacement_of(s).1)
        },
        s.contains(WindowMovement::Top) && s.contains(WindowMovement::Down) ==> {
            &&& displacement_of(s).1 == 0
            &&& displacement_of(s).0 == held_contribution(s, WindowMovement::Left).0
                + held_contribution(s, WindowMovement::Right).0
            &&& displacement_of(s.remove(WindowMovement::Top)) == (displacement_of(s).0, STEP as int)
            &&& displacement_of(s.remove(WindowMovement::Down)) == (displacement_of(s).0, -STEP as int)
        },
{
}

/// With no key held a tick moves by (0, 0).
pub proof fn lemma_no_keys_no_motion()
    ensures
        displacement_of(Set::empty()) == (0int, 0int),
{
}

} // verus!
