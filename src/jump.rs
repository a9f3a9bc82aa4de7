use vstd::prelude::*;

use crate::movement::WindowMovement;

verus! {

/// Half of `v`, rounded toward zero, as integer division does.
pub open spec fn half_toward_zero(v: int) -> int {
    if v >= 0 {
        v / 2
    } else {
        -((-v) / 2)
    }
}

/// Where a jump in direction `d` puts the pointer, from pointer position
/// (`mx`, `my`) on a monitor of `w` by `h` pixels. Each direction changes one
/// axis only: up halves y, down averages y with the height, left halves x,
/// right averages x with the width.
pub open spec fn jump_target(d: WindowMovement, mx: int, my: int, w: int, h: int) -> (int, int) {
    match d {
        WindowMovement::Top => (mx, half_toward_zero(my)),
        WindowMovement::Down => (mx, half_toward_zero(h + my)),
        WindowMovement::Left => (half_toward_zero(mx), my),
        WindowMovement::Right => (half_toward_zero(mx + w), my),
    }
}

/// Half of the sum of two coordinates, rounded toward zero, without overflow.
fn half_of_sum(a: i32, b: i32) -> (r: i32)
    ensures
        r as int == half_toward_zero(a + b),
{
    let s: i64 = a as i64 + b as i64;
    let h: i64 = if s >= 0 {
        s / 2
    } else {
        -((-s) / 2)
    };
    h as i32
}

/// The jump target of `movement` for the pointer at (`mouse_x`, `mouse_y`) on
/// a monitor of `width` by `height` pixels.
pub fn jump(
    movement: WindowMovement,
    mouse_x: i32,
    mouse_y: i32,
    width: i32,
    height: i32,
) -> (r: (i32, i32))
    ensures
        (r.0 as int, r.1 as int) == jump_target(
            movement,
            mouse_x as int,
            mouse_y as int,
            width as int,
            height as int,
        ),
{
    match movement {
        WindowMovement::Top => (mouse_x, half_of_sum(mouse_y, 0)),
        WindowMovement::Down => (mouse_x, half_of_sum(height, mouse_y)),
        WindowMovement::Left => (half_of_sum(mouse_x, 0), mouse_y),
        WindowMovement::Right => (half_of_sum(mouse_x, width), mouse_y),
    }
}

/// The jump target on the monitor under the window, given as (width, height);
/// `None`, and so no jump, where no monitor could be found.
pub fn jump_on_monitor(
    movement: WindowMovement,
    mouse_x: i32,
    mouse_y: i32,
    monitor: Option<(i32, i32)>,
) -> (r: Option<(i32, i32)>)
    ensures
        monitor is None ==> r is None,
        monitor matches Some((w, h)) ==> r matches Some((x, y)) && (x as int, y as int)
            == jump_target(movement, mouse_x as int, mouse_y as int, w as int, h as int),
{
    match monitor {
        Some((width, height)) => Some(jump(movement, mouse_x, mouse_y, width, height)),
        None => None,
    }
}

} // verus!
