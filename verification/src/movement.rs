//! The discrete part of the movement subsystem. Directional input flags
//! become an integer direction vector with each axis in `{-1, 0, 1}`, and
//! seek steering gets its direction decision: the offset from an enemy to
//! the player, with coincident positions answered by `None` instead of a
//! degenerate zero-length direction. Normalising the direction and scaling
//! it by speed and the frame's time delta is the caller's inexact
//! arithmetic; the caller applies no movement when the decision is `None`.

use vstd::prelude::*;

verus! {

/// Horizontal input axis: right minus left, so opposite keys cancel.
pub open spec fn axis_x(left: bool, right: bool) -> int {
    (if right {
        1int
    } else {
        0int
    }) - (if left {
        1int
    } else {
        0int
    })
}

/// Vertical input axis: up minus down, so opposite keys cancel.
pub open spec fn axis_y(up: bool, down: bool) -> int {
    (if up {
        1int
    } else {
        0int
    }) - (if down {
        1int
    } else {
        0int
    })
}

/// Turns the four directional key flags into an integer direction vector.
/// Both axes zero means no input (or fully cancelling input): the caller
/// moves nothing that step and in particular never normalises a zero
/// vector.
pub fn input_direction(up: bool, down: bool, left: bool, right: bool) -> (d: (i32, i32))
    ensures
        d.0 == axis_x(left, right),
        d.1 == axis_y(up, down),
        (d.0 == 0 && d.1 == 0) <==> (axis_x(left, right) == 0 && axis_y(up, down) == 0),
{
    let mut dx: i32 = 0;
    let mut dy: i32 = 0;
    if up {
        dy = dy + 1;
    }
    if down {
        dy = dy - 1;
    }
    if left {
        dx = dx - 1;
    }
    if right {
        dx = dx + 1;
    }
    (dx, dy)
}

/// The seek direction decision for one enemy, over exact coordinates in
/// whatever fixed-point unit the caller works in. Coincident positions
/// have no defined direction, so they yield `None` — no normalisation
/// fault, no movement that step. Otherwise the un-normalised offset from
/// enemy to player comes back, never the zero vector.
pub fn seek_delta(enemy_x: i64, enemy_y: i64, player_x: i64, player_y: i64) -> (d: Option<
    (i64, i64),
>)
    requires
        -0x4000_0000_0000_0000 <= enemy_x < 0x4000_0000_0000_0000,
        -0x4000_0000_0000_0000 <= enemy_y < 0x4000_0000_0000_0000,
        -0x4000_0000_0000_0000 <= player_x < 0x4000_0000_0000_0000,
        -0x4000_0000_0000_0000 <= player_y < 0x4000_0000_0000_0000,
    ensures
        d is Some <==> !(enemy_x == player_x && enemy_y == player_y),
        d matches Some(v) ==> v.0 == player_x - enemy_x && v.1 == player_y - enemy_y && !(v.0 == 0
            && v.1 == 0),
{
    if enemy_x == player_x && enemy_y == player_y {
        None
    } else {
        Some((player_x - enemy_x, player_y - enemy_y))
    }
}

} // verus!

