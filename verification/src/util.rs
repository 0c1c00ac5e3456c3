//! Small world-space helpers.

use vstd::prelude::*;

use crate::consts::{COORD_MAX, WORLD_H, WORLD_W};
use crate::fx::Vec2Fx;

verus! {

/// How far beyond the world bounds a position may drift before it wraps.
pub const WRAP_TOLERANCE: i64 = 5_000;

/// A position wrapped back into the world once it drifts past a bound by
/// more than the tolerance.
pub open spec fn spec_wrap_around(v: Vec2Fx) -> Vec2Fx {
    let x = if v.x > WORLD_W + WRAP_TOLERANCE {
        (0 - WRAP_TOLERANCE) as i64
    } else if v.x < 0 - WRAP_TOLERANCE {
        (WORLD_W + WRAP_TOLERANCE) as i64
    } else {
        v.x
    };
    let y = if v.y > WORLD_H + WRAP_TOLERANCE {
        (0 - WRAP_TOLERANCE) as i64
    } else if v.y < 0 - WRAP_TOLERANCE {
        (WORLD_H + WRAP_TOLERANCE) as i64
    } else {
        v.y
    };
    Vec2Fx { x, y }
}

pub fn wrap_around(v: &Vec2Fx) -> (r: Vec2Fx)
    ensures
        r == spec_wrap_around(*v),
{
    let mut x = v.x;
    let mut y = v.y;
    if x > WORLD_W + WRAP_TOLERANCE {
        x = -WRAP_TOLERANCE;
    } else if x < -WRAP_TOLERANCE {
        x = WORLD_W + WRAP_TOLERANCE;
    }
    if y > WORLD_H + WRAP_TOLERANCE {
        y = -WRAP_TOLERANCE;
    } else if y < -WRAP_TOLERANCE {
        y = WORLD_H + WRAP_TOLERANCE;
    }
    Vec2Fx { x, y }
}

/// Radius of the probe circle standing for the pointer.
pub const POINTER_RADIUS: i64 = 2_000;

/// Whether a probe circle of the pointer radius at `m` touches a target
/// circle of radius `rad` at `t`: the squared center distance is at most
/// the squared sum of the radii.
pub open spec fn spec_contact(m: Vec2Fx, t: Vec2Fx, rad: i64) -> bool {
    (m.x - t.x) * (m.x - t.x) + (m.y - t.y) * (m.y - t.y) <= (POINTER_RADIUS + rad) * (
    POINTER_RADIUS + rad)
}

/// Whether the pointer at `mouse_pos` touches a circular target. Total over
/// every position: a target far enough away is never touched, whatever the
/// coordinates.
pub fn contact_mouse(mouse_pos: Vec2Fx, target_pos: Vec2Fx, target_rad: i64) -> (r: bool)
    requires
        0 <= target_rad <= COORD_MAX,
    ensures
        r == spec_contact(mouse_pos, target_pos, target_rad),
{
    let dx: i128 = mouse_pos.x as i128 - target_pos.x as i128;
    let dy: i128 = mouse_pos.y as i128 - target_pos.y as i128;
    let far: i128 = 0x1_0000_0000;
    let reach: i128 = (POINTER_RADIUS + target_rad) as i128;
    if dx > far || dx < -far || dy > far || dy < -far {
        proof {
            lemma_far_apart(dx as int, dy as int, reach as int);
        }
        false
    } else {
        proof {
            lemma_near_products(dx as int, dy as int);
        }
        let d2 = dx * dx + dy * dy;
        proof {
            assert(0 <= reach * reach <= 0x4000_0000_0000_0000) by (nonlinear_arith)
                requires
                    0 <= reach <= 0x2000_0000,
            ;
        }
        d2 <= reach * reach
    }
}

/// A center distance beyond the probe threshold exceeds any reachable sum
/// of radii.
proof fn lemma_far_apart(dx: int, dy: int, reach: int)
    requires
        dx > 0x1_0000_0000 || dx < -0x1_0000_0000 || dy > 0x1_0000_0000 || dy < -0x1_0000_0000,
        0 <= reach <= COORD_MAX + POINTER_RADIUS,
    ensures
        dx * dx + dy * dy > reach * reach,
{
    assert(dx * dx + dy * dy > reach * reach) by (nonlinear_arith)
        requires
            dx > 0x1_0000_0000 || dx < -0x1_0000_0000 || dy > 0x1_0000_0000 || dy
                < -0x1_0000_0000,
            0 <= reach <= 0x1_0000_0000,
    ;
}

/// Bounded center offsets square without overflowing the wide integers.
proof fn lemma_near_products(dx: int, dy: int)
    requires
        -0x1_0000_0000 <= dx <= 0x1_0000_0000,
        -0x1_0000_0000 <= dy <= 0x1_0000_0000,
    ensures
        0 <= dx * dx <= 0x1_0000_0000_0000_0000,
        0 <= dy * dy <= 0x1_0000_0000_0000_0000,
{
    assert(0 <= dx * dx <= 0x1_0000_0000_0000_0000 && 0 <= dy * dy
        <= 0x1_0000_0000_0000_0000) by (nonlinear_arith)
        requires
            -0x1_0000_0000 <= dx <= 0x1_0000_0000,
            -0x1_0000_0000 <= dy <= 0x1_0000_0000,
    ;
}

} // verus!
