//! Fixed-point vectors and rotation state.

use vstd::prelude::*;

verus! {

/// A 2D vector in fixed-point milli-units.
#[derive(Clone, Copy, Debug, PartialEq, Eq, Structural)]
pub struct Vec2Fx {
    pub x: i64,
    pub y: i64,
}

impl Vec2Fx {
    pub fn new(x: i64, y: i64) -> (r: Vec2Fx)
        ensures
            r == (Vec2Fx { x, y }),
    {
        Vec2Fx { x, y }
    }

    pub fn zero() -> (r: Vec2Fx)
        ensures
            r == (Vec2Fx { x: 0, y: 0 }),
    {
        Vec2Fx { x: 0, y: 0 }
    }

    /// Whether both components lie within `bound` of zero.
    pub open spec fn within(self, bound: i64) -> bool {
        -bound <= self.x <= bound && -bound <= self.y <= bound
    }
}

/// A 2D rotation carried as the IEEE 754 bit patterns of the cosine (`re`)
/// and sine (`im`) of the rotation angle, exactly as the physics engine
/// stores it. The crate never does arithmetic on these patterns beyond the
/// half-turn offset below, which is an exact sign-bit flip.
#[derive(Clone, Copy, Debug, PartialEq, Eq, Structural)]
pub struct RotBits {
    pub re: u32,
    pub im: u32,
}

/// Bit pattern of the scalar one: the cosine of the identity rotation.
pub const BITS_ONE: u32 = 0x3F80_0000;

/// Bit pattern of the scalar zero: the sine of the identity rotation.
pub const BITS_ZERO: u32 = 0;

/// Mask of the IEEE 754 sign bit.
pub const SIGN_BIT: u32 = 0x8000_0000;

/// The identity rotation.
pub open spec fn spec_rot_identity() -> RotBits {
    RotBits { re: BITS_ONE, im: BITS_ZERO }
}

pub fn rot_identity() -> (r: RotBits)
    ensures
        r == spec_rot_identity(),
{
    RotBits { re: BITS_ONE, im: BITS_ZERO }
}

/// The rotation turned by a half turn: cos(a + pi) == -cos(a) and
/// sin(a + pi) == -sin(a), and negating an IEEE 754 value is exactly a
/// sign-bit flip, so the offset is computed without touching the scalars.
pub open spec fn spec_half_turn(r: RotBits) -> RotBits {
    RotBits { re: r.re ^ SIGN_BIT, im: r.im ^ SIGN_BIT }
}

pub fn half_turn(r: RotBits) -> (t: RotBits)
    ensures
        t == spec_half_turn(r),
{
    RotBits { re: r.re ^ SIGN_BIT, im: r.im ^ SIGN_BIT }
}

/// Whether a vertex ring has any extent: at least one vertex differs from
/// the first, so the ring is not a single repeated point.
pub open spec fn ring_has_extent(vs: Seq<Vec2Fx>) -> bool {
    exists|i: int| 0 <= i < vs.len() && (#[trigger] vs[i]) != vs[0]
}

/// A throttle or factor clamped to one thousand milli-units of magnitude.
pub open spec fn spec_clamp_milli(x: i64) -> i64 {
    if x < -1000 {
        (-1000) as i64
    } else if x > 1000 {
        1000
    } else {
        x
    }
}

pub fn clamp_milli(x: i64) -> (r: i64)
    ensures
        r == spec_clamp_milli(x),
        -1000 <= r <= 1000,
{
    if x < -1000 {
        -1000
    } else if x > 1000 {
        1000
    } else {
        x
    }
}

} // verus!
