//! Fixed world constants.
//!
//! Lengths are measured in milli-units: one thousandth of a world unit.
//! The physics engine is driven directly in milli-unit space, so a length
//! crosses the trusted boundary without any rescaling.

use vstd::prelude::*;

verus! {

/// Milli-units per world unit.
pub const SCALE: i64 = 1000;

/// World width used for random spawn placement, in milli-units.
pub const WORLD_W: i64 = 1_200_000;

/// World height used for random spawn placement, in milli-units.
pub const WORLD_H: i64 = 900_000;

/// Smallest size a randomly spawned simple entity may get, in milli-units.
pub const SIZE_MIN: i64 = 5_000;

/// Largest size a randomly spawned simple entity may get, in milli-units.
pub const SIZE_MAX: i64 = 14_000;

/// Initial scatter impulse magnitude applied to every freshly created
/// dynamic body, in world impulse units.
pub const SPEED: i64 = 3_000;

/// Engine impulse units per world impulse unit.
///
/// The engine world is a milli-unit copy of the logical world: lengths are
/// scaled by `SCALE`, material densities cross unscaled, so masses carry a
/// factor of `SCALE * SCALE` and an impulse must carry a factor of
/// `SCALE * SCALE * SCALE` to produce the same scaled motion.
pub const ENGINE_IMPULSE_UNIT: i64 = 1_000_000_000;

/// Largest impulse component magnitude (in milli-units of world impulse)
/// accepted when applying an impulse at a point.
pub const IMPULSE_ARG_MAX: i64 = 8_000_000;

/// Largest coordinate magnitude (in milli-units) accepted when creating a
/// body, chosen so the engine's scalar type represents it exactly.
pub const COORD_MAX: i64 = 16_000_000;

} // verus!
