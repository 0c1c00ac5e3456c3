//! A verified 2D entity–physics synchronization layer.
//!
//! A population of simple and composite entities is spawned into a shared
//! physical world driven by the rapier2d rigid-body engine. This crate owns
//! the mapping between lightweight entities (identity, visual attributes,
//! logical shape composition) and the engine's opaque body/collider handles,
//! plus the propulsion model that turns logical thrust commands into
//! impulses applied at body-local attachment points.
//!
//! All logical quantities (coordinates, sizes, throttles, impulses) are held
//! as fixed-point integers in milli-units, so the synchronization and
//! propulsion rules are stated and proved exactly. Quantities that are only
//! carried through to the engine and never computed with (rotation state,
//! material properties) are held as IEEE 754 bit patterns.

pub mod collector;
pub mod consts;
pub mod engine;
pub mod fx;
pub mod jet;
pub mod physics;
pub mod shape;
pub mod sim;
pub mod unit;
pub mod util;
