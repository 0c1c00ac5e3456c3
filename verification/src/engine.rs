//! Trusted boundary to the rapier2d rigid-body engine.
//!
//! The engine state is held opaquely; what the rest of the crate knows of it
//! is written here as contracts over a few named views: the set of live body
//! handles, each live body's pose (position read back as truncated
//! milli-units, rotation as the engine's unit-complex bit patterns), whether
//! it is fixed, how many colliders it carries, the ball radius of its first
//! collider, and its velocity bit patterns. Lengths cross this boundary in
//! milli-units and are converted by plain casts; material properties and
//! rotation state cross as IEEE 754 bit patterns.

use vstd::prelude::*;

use crate::consts::COORD_MAX;
use crate::fx::{RotBits, Vec2Fx};

use rapier2d::math::Real;
use rapier2d::math::Rotation;
use rapier2d::math::Vector;
use rapier2d::prelude::ColliderBuilder;
use rapier2d::prelude::PhysicsWorld;
use rapier2d::prelude::RigidBodyBuilder;
use rapier2d::prelude::RigidBodyHandle;

verus! {

/// An opaque, non-owning reference to a rigid body in the engine's storage:
/// the raw (index, generation) pair of the engine's arena handle.
#[derive(Clone, Copy, Debug, PartialEq, Eq, Structural, Hash)]
pub struct BodyHandle {
    pub index: u32,
    pub generation: u32,
}

/// An opaque, non-owning reference to a collider in the engine's storage.
#[derive(Clone, Copy, Debug, PartialEq, Eq, Structural, Hash)]
pub struct ColHandle {
    pub index: u32,
    pub generation: u32,
}

/// The engine's whole mutable state (body and collider sets, broad and
/// narrow phase, solver workspaces), held behind one opaque struct because
/// its contents are meaningful to the engine alone.
#[verifier::external_body]
pub struct EngineState {
    world: PhysicsWorld,
}

/// The set of body handles that currently resolve to a live body.
pub uninterp spec fn live_bodies(s: EngineState) -> Set<BodyHandle>;

/// A live body's position, read back as milli-units truncated to integers.
pub uninterp spec fn engine_pos(s: EngineState, h: BodyHandle) -> (int, int);

/// A live body's rotation, as the bit patterns of its unit complex.
pub uninterp spec fn engine_rot(s: EngineState, h: BodyHandle) -> RotBits;

/// The radius (in truncated milli-units) of a live body's first collider,
/// if that collider is a ball; absent when the body has no collider or its
/// first collider is not a ball.
pub uninterp spec fn engine_ball_radius(s: EngineState, h: BodyHandle) -> Option<int>;

/// The geometry one attached collider was built from.
pub ghost enum ColliderShapeRec {
    Ball { radius: int },
    Box { half_x: int, half_y: int },
    Hull { points: Seq<Vec2Fx> },
}

/// One collider as this boundary records it: the geometry handed to the
/// engine (for a hull, the vertex ring whose convex hull the engine took),
/// the body-local offset and rotation it was placed at, and the material
/// bit patterns copied into it.
pub ghost struct ColliderRec {
    pub shape: ColliderShapeRec,
    pub rel_x: int,
    pub rel_y: int,
    pub rel_rot: RotBits,
    pub friction: u32,
    pub restitution: u32,
    pub density: u32,
}

/// The colliders attached to a live body, in attachment order.
pub uninterp spec fn engine_colliders(s: EngineState, h: BodyHandle) -> Seq<ColliderRec>;

/// The number of colliders attached to a live body.
pub open spec fn engine_collider_count(s: EngineState, h: BodyHandle) -> int {
    engine_colliders(s, h).len() as int
}

/// A live body's linear and angular damping factors, as bit patterns.
pub uninterp spec fn engine_damping(s: EngineState, h: BodyHandle) -> (u32, u32);

/// A live body's user tag.
pub uninterp spec fn engine_tag(s: EngineState, h: BodyHandle) -> u128;

/// Whether a live body is fixed: immovable, never integrated by a step.
pub uninterp spec fn engine_fixed(s: EngineState, h: BodyHandle) -> bool;

/// A live body's linear and angular velocity, as three bit patterns.
pub uninterp spec fn engine_vel(s: EngineState, h: BodyHandle) -> (u32, u32, u32);

/// A live body's mass, kinetic energy and net user force, as bit patterns:
/// scalars the engine derives from its own state, carried but never
/// computed with.
pub uninterp spec fn engine_extras(s: EngineState, h: BodyHandle) -> (u32, u32, (u32, u32));

/// The velocity a body is left with by an instantaneous impulse applied at
/// a world-space point: a function of the whole pre-call engine state and
/// the impulse arguments (in engine units), nothing else.
pub uninterp spec fn vel_after_impulse_at(
    s: EngineState,
    h: BodyHandle,
    imp_x: int,
    imp_y: int,
    at_x: int,
    at_y: int,
) -> (u32, u32, u32);

/// The velocity a body is left with by an instantaneous impulse applied at
/// its center of mass.
pub uninterp spec fn vel_after_impulse(s: EngineState, h: BodyHandle, imp_x: int, imp_y: int) -> (
    u32,
    u32,
    u32,
);

/// Whether the engine accepts this vertex ring as a non-degenerate convex
/// hull: what the hull builder decides, a function of the points alone.
pub uninterp spec fn hull_ok(points: Seq<Vec2Fx>) -> bool;

/// The image of a vector under a rotation, truncated to integers.
pub uninterp spec fn rot_image(r: RotBits, x: int, y: int) -> (int, int);

/// Everything this boundary names of one body except its velocity,
/// unchanged between two states.
pub open spec fn body_frame(s1: EngineState, s2: EngineState, h: BodyHandle) -> bool {
    &&& engine_pos(s2, h) == engine_pos(s1, h)
    &&& engine_rot(s2, h) == engine_rot(s1, h)
    &&& engine_ball_radius(s2, h) == engine_ball_radius(s1, h)
    &&& engine_colliders(s2, h) == engine_colliders(s1, h)
    &&& engine_fixed(s2, h) == engine_fixed(s1, h)
    &&& engine_damping(s2, h) == engine_damping(s1, h)
    &&& engine_tag(s2, h) == engine_tag(s1, h)
}

/// Both components negated.
pub open spec fn neg_pair(p: (int, int)) -> (int, int) {
    (-p.0, -p.1)
}

/// Magnitude of an integer.
pub open spec fn iabs(x: int) -> int {
    if x >= 0 {
        x
    } else {
        -x
    }
}

/// Whether rotation bit patterns encode scalars of magnitude at most two.
/// The engine keeps its unit complexes normalized, so every rotation read
/// from a live body satisfies this; it bounds the products formed when a
/// vector is rotated, keeping integer truncation exact under negation.
pub open spec fn rot_sane(r: RotBits) -> bool {
    (r.re & 0x7FFF_FFFF) <= 0x4000_0000 && (r.im & 0x7FFF_FFFF) <= 0x4000_0000
}

/// Largest vector component magnitude accepted by `rotate_milli`.
pub const ROT_ARG_MAX: i64 = 0x100_0000_0000;

/// A read-only snapshot of one live body: position in milli-units, rotation
/// bit patterns, and the engine's mass, kinetic energy and user-force
/// scalars as bit patterns.
#[derive(Clone, Copy, Debug)]
pub struct RawPose {
    pub x: i64,
    pub y: i64,
    pub rot: RotBits,
    pub mass: u32,
    pub kin_eng: u32,
    pub force_x: u32,
    pub force_y: u32,
}

/// Relies on rapier2d's `PhysicsWorld::new`: a fresh world has empty body
/// and collider sets. Gravity is zeroed: this world is free-floating.
#[verifier::external_body]
pub fn engine_new() -> (s: EngineState)
    ensures
        live_bodies(s) == Set::<BodyHandle>::empty(),
{
    let mut world = PhysicsWorld::new();
    world.gravity = Vector::ZERO;
    EngineState { world }
}

/// Relies on rapier2d's `RigidBodySet::insert` (through
/// `PhysicsWorld::insert_body`): the returned arena handle is fresh, and the
/// new dynamic body sits exactly at the given integer position with the
/// identity rotation, zero velocity, no colliders, the given damping
/// factors and the given user tag. Bodies already present are untouched.
#[verifier::external_body]
pub fn insert_dynamic_body(
    s: &mut EngineState,
    key: u64,
    x: i64,
    y: i64,
    lin_damp: u32,
    ang_damp: u32,
) -> (h: BodyHandle)
    requires
        -COORD_MAX <= x <= COORD_MAX,
        -COORD_MAX <= y <= COORD_MAX,
    ensures
        !live_bodies(*old(s)).contains(h),
        live_bodies(*final(s)) == live_bodies(*old(s)).insert(h),
        engine_pos(*final(s), h) == (x as int, y as int),
        engine_rot(*final(s), h) == crate::fx::spec_rot_identity(),
        engine_ball_radius(*final(s), h) is None,
        engine_colliders(*final(s), h) == Seq::<ColliderRec>::empty(),
        !engine_fixed(*final(s), h),
        engine_vel(*final(s), h) == (0u32, 0u32, 0u32),
        engine_damping(*final(s), h) == (lin_damp, ang_damp),
        engine_tag(*final(s), h) == key as u128,
        forall|h2: BodyHandle| #[trigger]
            live_bodies(*old(s)).contains(h2) ==> body_frame(*old(s), *final(s), h2) && engine_vel(
                *final(s),
                h2,
            ) == engine_vel(*old(s), h2) && engine_extras(*final(s), h2) == engine_extras(
                *old(s),
                h2,
            ),
{
    let body = RigidBodyBuilder::dynamic()
        .translation(Vector::new(x as Real, y as Real))
        .linear_damping(Real::from_bits(lin_damp))
        .angular_damping(Real::from_bits(ang_damp))
        .user_data(key as u128);
    let (index, generation) = s.world.insert_body(body).into_raw_parts();
    BodyHandle { index, generation }
}

/// Relies on rapier2d's `RigidBodySet::insert`: as `insert_dynamic_body`,
/// but the new body is fixed (immovable) and carries no damping or tag.
#[verifier::external_body]
pub fn insert_fixed_body(s: &mut EngineState, x: i64, y: i64) -> (h: BodyHandle)
    requires
        -COORD_MAX <= x <= COORD_MAX,
        -COORD_MAX <= y <= COORD_MAX,
    ensures
        !live_bodies(*old(s)).contains(h),
        live_bodies(*final(s)) == live_bodies(*old(s)).insert(h),
        engine_pos(*final(s), h) == (x as int, y as int),
        engine_rot(*final(s), h) == crate::fx::spec_rot_identity(),
        engine_ball_radius(*final(s), h) is None,
        engine_colliders(*final(s), h) == Seq::<ColliderRec>::empty(),
        engine_fixed(*final(s), h),
        engine_vel(*final(s), h) == (0u32, 0u32, 0u32),
        engine_damping(*final(s), h) == (0u32, 0u32),
        engine_tag(*final(s), h) == 0u128,
        forall|h2: BodyHandle| #[trigger]
            live_bodies(*old(s)).contains(h2) ==> body_frame(*old(s), *final(s), h2) && engine_vel(
                *final(s),
                h2,
            ) == engine_vel(*old(s), h2) && engine_extras(*final(s), h2) == engine_extras(
                *old(s),
                h2,
            ),
{
    let body = RigidBodyBuilder::fixed().translation(Vector::new(x as Real, y as Real));
    let (index, generation) = s.world.insert_body(body).into_raw_parts();
    BodyHandle { index, generation }
}

/// Relies on rapier2d's `ColliderSet::insert_with_parent` (through
/// `PhysicsWorld::insert_collider`) and `ColliderBuilder::ball`: attaches a
/// ball collider to the body at a local offset and local rotation.
/// Attaching only recomputes mass properties: no body moves or changes
/// velocity or kind, none is created or removed, and the new collider is
/// appended after any the body already had — so the body's first collider,
/// and with it the named ball radius, changes only if the body had no
/// collider at all.
#[verifier::external_body]
pub fn attach_ball(
    s: &mut EngineState,
    h: BodyHandle,
    rel_x: i64,
    rel_y: i64,
    rel_rot: RotBits,
    radius: i64,
    friction: u32,
    restitution: u32,
    density: u32,
) -> (c: ColHandle)
    requires
        live_bodies(*old(s)).contains(h),
        -COORD_MAX <= rel_x <= COORD_MAX,
        -COORD_MAX <= rel_y <= COORD_MAX,
        1 <= radius <= COORD_MAX,
    ensures
        live_bodies(*final(s)) == live_bodies(*old(s)),
        engine_colliders(*final(s), h) == engine_colliders(*old(s), h).push(
            ColliderRec {
                shape: ColliderShapeRec::Ball { radius: radius as int },
                rel_x: rel_x as int,
                rel_y: rel_y as int,
                rel_rot,
                friction,
                restitution,
                density,
            },
        ),
        engine_collider_count(*old(s), h) == 0 ==> engine_ball_radius(*final(s), h) == Some(
            radius as int,
        ),
        engine_collider_count(*old(s), h) != 0 ==> engine_ball_radius(*final(s), h)
            == engine_ball_radius(*old(s), h),
        forall|h2: BodyHandle| #[trigger]
            live_bodies(*old(s)).contains(h2) ==> engine_pos(*final(s), h2) == engine_pos(
                *old(s),
                h2,
            ) && engine_rot(*final(s), h2) == engine_rot(*old(s), h2) && engine_fixed(
                *final(s),
                h2,
            ) == engine_fixed(*old(s), h2) && engine_vel(*final(s), h2) == engine_vel(*old(s), h2)
                && engine_damping(*final(s), h2) == engine_damping(*old(s), h2) && engine_tag(
                *final(s),
                h2,
            ) == engine_tag(*old(s), h2),
        forall|h2: BodyHandle|
            h2 != h && #[trigger] live_bodies(*old(s)).contains(h2) ==> engine_ball_radius(
                *final(s),
                h2,
            ) == engine_ball_radius(*old(s), h2) && engine_colliders(*final(s), h2)
                == engine_colliders(*old(s), h2) && engine_extras(*final(s), h2) == engine_extras(
                *old(s),
                h2,
            ),
{
    let parent = RigidBodyHandle::from_raw_parts(h.index, h.generation);
    let rot = Rotation::from_cos_sin_unchecked(Real::from_bits(rel_rot.re), Real::from_bits(rel_rot.im));
    let col = ColliderBuilder::ball(radius as Real)
        .translation(Vector::new(rel_x as Real, rel_y as Real))
        .rotation(rot.angle())
        .friction(Real::from_bits(friction))
        .restitution(Real::from_bits(restitution))
        .density(Real::from_bits(density));
    let (index, generation) = s.world.insert_collider(col, Some(parent)).into_raw_parts();
    ColHandle { index, generation }
}

/// Relies on `ColliderBuilder::cuboid` and
/// `PhysicsWorld::insert_collider`: attaches a box collider with the given
/// half-extents to the body at a local offset and rotation. As for
/// `attach_ball`, nothing moves and the collider is appended; a box is not
/// a ball, so the named ball radius is unchanged whether or not the body
/// had a collider before.
#[verifier::external_body]
pub fn attach_cuboid(
    s: &mut EngineState,
    h: BodyHandle,
    rel_x: i64,
    rel_y: i64,
    rel_rot: RotBits,
    half_x: i64,
    half_y: i64,
    friction: u32,
    restitution: u32,
    density: u32,
) -> (c: ColHandle)
    requires
        live_bodies(*old(s)).contains(h),
        -COORD_MAX <= rel_x <= COORD_MAX,
        -COORD_MAX <= rel_y <= COORD_MAX,
        1 <= half_x <= COORD_MAX,
        1 <= half_y <= COORD_MAX,
    ensures
        live_bodies(*final(s)) == live_bodies(*old(s)),
        engine_colliders(*final(s), h) == engine_colliders(*old(s), h).push(
            ColliderRec {
                shape: ColliderShapeRec::Box { half_x: half_x as int, half_y: half_y as int },
                rel_x: rel_x as int,
                rel_y: rel_y as int,
                rel_rot,
                friction,
                restitution,
                density,
            },
        ),
        forall|h2: BodyHandle| #[trigger]
            live_bodies(*old(s)).contains(h2) ==> engine_pos(*final(s), h2) == engine_pos(
                *old(s),
                h2,
            ) && engine_rot(*final(s), h2) == engine_rot(*old(s), h2) && engine_ball_radius(
                *final(s),
                h2,
            ) == engine_ball_radius(*old(s), h2) && engine_fixed(*final(s), h2) == engine_fixed(
                *old(s),
                h2,
            ) && engine_vel(*final(s), h2) == engine_vel(*old(s), h2) && engine_damping(
                *final(s),
                h2,
            ) == engine_damping(*old(s), h2) && engine_tag(*final(s), h2) == engine_tag(
                *old(s),
                h2,
            ),
        forall|h2: BodyHandle|
            h2 != h && #[trigger] live_bodies(*old(s)).contains(h2) ==> engine_colliders(
                *final(s),
                h2,
            ) == engine_colliders(*old(s), h2) && engine_extras(*final(s), h2) == engine_extras(
                *old(s),
                h2,
            ),
{
    let parent = RigidBodyHandle::from_raw_parts(h.index, h.generation);
    let rot = Rotation::from_cos_sin_unchecked(Real::from_bits(rel_rot.re), Real::from_bits(rel_rot.im));
    let col = ColliderBuilder::cuboid(half_x as Real, half_y as Real)
        .translation(Vector::new(rel_x as Real, rel_y as Real))
        .rotation(rot.angle())
        .friction(Real::from_bits(friction))
        .restitution(Real::from_bits(restitution))
        .density(Real::from_bits(density));
    let (index, generation) = s.world.insert_collider(col, Some(parent)).into_raw_parts();
    ColHandle { index, generation }
}

/// Relies on `ColliderBuilder::convex_hull` and
/// `PhysicsWorld::insert_collider`: attaches the convex hull of the given
/// points as a collider, or returns nothing — attaching nothing — exactly
/// when the hull builder finds the ring degenerate (e.g. collinear) and
/// refuses it. A ring whose vertices all coincide must be excluded: on that
/// one input the hull builder aborts instead of refusing. As for
/// `attach_cuboid`, nothing moves, the collider is appended, and the named
/// ball radius is unchanged.
#[verifier::external_body]
pub fn attach_convex_hull(
    s: &mut EngineState,
    h: BodyHandle,
    points: &Vec<Vec2Fx>,
    friction: u32,
    restitution: u32,
    density: u32,
) -> (c: Option<ColHandle>)
    requires
        live_bodies(*old(s)).contains(h),
        points.len() >= 3,
        forall|i: int| 0 <= i < points.len() ==> (#[trigger] points[i]).within(COORD_MAX),
        crate::fx::ring_has_extent(points@),
    ensures
        c is Some <==> hull_ok(points@),
        live_bodies(*final(s)) == live_bodies(*old(s)),
        c is Some ==> engine_colliders(*final(s), h) == engine_colliders(*old(s), h).push(
            ColliderRec {
                shape: ColliderShapeRec::Hull { points: points@ },
                rel_x: 0,
                rel_y: 0,
                rel_rot: crate::fx::spec_rot_identity(),
                friction,
                restitution,
                density,
            },
        ),
        c is None ==> engine_colliders(*final(s), h) == engine_colliders(*old(s), h),
        forall|h2: BodyHandle| #[trigger]
            live_bodies(*old(s)).contains(h2) ==> engine_pos(*final(s), h2) == engine_pos(
                *old(s),
                h2,
            ) && engine_rot(*final(s), h2) == engine_rot(*old(s), h2) && engine_ball_radius(
                *final(s),
                h2,
            ) == engine_ball_radius(*old(s), h2) && engine_fixed(*final(s), h2) == engine_fixed(
                *old(s),
                h2,
            ) && engine_vel(*final(s), h2) == engine_vel(*old(s), h2) && engine_damping(
                *final(s),
                h2,
            ) == engine_damping(*old(s), h2) && engine_tag(*final(s), h2) == engine_tag(
                *old(s),
                h2,
            ),
        forall|h2: BodyHandle|
            h2 != h && #[trigger] live_bodies(*old(s)).contains(h2) ==> engine_colliders(
                *final(s),
                h2,
            ) == engine_colliders(*old(s), h2) && engine_extras(*final(s), h2) == engine_extras(
                *old(s),
                h2,
            ),
{
    let pts: std::vec::Vec<Vector> =
        points.iter().map(|p| Vector::new(p.x as Real, p.y as Real)).collect();
    let builder = ColliderBuilder::convex_hull(&pts)?
        .friction(Real::from_bits(friction))
        .restitution(Real::from_bits(restitution))
        .density(Real::from_bits(density));
    let parent = RigidBodyHandle::from_raw_parts(h.index, h.generation);
    let (index, generation) = s.world.insert_collider(builder, Some(parent)).into_raw_parts();
    Some(ColHandle { index, generation })
}

/// Relies on `ColliderBuilder::convex_hull` alone: whether the hull builder
/// accepts the ring — the same decision `attach_convex_hull` names, made
/// without touching any world. A ring whose vertices all coincide must be
/// excluded: on that one input the hull builder aborts instead of refusing.
#[verifier::external_body]
pub fn convex_hull_ok(points: &Vec<Vec2Fx>) -> (r: bool)
    requires
        points.len() >= 3,
        forall|i: int| 0 <= i < points.len() ==> (#[trigger] points[i]).within(COORD_MAX),
        crate::fx::ring_has_extent(points@),
    ensures
        r == hull_ok(points@),
{
    let pts: std::vec::Vec<Vector> =
        points.iter().map(|p| Vector::new(p.x as Real, p.y as Real)).collect();
    ColliderBuilder::convex_hull(&pts).is_some()
}

/// Relies on rapier2d's `RigidBody::apply_impulse`: an instantaneous
/// impulse at the center of mass leaves the body with the velocity named
/// `vel_after_impulse` — never a new pose — and touches no other body.
#[verifier::external_body]
pub fn apply_impulse(s: &mut EngineState, h: BodyHandle, imp_x: i64, imp_y: i64)
    requires
        live_bodies(*old(s)).contains(h),
    ensures
        live_bodies(*final(s)) == live_bodies(*old(s)),
        engine_vel(*final(s), h) == vel_after_impulse(*old(s), h, imp_x as int, imp_y as int),
        forall|h2: BodyHandle| #[trigger]
            live_bodies(*old(s)).contains(h2) ==> body_frame(*old(s), *final(s), h2),
        forall|h2: BodyHandle|
            h2 != h && #[trigger] live_bodies(*old(s)).contains(h2) ==> engine_vel(*final(s), h2)
                == engine_vel(*old(s), h2) && engine_extras(*final(s), h2) == engine_extras(
                *old(s),
                h2,
            ),
{
    let handle = RigidBodyHandle::from_raw_parts(h.index, h.generation);
    let rb = s.world.bodies.get_mut(handle).unwrap();
    rb.apply_impulse(Vector::new(imp_x as Real, imp_y as Real), true);
}

/// Relies on rapier2d's `RigidBody::apply_impulse_at_point`: an
/// instantaneous impulse at a world-space point leaves the body with the
/// linear and angular velocity named `vel_after_impulse_at` — never a new
/// pose — and touches no other body.
#[verifier::external_body]
pub fn apply_impulse_at_point(
    s: &mut EngineState,
    h: BodyHandle,
    imp_x: i64,
    imp_y: i64,
    at_x: i128,
    at_y: i128,
)
    requires
        live_bodies(*old(s)).contains(h),
    ensures
        live_bodies(*final(s)) == live_bodies(*old(s)),
        engine_vel(*final(s), h) == vel_after_impulse_at(
            *old(s),
            h,
            imp_x as int,
            imp_y as int,
            at_x as int,
            at_y as int,
        ),
        forall|h2: BodyHandle| #[trigger]
            live_bodies(*old(s)).contains(h2) ==> body_frame(*old(s), *final(s), h2),
        forall|h2: BodyHandle|
            h2 != h && #[trigger] live_bodies(*old(s)).contains(h2) ==> engine_vel(*final(s), h2)
                == engine_vel(*old(s), h2) && engine_extras(*final(s), h2) == engine_extras(
                *old(s),
                h2,
            ),
{
    let handle = RigidBodyHandle::from_raw_parts(h.index, h.generation);
    let rb = s.world.bodies.get_mut(handle).unwrap();
    rb.apply_impulse_at_point(
        Vector::new(imp_x as Real, imp_y as Real),
        Vector::new(at_x as Real, at_y as Real),
        true,
    );
}

/// Relies on rapier2d's `PhysicsWorld::step`: one fixed timestep integrates
/// every dynamic body and resolves collisions. Dynamic poses and velocities
/// change; no body or collider is created, removed or retyped, and a fixed
/// body is never integrated, so its pose survives any number of steps.
#[verifier::external_body]
pub fn step_world(s: &mut EngineState)
    ensures
        live_bodies(*final(s)) == live_bodies(*old(s)),
        forall|h2: BodyHandle| #[trigger]
            live_bodies(*old(s)).contains(h2) ==> engine_ball_radius(*final(s), h2)
                == engine_ball_radius(*old(s), h2) && engine_colliders(*final(s), h2)
                == engine_colliders(*old(s), h2) && engine_fixed(*final(s), h2) == engine_fixed(
                *old(s),
                h2,
            ) && engine_damping(*final(s), h2) == engine_damping(*old(s), h2) && engine_tag(
                *final(s),
                h2,
            ) == engine_tag(*old(s), h2),
        forall|h2: BodyHandle|
            #[trigger] live_bodies(*old(s)).contains(h2) && engine_fixed(*old(s), h2)
                ==> engine_pos(*final(s), h2) == engine_pos(*old(s), h2) && engine_rot(
                *final(s),
                h2,
            ) == engine_rot(*old(s), h2),
{
    s.world.step();
}

/// Relies on rapier2d's `PhysicsWorld::remove_body`: removes the body and
/// cascades through its colliders and any joints referencing it; a stale
/// handle removes nothing. Other bodies are untouched.
#[verifier::external_body]
pub fn remove_body(s: &mut EngineState, h: BodyHandle)
    ensures
        live_bodies(*final(s)) == live_bodies(*old(s)).remove(h),
        forall|h2: BodyHandle|
            h2 != h && #[trigger] live_bodies(*old(s)).contains(h2) ==> body_frame(
                *old(s),
                *final(s),
                h2,
            ) && engine_vel(*final(s), h2) == engine_vel(*old(s), h2) && engine_extras(
                *final(s),
                h2,
            ) == engine_extras(*old(s), h2),
{
    let handle = RigidBodyHandle::from_raw_parts(h.index, h.generation);
    let _ = s.world.remove_body(handle);
}

/// Relies on rapier2d's `RigidBodySet::contains`.
#[verifier::external_body]
pub fn contains_body(s: &EngineState, h: BodyHandle) -> (r: bool)
    ensures
        r == live_bodies(*s).contains(h),
{
    s.world.bodies.contains(RigidBodyHandle::from_raw_parts(h.index, h.generation))
}

/// Relies on rapier2d's `RigidBodySet::len`: the number of live bodies.
#[verifier::external_body]
pub fn body_count(s: &EngineState) -> (r: usize)
    ensures
        r == live_bodies(*s).len(),
{
    s.world.bodies.len()
}

/// Relies on rapier2d's `RigidBodySet::get`, `RigidBody::translation`,
/// `RigidBody::rotation`, `RigidBody::mass`, `RigidBody::kinetic_energy`
/// and `RigidBody::user_force`: a snapshot of a live body, or nothing for a
/// stale handle. The engine keeps rotations normalized, so the returned
/// rotation bit patterns encode scalars of magnitude at most one.
#[verifier::external_body]
pub fn query_pose(s: &EngineState, h: BodyHandle) -> (r: Option<RawPose>)
    ensures
        r is Some <==> live_bodies(*s).contains(h),
        r matches Some(p) ==> (p.x as int, p.y as int) == engine_pos(*s, h) && p.rot
            == engine_rot(*s, h) && rot_sane(p.rot) && (p.mass, p.kin_eng, (p.force_x, p.force_y))
            == engine_extras(*s, h),
{
    let rb = s.world.bodies.get(RigidBodyHandle::from_raw_parts(h.index, h.generation))?;
    let (t, rot, f) = (rb.translation(), rb.rotation(), rb.user_force());
    Some(RawPose {
        x: t.x as i64,
        y: t.y as i64,
        rot: RotBits { re: rot.cos().to_bits(), im: rot.sin().to_bits() },
        mass: rb.mass().to_bits(),
        kin_eng: rb.kinetic_energy().to_bits(),
        force_x: f.x.to_bits(),
        force_y: f.y.to_bits(),
    })
}

/// Relies on rapier2d's `RigidBodySet::get`, `RigidBody::colliders`,
/// `ColliderSet::get` and parry's `Shape::as_ball`: the radius of the
/// body's first collider when that collider is a ball, and nothing for a
/// stale handle, a collider-less body or a non-ball first collider.
#[verifier::external_body]
pub fn query_ball_radius(s: &EngineState, h: BodyHandle) -> (r: Option<i64>)
    ensures
        r is Some ==> live_bodies(*s).contains(h),
        r matches Some(v) ==> engine_ball_radius(*s, h) == Some(v as int),
        r is None ==> !live_bodies(*s).contains(h) || engine_ball_radius(*s, h) is None,
{
    let handle = RigidBodyHandle::from_raw_parts(h.index, h.generation);
    let rb = s.world.bodies.get(handle)?;
    let first = rb.colliders().first()?;
    let ball = s.world.colliders.get(*first)?.shape().as_ball()?;
    Some(ball.radius as i64)
}

/// Relies on glamx's `Rot2::transform_vector`: the image of `(x, y)` under
/// the rotation encoded by `r`, truncated to integers. The sanity bound on
/// the rotation keeps each scalar's magnitude at most two, so the image's
/// components stay well under four times the input magnitudes even with
/// rounding. The map is exactly odd in IEEE 754 arithmetic — each product
/// and sum negates exactly when the vector is negated, rounding and
/// truncation are symmetric about zero, and the bounds keep every
/// intermediate far from the truncation's saturation range — so the zero
/// vector maps to zero and a negated vector to the negated image.
#[verifier::external_body]
pub fn rotate_milli(r: RotBits, x: i64, y: i64) -> (v: (i64, i64))
    requires
        rot_sane(r),
        -ROT_ARG_MAX <= x <= ROT_ARG_MAX,
        -ROT_ARG_MAX <= y <= ROT_ARG_MAX,
    ensures
        (v.0 as int, v.1 as int) == rot_image(r, x as int, y as int) && rot_image(r, 0, 0) == (
            0int,
            0int,
        ) && iabs(v.0 as int) <= 4 * (iabs(x as int) + iabs(y as int)) && iabs(v.1 as int) <= 4 * (
        iabs(x as int) + iabs(y as int)) && forall|a: int, b: int|
            -ROT_ARG_MAX <= a <= ROT_ARG_MAX && -ROT_ARG_MAX <= b <= ROT_ARG_MAX ==> #[trigger]
            rot_image(r, -a, -b) == neg_pair(rot_image(r, a, b)),
{
    let rot = rapier2d::math::Rotation::from_cos_sin_unchecked(
        Real::from_bits(r.re),
        Real::from_bits(r.im),
    );
    let img = rot.transform_vector(Vector::new(x as Real, y as Real));
    (img.x as i64, img.y as i64)
}

} // verus!
