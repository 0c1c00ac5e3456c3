//! The physics world: handle-based creation, per-step advancement, state
//! query with a defensive default, and removal.

use vstd::prelude::*;

use crate::consts::{COORD_MAX, ENGINE_IMPULSE_UNIT, IMPULSE_ARG_MAX, SCALE, SPEED, WORLD_H, WORLD_W};
use crate::engine;
use crate::engine::{BodyHandle, ColHandle, EngineState};
use crate::fx::{spec_half_turn, spec_rot_identity, RotBits, Vec2Fx, BITS_ONE, SIGN_BIT};
use crate::shape::{Shape, FALLBACK_RADIUS};

verus! {

/// Bit pattern of the scalar one half.
pub const BITS_HALF: u32 = 0x3F00_0000;

/// Bit pattern of the scalar one tenth.
pub const BITS_TENTH: u32 = 0x3DCC_CCCD;

/// Bit pattern of the scalar nine tenths.
pub const BITS_NINE_TENTHS: u32 = 0x3F66_6666;

/// Bit pattern of the scalar one hundredth.
pub const BITS_HUNDREDTH: u32 = 0x3C23_D70A;

/// The moderate default material preset, as a specification value.
pub open spec fn default_props() -> PhysicsProperities {
    PhysicsProperities {
        friction: BITS_HALF,
        restitution: BITS_HALF,
        density: BITS_HALF,
        linear_damping: BITS_TENTH,
        angular_damping: BITS_NINE_TENTHS,
    }
}

/// The elastic preset for free bodies, as a specification value.
pub open spec fn bounce_props() -> PhysicsProperities {
    PhysicsProperities {
        friction: 0,
        restitution: BITS_ONE,
        density: BITS_ONE,
        linear_damping: BITS_TENTH,
        angular_damping: BITS_TENTH,
    }
}

/// The low-drag preset for attached sub-parts, as a specification value.
pub open spec fn free_props() -> PhysicsProperities {
    PhysicsProperities {
        friction: 0,
        restitution: BITS_ONE,
        density: BITS_TENTH,
        linear_damping: BITS_HUNDREDTH,
        angular_damping: BITS_HUNDREDTH,
    }
}

/// Material properties copied into the engine at collider-creation time.
/// Each field is the IEEE 754 bit pattern of the scalar handed to the
/// engine; the crate only selects and carries these values, never computes
/// with them.
#[derive(Clone, Copy, Debug, PartialEq, Eq, Structural)]
pub struct PhysicsProperities {
    pub friction: u32,
    pub restitution: u32,
    pub density: u32,
    pub linear_damping: u32,
    pub angular_damping: u32,
}

impl PhysicsProperities {
    pub fn new(
        friction: u32,
        restitution: u32,
        density: u32,
        linear_damping: u32,
        angular_damping: u32,
    ) -> (r: PhysicsProperities)
        ensures
            r == (PhysicsProperities {
                friction,
                restitution,
                density,
                linear_damping,
                angular_damping,
            }),
    {
        PhysicsProperities { friction, restitution, density, linear_damping, angular_damping }
    }

    /// The elastic preset for free bodies: no friction, full restitution,
    /// low damping.
    pub fn bounce() -> (r: PhysicsProperities)
        ensures
            r == bounce_props(),
    {
        PhysicsProperities {
            friction: 0,
            restitution: BITS_ONE,
            density: BITS_ONE,
            linear_damping: BITS_TENTH,
            angular_damping: BITS_TENTH,
        }
    }

    /// The preset for attached sub-parts that must not drag their parent:
    /// near-zero friction and damping, full restitution, low density.
    pub fn free() -> (r: PhysicsProperities)
        ensures
            r == free_props(),
    {
        PhysicsProperities {
            friction: 0,
            restitution: BITS_ONE,
            density: BITS_TENTH,
            linear_damping: BITS_HUNDREDTH,
            angular_damping: BITS_HUNDREDTH,
        }
    }
}

impl Default for PhysicsProperities {
    /// The moderate default preset.
    fn default() -> (r: PhysicsProperities)
        ensures
            r == default_props(),
    {
        PhysicsProperities {
            friction: BITS_HALF,
            restitution: BITS_HALF,
            density: BITS_HALF,
            linear_damping: BITS_TENTH,
            angular_damping: BITS_NINE_TENTHS,
        }
    }
}

/// A read-only snapshot of one body's state: cached position in
/// milli-units, rotation (already offset by the half-turn convention), and
/// the engine's mass, kinetic energy and net user force as bit patterns.
#[derive(Clone, Copy, Debug, PartialEq)]
pub struct PhysicsData {
    pub position: Vec2Fx,
    pub rotation: RotBits,
    pub mass: u32,
    pub kin_eng: Option<u32>,
    pub force: Option<(u32, u32)>,
}

/// The defined default snapshot for a stale or unknown handle: parked at
/// world center, identity rotation, zero mass and energy, no force.
pub open spec fn default_snapshot() -> PhysicsData {
    PhysicsData {
        position: Vec2Fx { x: (WORLD_W / 2) as i64, y: (WORLD_H / 2) as i64 },
        rotation: spec_rot_identity(),
        mass: 0,
        kin_eng: Some(0u32),
        force: None,
    }
}

/// Everything the model tracks of one body except its velocity, unchanged
/// between two worlds.
pub open spec fn body_kept(pre: Physics, post: Physics, h: BodyHandle) -> bool {
    &&& post.pos_of(h) == pre.pos_of(h)
    &&& post.rot_of(h) == pre.rot_of(h)
    &&& post.ball_radius_of(h) == pre.ball_radius_of(h)
    &&& post.colliders_of(h) == pre.colliders_of(h)
    &&& post.is_fixed(h) == pre.is_fixed(h)
    &&& post.damping_of(h) == pre.damping_of(h)
    &&& post.tag_of(h) == pre.tag_of(h)
}

/// The record `add_collider` appends for a shape: the engine primitive the
/// dispatch selects (the fallback ball for a polygon the hull builder
/// refuses), its local placement, and the material bit patterns copied from
/// the properties. A hull is recorded as the vertex ring handed to the
/// builder, placed at the body origin as the builder demands.
pub open spec fn attached_rec(
    shape: Shape,
    rel_position: Vec2Fx,
    rel_rotation: RotBits,
    props: PhysicsProperities,
) -> engine::ColliderRec {
    match shape {
        Shape::Circle { radius } => engine::ColliderRec {
            shape: engine::ColliderShapeRec::Ball { radius: radius as int },
            rel_x: rel_position.x as int,
            rel_y: rel_position.y as int,
            rel_rot: rel_rotation,
            friction: props.friction,
            restitution: props.restitution,
            density: props.density,
        },
        Shape::Rectangle { half_x, half_y } => engine::ColliderRec {
            shape: engine::ColliderShapeRec::Box {
                half_x: half_x as int,
                half_y: half_y as int,
            },
            rel_x: rel_position.x as int,
            rel_y: rel_position.y as int,
            rel_rot: rel_rotation,
            friction: props.friction,
            restitution: props.restitution,
            density: props.density,
        },
        Shape::ConvexPolygon { vertices } => if engine::hull_ok(vertices@) {
            engine::ColliderRec {
                shape: engine::ColliderShapeRec::Hull { points: vertices@ },
                rel_x: 0,
                rel_y: 0,
                rel_rot: crate::fx::spec_rot_identity(),
                friction: props.friction,
                restitution: props.restitution,
                density: props.density,
            }
        } else {
            engine::ColliderRec {
                shape: engine::ColliderShapeRec::Ball { radius: FALLBACK_RADIUS as int },
                rel_x: rel_position.x as int,
                rel_y: rel_position.y as int,
                rel_rot: rel_rotation,
                friction: props.friction,
                restitution: props.restitution,
                density: props.density,
            }
        },
    }
}

/// The full effect of applying an impulse at a world-space point to one
/// handle: for a live handle only that body's velocity changes — to the
/// named linear and angular response — while every pose, collider and kind
/// survives; a stale handle changes nothing at all.
pub open spec fn impulse_applied(
    pre: Physics,
    post: Physics,
    h: BodyHandle,
    imp_x: int,
    imp_y: int,
    at_x: int,
    at_y: int,
) -> bool {
    if pre.live().contains(h) {
        &&& post.live() == pre.live()
        &&& post.vel_of(h) == pre.vel_after_at(h, imp_x, imp_y, at_x, at_y)
        &&& forall|h2: BodyHandle| #[trigger]
            pre.live().contains(h2) ==> body_kept(pre, post, h2)
        &&& forall|h2: BodyHandle|
            h2 != h && #[trigger] pre.live().contains(h2) ==> post.vel_of(h2) == pre.vel_of(h2)
    } else {
        post == pre
    }
}

/// The scatter impulse delivered at the end of a dynamic spawn: the new
/// body's velocity is the named response of the world `mid` — the world
/// right before the impulse, where the body already sits at its spawn
/// position with its one collider — to a centered impulse of the fixed
/// world speed constant along the scatter direction, in engine units.
pub open spec fn scatter_applied(mid: Physics, post: Physics, h: BodyHandle, scatter: Vec2Fx) -> bool {
    post.vel_of(h) == mid.vel_after_center(
        h,
        scatter.x * (SPEED * (ENGINE_IMPULSE_UNIT / SCALE)),
        scatter.y * (SPEED * (ENGINE_IMPULSE_UNIT / SCALE)),
    )
}

/// The physics world. It owns the authoritative rigid-body and collider
/// storage; entities hold only weak handles into it.
pub struct Physics {
    engine: EngineState,
}

impl Physics {
    /// The set of handles that currently resolve to a live body.
    pub closed spec fn live(self) -> Set<BodyHandle> {
        engine::live_bodies(self.engine)
    }

    /// A live body's position in truncated milli-units.
    pub closed spec fn pos_of(self, h: BodyHandle) -> (int, int) {
        engine::engine_pos(self.engine, h)
    }

    /// A live body's raw (un-offset) rotation bit patterns.
    pub closed spec fn rot_of(self, h: BodyHandle) -> RotBits {
        engine::engine_rot(self.engine, h)
    }

    /// The ball radius of a live body's first collider, if any.
    pub closed spec fn ball_radius_of(self, h: BodyHandle) -> Option<int> {
        engine::engine_ball_radius(self.engine, h)
    }

    /// The colliders attached to a live body, in attachment order: the
    /// geometry each was built from, its local placement, and its material
    /// bit patterns.
    pub closed spec fn colliders_of(self, h: BodyHandle) -> Seq<engine::ColliderRec> {
        engine::engine_colliders(self.engine, h)
    }

    /// A live body's linear and angular damping bit patterns.
    pub closed spec fn damping_of(self, h: BodyHandle) -> (u32, u32) {
        engine::engine_damping(self.engine, h)
    }

    /// A live body's user tag.
    pub closed spec fn tag_of(self, h: BodyHandle) -> u128 {
        engine::engine_tag(self.engine, h)
    }

    /// The velocity a body is left with by a centered impulse given in
    /// engine units.
    pub closed spec fn vel_after_center(self, h: BodyHandle, imp_x: int, imp_y: int) -> (
        u32,
        u32,
        u32,
    ) {
        engine::vel_after_impulse(self.engine, h, imp_x, imp_y)
    }

    /// Whether a live body is fixed: immovable, never integrated by a step.
    pub closed spec fn is_fixed(self, h: BodyHandle) -> bool {
        engine::engine_fixed(self.engine, h)
    }

    /// A live body's linear and angular velocity bit patterns.
    pub closed spec fn vel_of(self, h: BodyHandle) -> (u32, u32, u32) {
        engine::engine_vel(self.engine, h)
    }

    /// A live body's mass, kinetic energy and net user force bit patterns.
    pub closed spec fn extras_of(self, h: BodyHandle) -> (u32, u32, (u32, u32)) {
        engine::engine_extras(self.engine, h)
    }

    /// The velocity a body is left with by an impulse of `(imp_x, imp_y)`
    /// milli-units of world impulse applied at the world point
    /// `(at_x, at_y)`.
    pub closed spec fn vel_after_at(
        self,
        h: BodyHandle,
        imp_x: int,
        imp_y: int,
        at_x: int,
        at_y: int,
    ) -> (u32, u32, u32) {
        engine::vel_after_impulse_at(
            self.engine,
            h,
            imp_x * (ENGINE_IMPULSE_UNIT / SCALE),
            imp_y * (ENGINE_IMPULSE_UNIT / SCALE),
            at_x,
            at_y,
        )
    }

    pub fn new() -> (r: Physics)
        ensures
            r.live() == Set::<BodyHandle>::empty(),
            r.live().finite(),
    {
        Physics { engine: engine::engine_new() }
    }

    /// Inserts a moving body with the given damping factors and user tag,
    /// and no collider yet.
    pub fn add_dynamic_rigidbody(
        &mut self,
        key: u64,
        position: Vec2Fx,
        linear_damping: u32,
        angular_damping: u32,
    ) -> (h: BodyHandle)
        requires
            position.within(COORD_MAX),
        ensures
            !old(self).live().contains(h),
            final(self).live() == old(self).live().insert(h),
            final(self).pos_of(h) == (position.x as int, position.y as int),
            final(self).rot_of(h) == spec_rot_identity(),
            final(self).ball_radius_of(h) is None,
            final(self).colliders_of(h) == Seq::<engine::ColliderRec>::empty(),
            !final(self).is_fixed(h),
            final(self).vel_of(h) == (0u32, 0u32, 0u32),
            final(self).damping_of(h) == (linear_damping, angular_damping),
            final(self).tag_of(h) == key as u128,
            forall|h2: BodyHandle| #[trigger]
                old(self).live().contains(h2) ==> body_kept(*old(self), *final(self), h2) && final(self).vel_of(h2) == old(self).vel_of(h2) && final(self).extras_of(h2) == old(self).extras_of(h2),
    {
        engine::insert_dynamic_body(
            &mut self.engine,
            key,
            position.x,
            position.y,
            linear_damping,
            angular_damping,
        )
    }

    /// Inserts an immovable body with no collider yet.
    pub fn add_static_rigidbody(&mut self, position: Vec2Fx) -> (h: BodyHandle)
        requires
            position.within(COORD_MAX),
        ensures
            !old(self).live().contains(h),
            final(self).live() == old(self).live().insert(h),
            final(self).pos_of(h) == (position.x as int, position.y as int),
            final(self).rot_of(h) == spec_rot_identity(),
            final(self).ball_radius_of(h) is None,
            final(self).colliders_of(h) == Seq::<engine::ColliderRec>::empty(),
            final(self).is_fixed(h),
            final(self).vel_of(h) == (0u32, 0u32, 0u32),
            final(self).damping_of(h) == (0u32, 0u32),
            final(self).tag_of(h) == 0u128,
            forall|h2: BodyHandle| #[trigger]
                old(self).live().contains(h2) ==> body_kept(*old(self), *final(self), h2) && final(self).vel_of(h2) == old(self).vel_of(h2) && final(self).extras_of(h2) == old(self).extras_of(h2),
    {
        engine::insert_fixed_body(&mut self.engine, position.x, position.y)
    }

    /// Attaches a collider to an existing body at a local offset,
    /// dispatching on the shape's tag to the corresponding engine primitive.
    /// A degenerate polygon the engine refuses falls back to the default
    /// small circle instead of failing.
    pub fn add_collider(
        &mut self,
        body_handle: BodyHandle,
        rel_position: Vec2Fx,
        rel_rotation: RotBits,
        shape: &Shape,
        physics_props: PhysicsProperities,
    ) -> (c: ColHandle)
        requires
            old(self).live().contains(body_handle),
            rel_position.within(COORD_MAX),
            shape.wf(),
        ensures
            final(self).live() == old(self).live(),
            final(self).colliders_of(body_handle) == old(self).colliders_of(body_handle).push(
                attached_rec(*shape, rel_position, rel_rotation, physics_props),
            ),
            final(self).colliders_of(body_handle).len() == old(self).colliders_of(
                body_handle,
            ).len() + 1,
            old(self).colliders_of(body_handle).len() != 0 ==> final(self).ball_radius_of(
                body_handle,
            ) == old(self).ball_radius_of(body_handle),
            shape matches Shape::Circle { radius } ==> (old(self).colliders_of(body_handle).len()
                == 0 ==> final(self).ball_radius_of(body_handle) == Some(radius as int)),
            forall|h2: BodyHandle| #[trigger]
                old(self).live().contains(h2) ==> final(self).pos_of(h2) == old(self).pos_of(h2)
                    && final(self).rot_of(h2) == old(self).rot_of(h2) && final(self).is_fixed(h2)
                    == old(self).is_fixed(h2) && final(self).vel_of(h2) == old(self).vel_of(h2)
                    && final(self).damping_of(h2) == old(self).damping_of(h2) && final(self).tag_of(
                    h2,
                ) == old(self).tag_of(h2),
            forall|h2: BodyHandle|
                h2 != body_handle && #[trigger] old(self).live().contains(h2) ==> body_kept(
                    *old(self),
                    *final(self),
                    h2,
                ) && final(self).vel_of(h2) == old(self).vel_of(h2) && final(self).extras_of(h2)
                    == old(self).extras_of(h2),
    {
        match shape {
            Shape::Circle { radius } => engine::attach_ball(
                &mut self.engine,
                body_handle,
                rel_position.x,
                rel_position.y,
                rel_rotation,
                *radius,
                physics_props.friction,
                physics_props.restitution,
                physics_props.density,
            ),
            Shape::Rectangle { half_x, half_y } => engine::attach_cuboid(
                &mut self.engine,
                body_handle,
                rel_position.x,
                rel_position.y,
                rel_rotation,
                *half_x,
                *half_y,
                physics_props.friction,
                physics_props.restitution,
                physics_props.density,
            ),
            Shape::ConvexPolygon { vertices } => {
                let attached = engine::attach_convex_hull(
                    &mut self.engine,
                    body_handle,
                    vertices,
                    physics_props.friction,
                    physics_props.restitution,
                    physics_props.density,
                );
                match attached {
                    Some(c) => c,
                    None => {
                        proof {
                            assert(self.live().contains(body_handle));
                        }
                        engine::attach_ball(
                            &mut self.engine,
                            body_handle,
                            rel_position.x,
                            rel_position.y,
                            rel_rotation,
                            FALLBACK_RADIUS,
                            physics_props.friction,
                            physics_props.restitution,
                            physics_props.density,
                        )
                    },
                }
            },
        }
    }

    /// Inserts a moving body, attaches exactly one collider built from the
    /// shape and properties, and applies one initial scatter impulse in the
    /// given direction scaled by the fixed world speed constant.
    pub fn add_dynamic(
        &mut self,
        key: u64,
        position: Vec2Fx,
        shape: &Shape,
        physics_props: PhysicsProperities,
        scatter: Vec2Fx,
    ) -> (h: BodyHandle)
        requires
            position.within(COORD_MAX),
            shape.wf(),
            scatter.x * scatter.x + scatter.y * scatter.y <= SCALE * SCALE,
        ensures
            !old(self).live().contains(h),
            final(self).live() == old(self).live().insert(h),
            final(self).pos_of(h) == (position.x as int, position.y as int),
            final(self).rot_of(h) == spec_rot_identity(),
            !final(self).is_fixed(h),
            final(self).colliders_of(h) == seq![
                attached_rec(*shape, Vec2Fx { x: 0, y: 0 }, spec_rot_identity(), physics_props),
            ],
            final(self).damping_of(h) == (physics_props.linear_damping,
            physics_props.angular_damping),
            final(self).tag_of(h) == key as u128,
            exists|mid: Physics|
                #[trigger] scatter_applied(mid, *final(self), h, scatter) && mid.live() == final(self).live() && mid.pos_of(h) == (position.x as int, position.y as int),
            shape matches Shape::Circle { radius } ==> final(self).ball_radius_of(h) == Some(
                radius as int,
            ),
            forall|h2: BodyHandle| #[trigger]
                old(self).live().contains(h2) ==> body_kept(*old(self), *final(self), h2)
                    && final(self).vel_of(h2) == old(self).vel_of(h2) && final(self).extras_of(h2)
                    == old(self).extras_of(h2),
    {
        proof {
            lemma_norm_component_bound(scatter);
        }
        let h = self.add_dynamic_rigidbody(
            key,
            position,
            physics_props.linear_damping,
            physics_props.angular_damping,
        );
        let ghost s1 = *self;
        proof {
            assert(self.live().contains(h));
        }
        let _c = self.add_collider(h, Vec2Fx::zero(), crate::fx::rot_identity(), shape, physics_props);
        let ghost s2 = *self;
        proof {
            assert(self.live().contains(h));
        }
        let scatter_unit: i64 = SPEED * (ENGINE_IMPULSE_UNIT / SCALE);
        engine::apply_impulse(&mut self.engine, h, scatter.x * scatter_unit, scatter.y
            * scatter_unit);
        proof {
            assert forall|h2: BodyHandle| old(self).live().contains(h2) implies body_kept(
                *old(self),
                *self,
                h2,
            ) && self.vel_of(h2) == old(self).vel_of(h2) && self.extras_of(h2) == old(self).extras_of(h2) by {
                assert(s1.live().contains(h2));
                assert(s2.live().contains(h2));
            }
            assert(scatter_applied(s2, *self, h, scatter));
        }
        h
    }

    /// Inserts an immovable body and attaches exactly one collider built
    /// from the shape and properties; no initial impulse.
    pub fn add_static(
        &mut self,
        key: u64,
        position: Vec2Fx,
        shape: &Shape,
        physics_props: PhysicsProperities,
    ) -> (h: BodyHandle)
        requires
            position.within(COORD_MAX),
            shape.wf(),
        ensures
            !old(self).live().contains(h),
            final(self).live() == old(self).live().insert(h),
            final(self).pos_of(h) == (position.x as int, position.y as int),
            final(self).rot_of(h) == spec_rot_identity(),
            final(self).is_fixed(h),
            final(self).colliders_of(h) == seq![
                attached_rec(*shape, Vec2Fx { x: 0, y: 0 }, spec_rot_identity(), physics_props),
            ],
            final(self).damping_of(h) == (0u32, 0u32),
            final(self).tag_of(h) == 0u128,
            shape matches Shape::Circle { radius } ==> final(self).ball_radius_of(h) == Some(
                radius as int,
            ),
            forall|h2: BodyHandle| #[trigger]
                old(self).live().contains(h2) ==> body_kept(*old(self), *final(self), h2)
                    && final(self).vel_of(h2) == old(self).vel_of(h2) && final(self).extras_of(h2)
                    == old(self).extras_of(h2),
    {
        let _ = key;
        let h = self.add_static_rigidbody(position);
        let ghost s1 = *self;
        proof {
            assert(self.live().contains(h));
        }
        let _c = self.add_collider(h, Vec2Fx::zero(), crate::fx::rot_identity(), shape, physics_props);
        proof {
            assert forall|h2: BodyHandle| old(self).live().contains(h2) implies body_kept(
                *old(self),
                *self,
                h2,
            ) && self.vel_of(h2) == old(self).vel_of(h2) && self.extras_of(h2) == old(self).extras_of(h2) by {
                assert(s1.live().contains(h2));
            }
        }
        h
    }

    /// Inserts the fixed ground slab: an immovable wide box near the lower
    /// world edge.
    pub fn add_ground(&mut self) -> (h: BodyHandle)
        ensures
            !old(self).live().contains(h),
            final(self).live() == old(self).live().insert(h),
            final(self).pos_of(h) == ((WORLD_W / 2) as int, 30_000int),
            final(self).is_fixed(h),
            forall|h2: BodyHandle| #[trigger]
                old(self).live().contains(h2) ==> body_kept(*old(self), *final(self), h2),
    {
        let shape = Shape::rectangle(WORLD_W / 2, 10_000);
        self.add_static(0, Vec2Fx::new(WORLD_W / 2, 30_000), &shape, PhysicsProperities::bounce())
    }

    /// Advances the whole world by one fixed timestep. The set of live
    /// bodies, their colliders and their kinds are unchanged; dynamic poses
    /// move, while a fixed body keeps its pose across any number of steps.
    pub fn step_physics(&mut self)
        ensures
            final(self).live() == old(self).live(),
            forall|h2: BodyHandle| #[trigger]
                old(self).live().contains(h2) ==> final(self).ball_radius_of(h2) == old(self).ball_radius_of(h2) && final(self).colliders_of(h2) == old(self).colliders_of(h2)
                    && final(self).is_fixed(h2) == old(self).is_fixed(h2) && final(self).damping_of(
                    h2,
                ) == old(self).damping_of(h2) && final(self).tag_of(h2) == old(self).tag_of(h2),
            forall|h2: BodyHandle|
                #[trigger] old(self).live().contains(h2) && old(self).is_fixed(h2) ==> final(self).pos_of(h2) == old(self).pos_of(h2) && final(self).rot_of(h2) == old(self).rot_of(
                    h2,
                ),
    {
        engine::step_world(&mut self.engine);
    }

    /// Removes a body, cascading through its colliders and any joints
    /// referencing it. A stale handle removes nothing.
    pub fn remove_physics_object(&mut self, body_handle: BodyHandle)
        ensures
            final(self).live() == old(self).live().remove(body_handle),
            forall|h2: BodyHandle|
                h2 != body_handle && #[trigger] old(self).live().contains(h2) ==> body_kept(
                    *old(self),
                    *final(self),
                    h2,
                ) && final(self).vel_of(h2) == old(self).vel_of(h2) && final(self).extras_of(h2)
                    == old(self).extras_of(h2),
    {
        engine::remove_body(&mut self.engine, body_handle);
    }

    /// The number of live bodies.
    pub fn get_physics_obj_num(&self) -> (r: usize)
        ensures
            r == self.live().len(),
    {
        engine::body_count(&self.engine)
    }

    /// Whether the handle currently resolves to a live body.
    pub fn contains(&self, h: BodyHandle) -> (r: bool)
        ensures
            r == self.live().contains(h),
    {
        engine::contains_body(&self.engine, h)
    }

    /// The ball radius of a body's first collider, or nothing for a stale
    /// handle or a non-ball first collider.
    pub fn get_collider_size(&self, rb_handle: BodyHandle) -> (r: Option<i64>)
        ensures
            r is Some ==> self.live().contains(rb_handle),
            r matches Some(v) ==> self.ball_radius_of(rb_handle) == Some(v as int),
            r is None ==> !self.live().contains(rb_handle) || self.ball_radius_of(rb_handle)
                is None,
    {
        engine::query_ball_radius(&self.engine, rb_handle)
    }

    /// A read-only snapshot for the handle. A stale or unknown handle gets
    /// the defined default snapshot — parked at world center — never an
    /// error and never a stale value. The exposed rotation is the engine's
    /// rotation offset by a half turn, the fixed orientation convention.
    pub fn get_physics_data(&self, handle: BodyHandle) -> (d: PhysicsData)
        ensures
            self.live().contains(handle) ==> (d.position.x as int, d.position.y as int)
                == self.pos_of(handle) && d.rotation == spec_half_turn(self.rot_of(handle))
                && d.mass == self.extras_of(handle).0 && d.kin_eng == Some(
                self.extras_of(handle).1,
            ) && d.force == Some(self.extras_of(handle).2),
            !self.live().contains(handle) ==> d == default_snapshot(),
            engine::rot_sane(d.rotation),
    {
        match engine::query_pose(&self.engine, handle) {
            Some(p) => {
                proof {
                    lemma_half_turn_sane(p.rot);
                }
                PhysicsData {
                    position: Vec2Fx { x: p.x, y: p.y },
                    rotation: crate::fx::half_turn(p.rot),
                    mass: p.mass,
                    kin_eng: Some(p.kin_eng),
                    force: Some((p.force_x, p.force_y)),
                }
            },
            None => {
                proof {
                    assert(engine::rot_sane(spec_rot_identity())) by (bit_vector);
                }
                PhysicsData {
                    position: Vec2Fx { x: WORLD_W / 2, y: WORLD_H / 2 },
                    rotation: crate::fx::rot_identity(),
                    mass: 0,
                    kin_eng: Some(0),
                    force: None,
                }
            },
        }
    }

    /// Applies an instantaneous impulse (in milli-units of world impulse) at
    /// a world-space point, producing both linear and angular response. A
    /// stale handle is absorbed as a no-op: a dangling reference must not
    /// crash a frame.
    pub fn apply_impulse_at_point(
        &mut self,
        body_handle: BodyHandle,
        impulse: Vec2Fx,
        world_point: (i128, i128),
    )
        requires
            impulse.within(IMPULSE_ARG_MAX),
        ensures
            final(self).live() == old(self).live(),
            impulse_applied(
                *old(self),
                *final(self),
                body_handle,
                impulse.x as int,
                impulse.y as int,
                world_point.0 as int,
                world_point.1 as int,
            ),
            forall|h2: BodyHandle| #[trigger]
                old(self).live().contains(h2) ==> body_kept(*old(self), *final(self), h2),
    {
        if engine::contains_body(&self.engine, body_handle) {
            let milli_unit: i64 = ENGINE_IMPULSE_UNIT / SCALE;
            engine::apply_impulse_at_point(
                &mut self.engine,
                body_handle,
                impulse.x * milli_unit,
                impulse.y * milli_unit,
                world_point.0,
                world_point.1,
            );
        }
    }
}

/// A vector whose squared length is at most one squared unit has each
/// component within one unit of zero.
pub proof fn lemma_norm_component_bound(v: Vec2Fx)
    requires
        v.x * v.x + v.y * v.y <= SCALE * SCALE,
    ensures
        v.within(SCALE),
{
    assert(-1000 <= v.x as int <= 1000 && -1000 <= v.y as int <= 1000) by (nonlinear_arith)
        requires
            (v.x as int) * (v.x as int) + (v.y as int) * (v.y as int) <= 1_000_000,
    ;
}

/// The identity rotation's bit patterns are within the sanity bound.
pub proof fn lemma_identity_sane()
    ensures
        engine::rot_sane(spec_rot_identity()),
{
    assert((BITS_ONE & 0x7FFF_FFFF) <= 0x4000_0000) by (bit_vector);
    assert((0u32 & 0x7FFF_FFFF) <= 0x4000_0000) by (bit_vector);
}

/// Flipping both sign bits leaves each pattern's magnitude bits unchanged,
/// so the half-turn offset preserves the sanity bound on rotations.
pub proof fn lemma_half_turn_sane(r: RotBits)
    requires
        engine::rot_sane(r),
    ensures
        engine::rot_sane(spec_half_turn(r)),
{
    let re = r.re;
    let im = r.im;
    assert(((re ^ SIGN_BIT) & 0x7FFF_FFFF) == (re & 0x7FFF_FFFF)) by (bit_vector);
    assert(((im ^ SIGN_BIT) & 0x7FFF_FFFF) == (im & 0x7FFF_FFFF)) by (bit_vector);
}

} // verus!
