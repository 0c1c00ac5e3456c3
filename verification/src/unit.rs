//! Entities: logical simulation objects with stable identity, cached pose,
//! and one or more (shape, physics-handle) pairs.

use vstd::prelude::*;
use vstd::assert_sets_equal;

use crate::consts::{COORD_MAX, SCALE, SIZE_MAX, SIZE_MIN};
use crate::engine::BodyHandle;
use crate::engine::ColHandle;
use crate::fx::{spec_half_turn, spec_rot_identity, RotBits, Vec2Fx};
use crate::physics::{attached_rec, bounce_props, default_props, default_snapshot, free_props, Physics, PhysicsProperities};
use crate::shape::{Hue, Shape, FALLBACK_RADIUS};

verus! {

/// One sub-shape of a composite construction plan: a circle size and a
/// body-local offset from the entity's base position, in milli-units.
pub struct PartDef {
    pub shape_size: i64,
    pub relative_position: Vec2Fx,
}

impl PartDef {
    pub open spec fn wf(self) -> bool {
        1 <= self.shape_size <= COORD_MAX && self.relative_position.within(COORD_MAX)
    }
}

/// An ordered list of part definitions for a composite entity.
pub struct PartsScheme {
    pub parts: Vec<PartDef>,
}

/// A visual/collision sub-shape attached to an entity at a local offset. It
/// holds a weak reference to the collider created for it, set once at
/// attachment time; the part never owns or destroys the collider.
pub struct BodyPart {
    pub rel_pos: Vec2Fx,
    pub color: Hue,
    pub shape: Shape,
    pub handle: Option<ColHandle>,
}

impl BodyPart {
    pub fn add_new(relative_position: Vec2Fx, size: i64, color: Hue) -> (p: BodyPart)
        requires
            1 <= size <= COORD_MAX,
        ensures
            p.rel_pos == relative_position,
            p.color == color,
            p.shape == (Shape::Circle { radius: size }),
            p.handle is None,
    {
        BodyPart { color, rel_pos: relative_position, shape: Shape::Circle { radius: size }, handle: None }
    }

    pub fn get_rel_position(&self) -> (r: Vec2Fx)
        ensures
            r == self.rel_pos,
    {
        self.rel_pos
    }

    pub fn get_color(&self) -> (r: Hue)
        ensures
            r == self.color,
    {
        self.color
    }

    pub fn get_shape(&self) -> (r: &Shape)
        ensures
            r == self.shape,
    {
        &self.shape
    }

    pub fn set_collider_handle(&mut self, collider_handle: ColHandle)
        ensures
            final(self).handle == Some(collider_handle),
            final(self).rel_pos == old(self).rel_pos,
            final(self).color == old(self).color,
            final(self).shape == old(self).shape,
    {
        self.handle = Some(collider_handle);
    }

    pub fn get_collider_handler(&self) -> (r: Option<ColHandle>)
        ensures
            r == self.handle,
    {
        self.handle
    }
}

/// One entry of the per-part snapshot list rebuilt by the update pass: a
/// collider radius (or the fixed fallback value), a world position and a
/// world rotation.
#[derive(Clone, Copy, Debug, PartialEq)]
pub struct SnapPart {
    pub radius: i64,
    pub pos: Vec2Fx,
    pub rot: RotBits,
}

/// What one snapshot entry must hold for a handle: the live body's pose
/// (rotation offset by the half-turn convention), or the defined default
/// for a stale handle.
pub open spec fn snap_pose_ok(ph: Physics, h: BodyHandle, s: SnapPart) -> bool {
    &&& ph.live().contains(h) ==> (s.pos.x as int, s.pos.y as int) == ph.pos_of(h) && s.rot
        == spec_half_turn(ph.rot_of(h))
    &&& !ph.live().contains(h) ==> s.pos == default_snapshot().position && s.rot
        == default_snapshot().rotation
}

/// What the snapshot radius must hold for a handle: the ball radius of the
/// body's first collider where the engine reports one, else the fixed
/// fallback value.
pub open spec fn snap_radius_ok(ph: Physics, h: BodyHandle, r: i64) -> bool {
    if ph.live().contains(h) && ph.ball_radius_of(h) is Some {
        ph.ball_radius_of(h) == Some(r as int)
    } else {
        r == FALLBACK_RADIUS
    }
}


/// What one cached pose must hold for a handle: the live body's pose with
/// the half-turn rotation convention applied, or the defined default for a
/// stale handle — never an error and never a stale value.
pub open spec fn cached_pose_ok(ph: Physics, h: BodyHandle, pos: Vec2Fx, rot: RotBits) -> bool {
    &&& ph.live().contains(h) ==> (pos.x as int, pos.y as int) == ph.pos_of(h) && rot
        == spec_half_turn(ph.rot_of(h))
    &&& !ph.live().contains(h) ==> pos == default_snapshot().position && rot
        == default_snapshot().rotation
}

/// The full effect of one per-frame update pass on an entity, dispatching
/// on the primary shape's tag. Identity, size, color, shapes, handles and
/// body parts never change; for a circular primary shape the cached pose is
/// pulled from the primary handle and the per-part snapshot list is rebuilt
/// over all handles; for a polygon the snapshot list is rebuilt with the
/// fixed fallback radius and the cached position is pulled from the first
/// handle, the entity's authoritative driver part; a rectangle changes
/// nothing.
pub open spec fn unit_updated(pre: Unit, post: Unit, ph: Physics) -> bool {
    &&& post.key == pre.key
    &&& post.size == pre.size
    &&& post.color == pre.color
    &&& post.shapes == pre.shapes
    &&& post.physics_handles == pre.physics_handles
    &&& post.body_parts == pre.body_parts
    &&& match pre.shapes[0] {
        Shape::Circle { .. } => {
            &&& post.data.len() == pre.physics_handles.len()
            &&& forall|i: int|
                0 <= i < post.data.len() ==> snap_pose_ok(
                    ph,
                    pre.physics_handles[i],
                    #[trigger] post.data[i],
                ) && snap_radius_ok(ph, pre.physics_handles[i], post.data[i].radius)
            &&& cached_pose_ok(ph, pre.physics_handles[0], post.pos, post.rot)
        },
        Shape::Rectangle { .. } => {
            &&& post.pos == pre.pos
            &&& post.rot == pre.rot
            &&& post.data == pre.data
        },
        Shape::ConvexPolygon { .. } => {
            &&& post.data.len() == pre.physics_handles.len()
            &&& forall|i: int|
                0 <= i < post.data.len() ==> snap_pose_ok(
                    ph,
                    pre.physics_handles[i],
                    #[trigger] post.data[i],
                ) && post.data[i].radius == FALLBACK_RADIUS
            &&& ph.live().contains(pre.physics_handles[0]) ==> (post.pos.x as int, post.pos.y as int)
                == ph.pos_of(pre.physics_handles[0])
            &&& !ph.live().contains(pre.physics_handles[0]) ==> post.pos
                == default_snapshot().position
            &&& post.rot == pre.rot
        },
    }
}

/// A logical simulation object: stable identity, cached world pose mirrored
/// from the physics world each frame, a nominal size, a color, parallel
/// lists of shapes and physics-body handles, a per-part snapshot list, and
/// attached body parts.
pub struct Unit {
    pub key: u64,
    pub pos: Vec2Fx,
    pub rot: RotBits,
    pub size: i64,
    pub color: Hue,
    pub shapes: Vec<Shape>,
    pub physics_handles: Vec<BodyHandle>,
    pub data: Vec<SnapPart>,
    pub body_parts: Vec<BodyPart>,
}

impl Unit {
    /// The structural invariant: the shape list and the handle list stay in
    /// one-to-one correspondence, there is at least one primary shape, and
    /// every shape is well-formed.
    pub open spec fn wf(self) -> bool {
        &&& self.shapes.len() == self.physics_handles.len()
        &&& self.shapes.len() >= 1
        &&& forall|i: int| 0 <= i < self.shapes.len() ==> (#[trigger] self.shapes[i]).wf()
        &&& 0 <= self.size <= COORD_MAX
    }

    /// A simple circular entity: one dynamic ball body with the default
    /// material preset, plus three smaller circular sub-parts spaced a third
    /// of a turn apart at a radius proportional to the entity's size, each
    /// using the free preset so they impose no extra drag. The caller
    /// supplies the sampled identity, size, position, color index and
    /// scatter direction.
    pub fn new(
        key: u64,
        size: i64,
        position: Vec2Fx,
        color_ix: u64,
        scatter: Vec2Fx,
        physics: &mut Physics,
    ) -> (u: Unit)
        requires
            SIZE_MIN <= size <= SIZE_MAX,
            position.within(COORD_MAX),
            scatter.x * scatter.x + scatter.y * scatter.y <= SCALE * SCALE,
        ensures
            u.wf(),
            u.key == key,
            u.pos == position,
            u.rot == spec_rot_identity(),
            u.size == size,
            u.color == crate::shape::spec_palette(color_ix),
            u.shapes.len() == 1,
            u.shapes[0] == (Shape::Circle { radius: size }),
            u.data.len() == 0,
            u.body_parts.len() == 3,
            u.body_parts[0].rel_pos == (Vec2Fx { x: size, y: 0 }),
            u.body_parts[1].rel_pos == (Vec2Fx {
                x: (-(size / 2)) as i64,
                y: (size * 866 / 1000) as i64,
            }),
            u.body_parts[2].rel_pos == (Vec2Fx {
                x: (-(size / 2)) as i64,
                y: (-(size * 866 / 1000)) as i64,
            }),
            forall|i: int|
                0 <= i < 3 ==> (#[trigger] u.body_parts[i]).shape == (Shape::Circle {
                    radius: (size / 3) as i64,
                }) && u.body_parts[i].color == u.color && u.body_parts[i].handle is Some,
            final(physics).live().contains(u.physics_handles[0]),
            final(physics).pos_of(u.physics_handles[0]) == (position.x as int, position.y as int),
            final(physics).rot_of(u.physics_handles[0]) == spec_rot_identity(),
            final(physics).ball_radius_of(u.physics_handles[0]) == Some(size as int),
            final(physics).colliders_of(u.physics_handles[0]) == seq![
                attached_rec(
                    Shape::Circle { radius: size },
                    Vec2Fx { x: 0, y: 0 },
                    spec_rot_identity(),
                    default_props(),
                ),
                attached_rec(
                    Shape::Circle { radius: (size / 3) as i64 },
                    Vec2Fx { x: size, y: 0 },
                    spec_rot_identity(),
                    free_props(),
                ),
                attached_rec(
                    Shape::Circle { radius: (size / 3) as i64 },
                    Vec2Fx { x: (-(size / 2)) as i64, y: (size * 866 / 1000) as i64 },
                    spec_rot_identity(),
                    free_props(),
                ),
                attached_rec(
                    Shape::Circle { radius: (size / 3) as i64 },
                    Vec2Fx { x: (-(size / 2)) as i64, y: (-(size * 866 / 1000)) as i64 },
                    spec_rot_identity(),
                    free_props(),
                ),
            ],
            final(physics).damping_of(u.physics_handles[0]) == (default_props().linear_damping,
            default_props().angular_damping),
            final(physics).tag_of(u.physics_handles[0]) == key as u128,
            !final(physics).is_fixed(u.physics_handles[0]),
            !old(physics).live().contains(u.physics_handles[0]),
            final(physics).live() == old(physics).live().insert(u.physics_handles[0]),
            forall|h2: BodyHandle| #[trigger]
                old(physics).live().contains(h2) ==> crate::physics::body_kept(
                    *old(physics),
                    *final(physics),
                    h2,
                ),
    {
        let shape = Shape::circle(size);
        let color = crate::shape::palette_color(color_ix);
        let rbh = physics.add_dynamic(key, position, &shape, PhysicsProperities::default(), scatter);
        let ghost s1 = *physics;
        proof {
            assert(physics.live().contains(rbh));
        }
        // Three sub-parts a third of a turn apart: (1, 0), (-1/2, 866/1000) and (-1/2, -866/1000)
        // scaled by the entity size, with sub-circles a third of the size.
        let sub_size = size / 3;
        let lobe = size * 866 / 1000;
        let off0 = Vec2Fx::new(size, 0);
        let off1 = Vec2Fx::new(-(size / 2), lobe);
        let off2 = Vec2Fx::new(-(size / 2), -lobe);
        let mut body_parts: Vec<BodyPart> = Vec::new();
        let mut p0 = BodyPart::add_new(off0, sub_size, color);
        let c0 = physics.add_collider(rbh, off0, crate::fx::rot_identity(), &Shape::circle(sub_size), PhysicsProperities::free());
        p0.set_collider_handle(c0);
        body_parts.push(p0);
        let ghost s2 = *physics;
        proof {
            assert(physics.live().contains(rbh));
        }
        let mut p1 = BodyPart::add_new(off1, sub_size, color);
        let c1 = physics.add_collider(rbh, off1, crate::fx::rot_identity(), &Shape::circle(sub_size), PhysicsProperities::free());
        p1.set_collider_handle(c1);
        body_parts.push(p1);
        let ghost s3 = *physics;
        proof {
            assert(physics.live().contains(rbh));
        }
        let mut p2 = BodyPart::add_new(off2, sub_size, color);
        let c2 = physics.add_collider(rbh, off2, crate::fx::rot_identity(), &Shape::circle(sub_size), PhysicsProperities::free());
        p2.set_collider_handle(c2);
        body_parts.push(p2);
        proof {
            assert forall|h2: BodyHandle| old(physics).live().contains(h2)
                implies crate::physics::body_kept(*old(physics), *physics, h2) by {
                assert(s1.live().contains(h2));
                assert(s2.live().contains(h2));
                assert(s3.live().contains(h2));
            }
            assert(s1.live().contains(rbh) && s2.live().contains(rbh) && s3.live().contains(rbh));
        }
        let mut shapes: Vec<Shape> = Vec::new();
        shapes.push(shape);
        let mut physics_handles: Vec<BodyHandle> = Vec::new();
        physics_handles.push(rbh);
        Unit {
            key,
            pos: position,
            rot: crate::fx::rot_identity(),
            size,
            color,
            shapes,
            physics_handles,
            data: Vec::new(),
            body_parts,
        }
    }

    /// A single dynamic circle with the bounce preset at an explicit
    /// position; no sub-parts.
    pub fn new_dyn_circle(
        size: i64,
        position: Vec2Fx,
        key: u64,
        color_ix: u64,
        scatter: Vec2Fx,
        physics: &mut Physics,
    ) -> (u: Unit)
        requires
            1 <= size <= COORD_MAX,
            position.within(COORD_MAX),
            scatter.x * scatter.x + scatter.y * scatter.y <= SCALE * SCALE,
        ensures
            u.wf(),
            u.key == key,
            u.pos == position,
            u.rot == spec_rot_identity(),
            u.size == size,
            u.color == crate::shape::spec_palette(color_ix),
            u.shapes.len() == 1,
            u.shapes[0] == (Shape::Circle { radius: size }),
            u.data.len() == 0,
            u.body_parts.len() == 0,
            final(physics).live().contains(u.physics_handles[0]),
            final(physics).pos_of(u.physics_handles[0]) == (position.x as int, position.y as int),
            final(physics).ball_radius_of(u.physics_handles[0]) == Some(size as int),
            final(physics).colliders_of(u.physics_handles[0]) == seq![
                attached_rec(
                    Shape::Circle { radius: size },
                    Vec2Fx { x: 0, y: 0 },
                    spec_rot_identity(),
                    bounce_props(),
                ),
            ],
            final(physics).damping_of(u.physics_handles[0]) == (bounce_props().linear_damping,
            bounce_props().angular_damping),
            final(physics).tag_of(u.physics_handles[0]) == key as u128,
            !final(physics).is_fixed(u.physics_handles[0]),
            final(physics).live() == old(physics).live().insert(u.physics_handles[0]),
            forall|h2: BodyHandle| #[trigger]
                old(physics).live().contains(h2) ==> crate::physics::body_kept(
                    *old(physics),
                    *final(physics),
                    h2,
                ),
    {
        let shape = Shape::circle(size);
        let rbh = physics.add_dynamic(key, position, &shape, PhysicsProperities::bounce(), scatter);
        let mut shapes: Vec<Shape> = Vec::new();
        shapes.push(shape);
        let mut physics_handles: Vec<BodyHandle> = Vec::new();
        physics_handles.push(rbh);
        Unit {
            key,
            pos: position,
            rot: crate::fx::rot_identity(),
            size,
            color: crate::shape::palette_color(color_ix),
            shapes,
            physics_handles,
            data: Vec::new(),
            body_parts: Vec::new(),
        }
    }

    /// A single immovable rectangle (half-extents) at an explicit position.
    pub fn new_static_rect(size: (i64, i64), position: Vec2Fx, key: u64, physics: &mut Physics) -> (u:
        Unit)
        requires
            1 <= size.0 <= COORD_MAX,
            1 <= size.1 <= COORD_MAX,
            position.within(COORD_MAX),
        ensures
            u.wf(),
            u.key == key,
            u.pos == position,
            u.rot == spec_rot_identity(),
            u.size == size.0,
            u.color == Hue::LightGray,
            u.shapes.len() == 1,
            u.shapes[0] == (Shape::Rectangle { half_x: size.0, half_y: size.1 }),
            u.data.len() == 0,
            final(physics).live().contains(u.physics_handles[0]),
            final(physics).pos_of(u.physics_handles[0]) == (position.x as int, position.y as int),
            final(physics).rot_of(u.physics_handles[0]) == spec_rot_identity(),
            final(physics).colliders_of(u.physics_handles[0]) == seq![
                attached_rec(
                    Shape::Rectangle { half_x: size.0, half_y: size.1 },
                    Vec2Fx { x: 0, y: 0 },
                    spec_rot_identity(),
                    bounce_props(),
                ),
            ],
            final(physics).is_fixed(u.physics_handles[0]),
            final(physics).live() == old(physics).live().insert(u.physics_handles[0]),
            forall|h2: BodyHandle| #[trigger]
                old(physics).live().contains(h2) ==> crate::physics::body_kept(
                    *old(physics),
                    *final(physics),
                    h2,
                ),
    {
        let shape = Shape::rectangle(size.0, size.1);
        let rbh = physics.add_static(key, position, &shape, PhysicsProperities::bounce());
        let mut shapes: Vec<Shape> = Vec::new();
        shapes.push(shape);
        let mut physics_handles: Vec<BodyHandle> = Vec::new();
        physics_handles.push(rbh);
        Unit {
            key,
            pos: position,
            rot: crate::fx::rot_identity(),
            size: size.0,
            color: Hue::LightGray,
            shapes,
            physics_handles,
            data: Vec::new(),
            body_parts: Vec::new(),
        }
    }

    /// A single dynamic convex polygon with the free preset. A malformed
    /// vertex ring falls back to the default circular shape rather than
    /// failing construction.
    pub fn new_dyn_poly(
        vertices: Vec<Vec2Fx>,
        position: Vec2Fx,
        key: u64,
        scatter: Vec2Fx,
        physics: &mut Physics,
    ) -> (u: Unit)
        requires
            position.within(COORD_MAX),
            scatter.x * scatter.x + scatter.y * scatter.y <= SCALE * SCALE,
        ensures
            u.wf(),
            u.key == key,
            u.pos == position,
            u.rot == spec_rot_identity(),
            u.size == FALLBACK_RADIUS,
            u.color == Hue::LightGray,
            u.shapes.len() == 1,
            crate::shape::polygon_viable(vertices@) ==> u.shapes[0] == (Shape::ConvexPolygon {
                vertices,
            }),
            !crate::shape::polygon_viable(vertices@) ==> u.shapes[0] == (Shape::Circle {
                radius: FALLBACK_RADIUS,
            }),
            u.data.len() == 0,
            final(physics).live().contains(u.physics_handles[0]),
            final(physics).pos_of(u.physics_handles[0]) == (position.x as int, position.y as int),
            final(physics).colliders_of(u.physics_handles[0]) == seq![
                attached_rec(u.shapes[0], Vec2Fx { x: 0, y: 0 }, spec_rot_identity(), free_props()),
            ],
            final(physics).damping_of(u.physics_handles[0]) == (free_props().linear_damping,
            free_props().angular_damping),
            final(physics).tag_of(u.physics_handles[0]) == key as u128,
            !final(physics).is_fixed(u.physics_handles[0]),
            final(physics).live() == old(physics).live().insert(u.physics_handles[0]),
            forall|h2: BodyHandle| #[trigger]
                old(physics).live().contains(h2) ==> crate::physics::body_kept(
                    *old(physics),
                    *final(physics),
                    h2,
                ),
    {
        let shape = Shape::polygon(vertices);
        let rbh = physics.add_dynamic(key, position, &shape, PhysicsProperities::free(), scatter);
        let mut shapes: Vec<Shape> = Vec::new();
        shapes.push(shape);
        let mut physics_handles: Vec<BodyHandle> = Vec::new();
        physics_handles.push(rbh);
        Unit {
            key,
            pos: position,
            rot: crate::fx::rot_identity(),
            size: FALLBACK_RADIUS,
            color: Hue::LightGray,
            shapes,
            physics_handles,
            data: Vec::new(),
            body_parts: Vec::new(),
        }
    }

    /// A composite entity: for every part of the scheme a separate dynamic
    /// ball body with the bounce preset is created at the part's offset from
    /// the base position, all sharing one identity and color but simulated
    /// independently.
    pub fn new_complex(
        parts: PartsScheme,
        base_position: Vec2Fx,
        key: u64,
        size: i64,
        color_ix: u64,
        scatter: Vec2Fx,
        physics: &mut Physics,
    ) -> (u: Unit)
        requires
            parts.parts.len() >= 1,
            forall|i: int| 0 <= i < parts.parts.len() ==> (#[trigger] parts.parts[i]).wf(),
            forall|i: int|
                0 <= i < parts.parts.len() ==> (-COORD_MAX <= (
                #[trigger] parts.parts[i]).relative_position.x + base_position.x <= COORD_MAX
                    && -COORD_MAX <= parts.parts[i].relative_position.y + base_position.y
                    <= COORD_MAX),
            base_position.within(COORD_MAX),
            SIZE_MIN <= size <= SIZE_MAX,
            scatter.x * scatter.x + scatter.y * scatter.y <= SCALE * SCALE,
        ensures
            u.wf(),
            u.key == key,
            u.pos == base_position,
            u.rot == spec_rot_identity(),
            u.size == size,
            u.color == crate::shape::spec_palette(color_ix),
            u.shapes.len() == parts.parts.len(),
            u.physics_handles.len() == parts.parts.len(),
            u.data.len() == 0,
            forall|i: int|
                0 <= i < parts.parts.len() ==> (#[trigger] u.shapes[i]) == (Shape::Circle {
                    radius: parts.parts[i].shape_size,
                }),
            forall|i: int|
                0 <= i < parts.parts.len() ==> final(physics).live().contains(
                    #[trigger] u.physics_handles[i],
                ) && final(physics).pos_of(u.physics_handles[i]) == (
                    parts.parts[i].relative_position.x + base_position.x,
                    parts.parts[i].relative_position.y + base_position.y,
                ) && final(physics).ball_radius_of(u.physics_handles[i]) == Some(
                    parts.parts[i].shape_size as int,
                ) && final(physics).colliders_of(u.physics_handles[i]) == seq![
                attached_rec(
                    Shape::Circle { radius: parts.parts[i].shape_size },
                    Vec2Fx { x: 0, y: 0 },
                    spec_rot_identity(),
                    bounce_props(),
                ),
            ] && final(physics).tag_of(u.physics_handles[i]) == key as u128 && final(physics).damping_of(u.physics_handles[i]) == (bounce_props().linear_damping,
                bounce_props().angular_damping) && !final(physics).is_fixed(u.physics_handles[i])
                    && !old(physics).live().contains(u.physics_handles[i]),
            forall|i: int, j: int|
                0 <= i < j < parts.parts.len() ==> u.physics_handles[i] != u.physics_handles[j],
            final(physics).live() == old(physics).live() + u.physics_handles@.to_set(),
            forall|h2: BodyHandle| #[trigger]
                old(physics).live().contains(h2) ==> final(physics).live().contains(h2)
                    && crate::physics::body_kept(*old(physics), *final(physics), h2),
    {
        let mut shapes: Vec<Shape> = Vec::new();
        let mut handles: Vec<BodyHandle> = Vec::new();
        let n = parts.parts.len();
        let mut i: usize = 0;
        while i < n
            invariant
                0 <= i <= n,
                n == parts.parts.len(),
                shapes.len() == i,
                handles.len() == i,
                forall|j: int| 0 <= j < n ==> (#[trigger] parts.parts[j]).wf(),
                forall|j: int|
                    0 <= j < n ==> (-COORD_MAX <= (
                    #[trigger] parts.parts[j]).relative_position.x + base_position.x <= COORD_MAX
                        && -COORD_MAX <= parts.parts[j].relative_position.y + base_position.y
                        <= COORD_MAX),
                scatter.x * scatter.x + scatter.y * scatter.y <= SCALE * SCALE,
                forall|j: int|
                    0 <= j < i ==> (#[trigger] shapes[j]) == (Shape::Circle {
                        radius: parts.parts[j].shape_size,
                    }),
                forall|j: int|
                    0 <= j < i ==> physics.live().contains(#[trigger] handles[j])
                        && physics.pos_of(handles[j]) == (
                        parts.parts[j].relative_position.x + base_position.x,
                        parts.parts[j].relative_position.y + base_position.y,
                    ) && physics.ball_radius_of(handles[j]) == Some(
                        parts.parts[j].shape_size as int,
                    ) && physics.colliders_of(handles[j]) == seq![
                        attached_rec(
                            Shape::Circle { radius: parts.parts[j].shape_size },
                            Vec2Fx { x: 0, y: 0 },
                            spec_rot_identity(),
                            bounce_props(),
                        ),
                    ] && physics.tag_of(handles[j]) == key as u128 && physics.damping_of(
                        handles[j],
                    ) == (bounce_props().linear_damping, bounce_props().angular_damping)
                        && !physics.is_fixed(handles[j]) && !old(physics).live().contains(
                        handles[j],
                    ),
                forall|j: int, k: int| 0 <= j < k < i ==> handles[j] != handles[k],
                physics.live() == old(physics).live() + handles@.to_set(),
                forall|h2: BodyHandle| #[trigger]
                    old(physics).live().contains(h2) ==> physics.live().contains(h2)
                        && crate::physics::body_kept(*old(physics), *physics, h2),
            decreases n - i,
        {
            let part = &parts.parts[i];
            let shape = Shape::circle(part.shape_size);
            let rel_pos = Vec2Fx::new(
                part.relative_position.x + base_position.x,
                part.relative_position.y + base_position.y,
            );
            let ghost pre = *physics;
            let rbh = physics.add_dynamic(key, rel_pos, &shape, PhysicsProperities::bounce(), scatter);
            proof {
                assert forall|j: int| 0 <= j < i implies physics.live().contains(
                    #[trigger] handles[j],
                ) && physics.pos_of(handles[j]) == (
                    parts.parts[j].relative_position.x + base_position.x,
                    parts.parts[j].relative_position.y + base_position.y,
                ) && physics.ball_radius_of(handles[j]) == Some(
                    parts.parts[j].shape_size as int,
                ) && physics.colliders_of(handles[j]) == seq![
                    attached_rec(
                        Shape::Circle { radius: parts.parts[j].shape_size },
                        Vec2Fx { x: 0, y: 0 },
                        spec_rot_identity(),
                        bounce_props(),
                    ),
                ] && physics.tag_of(handles[j]) == key as u128 && physics.damping_of(handles[j])
                    == (bounce_props().linear_damping, bounce_props().angular_damping)
                    && !physics.is_fixed(handles[j]) by {
                    assert(pre.live().contains(handles[j]));
                }
                assert(!pre.live().contains(rbh));
            }
            shapes.push(shape);
            let ghost prev = handles@;
            handles.push(rbh);
            proof {
                assert(handles@ == prev.push(rbh));
                assert_sets_equal!(
                    physics.live() == old(physics).live() + handles@.to_set(),
                    x => {
                        if physics.live().contains(x) {
                            if x == rbh {
                                assert(handles@[handles@.len() - 1] == rbh);
                                assert(handles@.contains(x));
                            } else {
                                assert(pre.live().contains(x));
                                if !old(physics).live().contains(x) {
                                    assert(prev.to_set().contains(x));
                                    let w = choose|w: int| 0 <= w < prev.len() && prev[w] == x;
                                    assert(handles@[w] == x);
                                    assert(handles@.contains(x));
                                }
                            }
                        }
                        if old(physics).live().contains(x) {
                            assert(pre.live().contains(x));
                            assert(physics.live().contains(x));
                        }
                        if handles@.to_set().contains(x) {
                            let w = choose|w: int| 0 <= w < handles@.len() && handles@[w] == x;
                            if w < handles@.len() - 1 {
                                assert(prev[w] == x);
                                assert(prev.contains(x));
                                assert(pre.live().contains(x));
                            } else {
                                assert(x == rbh);
                            }
                            assert(physics.live().contains(x));
                        }
                    }
                );
            }
            i += 1;
        }
        Unit {
            key,
            pos: base_position,
            rot: crate::fx::rot_identity(),
            size,
            color: crate::shape::palette_color(color_ix),
            shapes,
            physics_handles: handles,
            data: Vec::new(),
            body_parts: Vec::new(),
        }
    }

    /// The per-frame update pass: pull the live pose from the physics world
    /// into the cached fields and rebuild the per-part snapshot list.
    pub fn update(&mut self, physics: &Physics)
        requires
            old(self).wf(),
        ensures
            final(self).wf(),
            unit_updated(*old(self), *final(self), *physics),
    {
        self.update_physics_complex(physics);
    }

    /// Rebuilds the per-part snapshot list by querying each owned handle,
    /// and overwrites the cached pose. Only meaningful when the primary
    /// shape is a circle or a convex polygon; for a polygon the cached base
    /// position follows the first part, the explicit driver — relying on
    /// whichever part happens to be queried last would make the cached pose
    /// iteration-order dependent.
    fn update_physics_complex(&mut self, physics: &Physics)
        requires
            old(self).wf(),
        ensures
            final(self).wf(),
            unit_updated(*old(self), *final(self), *physics),
    {
        let tag: u8 = match &self.shapes[0] {
            Shape::Circle { .. } => 0,
            Shape::Rectangle { .. } => 1,
            Shape::ConvexPolygon { .. } => 2,
        };
        if tag == 0 {
            self.data = Vec::new();
            let n = self.physics_handles.len();
            let mut i: usize = 0;
            while i < n
                invariant
                    old(self).wf(),
                    n == self.physics_handles.len(),
                    0 <= i <= n,
                    self.data.len() == i,
                    self.key == old(self).key,
                    self.pos == old(self).pos,
                    self.rot == old(self).rot,
                    self.size == old(self).size,
                    self.color == old(self).color,
                    self.shapes == old(self).shapes,
                    self.physics_handles == old(self).physics_handles,
                    self.body_parts == old(self).body_parts,
                    forall|j: int|
                        0 <= j < i ==> snap_pose_ok(
                            *physics,
                            self.physics_handles[j],
                            #[trigger] self.data[j],
                        ) && snap_radius_ok(*physics, self.physics_handles[j], self.data[j].radius),
                decreases n - i,
            {
                let h = self.physics_handles[i];
                let radius = match physics.get_collider_size(h) {
                    Some(r) => r,
                    None => FALLBACK_RADIUS,
                };
                let pd = physics.get_physics_data(h);
                self.data.push(SnapPart { radius, pos: pd.position, rot: pd.rotation });
                i += 1;
            }
            let pd0 = physics.get_physics_data(self.physics_handles[0]);
            self.pos = pd0.position;
            self.rot = pd0.rotation;
        } else if tag == 2 {
            self.data = Vec::new();
            let n = self.physics_handles.len();
            let mut i: usize = 0;
            while i < n
                invariant
                    old(self).wf(),
                    n == self.physics_handles.len(),
                    0 <= i <= n,
                    self.data.len() == i,
                    self.key == old(self).key,
                    self.pos == old(self).pos,
                    self.rot == old(self).rot,
                    self.size == old(self).size,
                    self.color == old(self).color,
                    self.shapes == old(self).shapes,
                    self.physics_handles == old(self).physics_handles,
                    self.body_parts == old(self).body_parts,
                    forall|j: int|
                        0 <= j < i ==> snap_pose_ok(
                            *physics,
                            self.physics_handles[j],
                            #[trigger] self.data[j],
                        ) && self.data[j].radius == FALLBACK_RADIUS,
                decreases n - i,
            {
                let h = self.physics_handles[i];
                let pd = physics.get_physics_data(h);
                self.data.push(SnapPart { radius: FALLBACK_RADIUS, pos: pd.position, rot: pd.rotation });
                i += 1;
            }
            let pd0 = physics.get_physics_data(self.physics_handles[0]);
            self.pos = pd0.position;
        }
    }
}

} // verus!
