//! Propulsion: directed thrusters with bounded throttle, and the steerable
//! jet entity built from two opposing engines.

use vstd::prelude::*;
use vstd::arithmetic::div_mod::{lemma_div_is_ordered, lemma_div_multiples_vanish};
use vstd::arithmetic::mul::lemma_mul_inequality;
use vstd::pervasive::VecAdditionalExecFns;

use crate::consts::{COORD_MAX, IMPULSE_ARG_MAX};
use crate::engine::{neg_pair, rot_image, rot_sane, rotate_milli, BodyHandle};
use crate::fx::{spec_clamp_milli, spec_rot_identity, RotBits, Vec2Fx};
use crate::physics::Physics;
use crate::shape::{Hue, Shape};
use crate::unit::cached_pose_ok;

verus! {

/// Largest engine impulse magnitude, in milli-units of world impulse.
pub const MAX_ENGINE_IMPULSE: i64 = 1_000_000;

/// The product of a milli-scaled factor and a bounded value, divided back
/// by one thousand, rounding toward zero.
pub open spec fn spec_mul_div_milli(a: i64, b: i64) -> i64 {
    let p = a * b;
    if p >= 0 {
        (p / 1000) as i64
    } else {
        (-((-p) / 1000)) as i64
    }
}

/// Scales `b` by the milli-fraction `a / 1000`, rounding toward zero.
pub fn mul_div_milli(a: i64, b: i64) -> (r: i64)
    requires
        -1000 <= a <= 1000,
        -MAX_ENGINE_IMPULSE <= b <= MAX_ENGINE_IMPULSE,
    ensures
        r == spec_mul_div_milli(a, b),
        -MAX_ENGINE_IMPULSE <= r <= MAX_ENGINE_IMPULSE,
{
    proof {
        lemma_mul_bounds_milli(a as int, b as int);
    }
    let p: i64 = a * b;
    if p >= 0 {
        let q = p / 1000;
        proof {
            lemma_div_is_ordered(p as int, 1_000_000_000, 1000);
            lemma_div_multiples_vanish(MAX_ENGINE_IMPULSE as int, 1000);
            lemma_div_is_ordered(0, p as int, 1000);
        }
        q
    } else {
        let q = (-p) / 1000;
        proof {
            lemma_div_is_ordered(-p as int, 1_000_000_000, 1000);
            lemma_div_multiples_vanish(MAX_ENGINE_IMPULSE as int, 1000);
            lemma_div_is_ordered(0, -p as int, 1000);
        }
        -q
    }
}

/// The product of two values within the throttle and impulse ranges stays
/// within a billion in magnitude.
proof fn lemma_mul_bounds_milli(a: int, b: int)
    requires
        -1000 <= a <= 1000,
        -MAX_ENGINE_IMPULSE <= b <= MAX_ENGINE_IMPULSE,
    ensures
        -1_000_000_000 <= a * b <= 1_000_000_000,
{
    assert(-1_000_000_000 <= a * b <= 1_000_000_000) by (nonlinear_arith)
        requires
            -1000 <= a <= 1000,
            -1_000_000 <= b <= 1_000_000,
    ;
}

/// Scaling a negated value negates the scaled result exactly.
pub proof fn lemma_mul_div_milli_neg(a: i64, b: i64)
    requires
        -1000 <= a <= 1000,
        -MAX_ENGINE_IMPULSE <= b <= MAX_ENGINE_IMPULSE,
    ensures
        spec_mul_div_milli(a, (-b) as i64) == -spec_mul_div_milli(a, b),
{
    lemma_mul_bounds_milli(a as int, b as int);
    assert(((-b) as i64) as int == -(b as int));
    assert((a as int) * (-(b as int)) == -((a as int) * (b as int))) by (nonlinear_arith);
}

/// The impulse a throttle setting yields: the maximum impulse scaled by the
/// clamped throttle, rounding toward zero.
pub open spec fn spec_powered(max_impulse: i64, thrust: i64) -> i64 {
    spec_mul_div_milli(spec_clamp_milli(thrust), max_impulse)
}

/// Throttle clamping law: for every input, the derived impulse magnitude
/// never exceeds the maximum impulse, and it is monotonic in the clamped
/// throttle.
pub proof fn lemma_powered_bounded(max_impulse: i64, thrust: i64)
    requires
        0 <= max_impulse <= MAX_ENGINE_IMPULSE,
    ensures
        -max_impulse <= spec_powered(max_impulse, thrust) <= max_impulse,
{
    let c = spec_clamp_milli(thrust);
    lemma_mul_bounds_milli(c as int, max_impulse as int);
    if c * max_impulse >= 0 {
        assert(c * max_impulse <= 1000 * max_impulse) by (nonlinear_arith)
            requires
                -1000 <= c <= 1000 && 0 <= max_impulse,
        ;
        lemma_div_is_ordered(c * max_impulse, 1000 * max_impulse, 1000);
        lemma_div_multiples_vanish(max_impulse as int, 1000);
        lemma_div_is_ordered(0, c * max_impulse, 1000);
    } else {
        assert(-(c * max_impulse) <= 1000 * max_impulse) by (nonlinear_arith)
            requires
                -1000 <= c <= 1000 && 0 <= max_impulse,
        ;
        lemma_div_is_ordered(-(c * max_impulse), 1000 * max_impulse, 1000);
        lemma_div_multiples_vanish(max_impulse as int, 1000);
        lemma_div_is_ordered(0, -(c * max_impulse), 1000);
    }
}

/// Throttle monotonicity law: with the same maximum impulse, a larger
/// throttle never yields a smaller impulse.
pub proof fn lemma_powered_monotone(max_impulse: i64, t1: i64, t2: i64)
    requires
        0 <= max_impulse <= MAX_ENGINE_IMPULSE,
        t1 <= t2,
    ensures
        spec_powered(max_impulse, t1) <= spec_powered(max_impulse, t2),
{
    let c1 = spec_clamp_milli(t1);
    let c2 = spec_clamp_milli(t2);
    assert(c1 <= c2);
    lemma_mul_bounds_milli(c1 as int, max_impulse as int);
    lemma_mul_bounds_milli(c2 as int, max_impulse as int);
    lemma_mul_inequality(c1 as int, c2 as int, max_impulse as int);
    let p1 = c1 * max_impulse;
    let p2 = c2 * max_impulse;
    if p1 >= 0 {
        lemma_div_is_ordered(p1, p2, 1000);
    } else if p2 >= 0 {
        lemma_div_is_ordered(0, p2, 1000);
        lemma_div_is_ordered(0, -p1, 1000);
    } else {
        lemma_div_is_ordered(-p2, -p1, 1000);
    }
}

/// Impulse bound law: a well-formed engine's body-local impulse vector
/// never exceeds the maximum impulse in either component, whatever throttle
/// produced it.
pub proof fn lemma_impulse_vec_bounded(e: JetEng)
    requires
        e.wf(),
    ensures
        -e.max_impulse <= e.spec_impulse_vec().x <= e.max_impulse,
        -e.max_impulse <= e.spec_impulse_vec().y <= e.max_impulse,
{
    lemma_component_bounded(e.jet_vec.x, e.impulse, e.max_impulse);
    lemma_component_bounded(e.jet_vec.y, e.impulse, e.max_impulse);
}

/// One component of a scaled direction stays within the scaling value's
/// bound: the direction component is at most one thousand milli-units.
proof fn lemma_component_bounded(a: i64, b: i64, m: i64)
    requires
        -1000 <= a <= 1000,
        0 <= m <= MAX_ENGINE_IMPULSE,
        -m <= b <= m,
    ensures
        -m <= spec_mul_div_milli(a, b) <= m,
{
    lemma_mul_bounds_milli(a as int, b as int);
    assert(-1000 * (m as int) <= (a as int) * (b as int) <= 1000 * (m as int)) by (nonlinear_arith)
        requires
            -1000 <= a as int <= 1000 && -(m as int) <= b as int <= m as int && 0 <= m as int,
    ;
    let p = (a as int) * (b as int);
    lemma_div_multiples_vanish(m as int, 1000);
    if p >= 0 {
        lemma_div_is_ordered(p, 1000 * m, 1000);
        lemma_div_is_ordered(0, p, 1000);
    } else {
        lemma_div_is_ordered(-p, 1000 * m, 1000);
        lemma_div_is_ordered(0, -p, 1000);
    }
}

/// A directed thruster: a body-local attachment point, a fixed body-local
/// direction vector, a maximum impulse magnitude, and the impulse currently
/// derived from the throttle. All in milli-units.
#[derive(Clone, Copy, Debug, PartialEq, Eq, Structural)]
pub struct JetEng {
    pub pos: Vec2Fx,
    pub jet_vec: Vec2Fx,
    pub max_impulse: i64,
    pub impulse: i64,
}

impl JetEng {
    pub open spec fn wf(self) -> bool {
        &&& 0 <= self.max_impulse <= MAX_ENGINE_IMPULSE
        &&& self.jet_vec.within(1000)
        &&& self.pos.within(COORD_MAX)
        &&& -self.max_impulse <= self.impulse <= self.max_impulse
    }

    /// The engine's current impulse vector in body-local space: the fixed
    /// direction scaled by the derived impulse.
    pub open spec fn spec_impulse_vec(self) -> Vec2Fx {
        Vec2Fx {
            x: spec_mul_div_milli(self.jet_vec.x, self.impulse),
            y: spec_mul_div_milli(self.jet_vec.y, self.impulse),
        }
    }

    pub fn new(pos: Vec2Fx, jet_vec: Vec2Fx, max_impulse: i64) -> (e: JetEng)
        requires
            0 <= max_impulse <= MAX_ENGINE_IMPULSE,
            jet_vec.within(1000),
            pos.within(COORD_MAX),
        ensures
            e == (JetEng { pos, jet_vec, max_impulse, impulse: 0 }),
            e.wf(),
    {
        JetEng { pos, jet_vec, max_impulse, impulse: 0 }
    }

    /// Sets the throttle: the value is clamped to one turn of magnitude in
    /// milli-units and scaled onto the maximum impulse.
    pub fn power(&mut self, thrust: i64)
        requires
            old(self).wf(),
        ensures
            final(self).wf(),
            final(self).impulse == spec_powered(old(self).max_impulse, thrust),
            final(self).pos == old(self).pos,
            final(self).jet_vec == old(self).jet_vec,
            final(self).max_impulse == old(self).max_impulse,
    {
        let c = crate::fx::clamp_milli(thrust);
        let imp = mul_div_milli(c, self.max_impulse);
        proof {
            lemma_powered_bounded(self.max_impulse, thrust);
        }
        self.impulse = imp;
    }

    /// The current body-local impulse vector.
    pub fn get_impulse(&self) -> (r: Vec2Fx)
        requires
            self.wf(),
        ensures
            r == self.spec_impulse_vec(),
            r.within(MAX_ENGINE_IMPULSE),
    {
        Vec2Fx::new(
            mul_div_milli(self.jet_vec.x, self.impulse),
            mul_div_milli(self.jet_vec.y, self.impulse),
        )
    }

    /// The current impulse vector re-oriented into world space by the
    /// owning body's rotation.
    pub fn world_impulse(&self, rot: RotBits) -> (r: Vec2Fx)
        requires
            self.wf(),
            rot_sane(rot),
        ensures
            (r.x as int, r.y as int) == rot_image(
                rot,
                self.spec_impulse_vec().x as int,
                self.spec_impulse_vec().y as int,
            ),
            r.within(IMPULSE_ARG_MAX),
    {
        let v = self.get_impulse();
        let (x, y) = rotate_milli(rot, v.x, v.y);
        Vec2Fx::new(x, y)
    }
}

/// A steerable entity: one dynamic convex-hull body with two opposing
/// engines mounted symmetrically.
pub struct Jet {
    pub key: u64,
    pub pos: Vec2Fx,
    pub rot: RotBits,
    pub size: i64,
    pub color: Hue,
    pub shape: Shape,
    pub physics_handle: BodyHandle,
    pub engines: Vec<JetEng>,
}

/// Whether the two engines are set against each other: one shared fixed
/// direction, derived impulses of equal magnitude and opposite sign.
pub open spec fn engines_opposed(j: Jet) -> bool {
    &&& j.engines.len() == 2
    &&& j.engines[1].jet_vec == j.engines[0].jet_vec
    &&& j.engines[1].impulse as int == -(j.engines[0].impulse as int)
}

/// The world-space impulse vector one engine delivers under the jet's
/// current cached rotation: the body-local impulse vector rotated into
/// world space.
pub open spec fn jet_world_impulse(j: Jet, i: int) -> (int, int) {
    rot_image(j.rot, j.engines[i].spec_impulse_vec().x as int, j.engines[i].spec_impulse_vec().y as int)
}

/// The world-space attachment point of one engine under the jet's current
/// cached pose: the body-local mount rotated into world space and offset by
/// the cached position.
pub open spec fn jet_world_point(j: Jet, i: int) -> (int, int) {
    let m = rot_image(j.rot, j.engines[i].pos.x as int, j.engines[i].pos.y as int);
    (j.pos.x + m.0, j.pos.y + m.1)
}

/// The full effect of one jet update pass: identity, shape, handle and
/// engines survive; the cached pose is pulled from the physics world (or
/// the defined default for a stale handle); nothing's pose, colliders or
/// kind change; and for a live handle the two engines' world-space impulses
/// — re-derived from the fresh cached rotation — are delivered in order at
/// their world-space attachment points, through some intermediate world.
pub open spec fn jet_update_rel(pre: Jet, post: Jet, pre_ph: Physics, post_ph: Physics) -> bool {
    &&& post.wf()
    &&& post.key == pre.key
    &&& post.size == pre.size
    &&& post.color == pre.color
    &&& post.shape == pre.shape
    &&& post.physics_handle == pre.physics_handle
    &&& post.engines == pre.engines
    &&& cached_pose_ok(post_ph, pre.physics_handle, post.pos, post.rot)
    &&& post_ph.live() == pre_ph.live()
    &&& forall|h2: BodyHandle| #[trigger]
        pre_ph.live().contains(h2) ==> crate::physics::body_kept(pre_ph, post_ph, h2)
    &&& pre_ph.live().contains(pre.physics_handle) ==> exists|mid: Physics|
        #[trigger] crate::physics::impulse_applied(
            pre_ph,
            mid,
            pre.physics_handle,
            jet_world_impulse(post, 0).0,
            jet_world_impulse(post, 0).1,
            jet_world_point(post, 0).0,
            jet_world_point(post, 0).1,
        ) && crate::physics::impulse_applied(
            mid,
            post_ph,
            pre.physics_handle,
            jet_world_impulse(post, 1).0,
            jet_world_impulse(post, 1).1,
            jet_world_point(post, 1).0,
            jet_world_point(post, 1).1,
        )
    &&& !pre_ph.live().contains(pre.physics_handle) ==> post_ph == pre_ph
}

/// What building a jet leaves behind: a well-formed jet with the two fixed
/// symmetric engines at rest, whose one dynamic body is live in the physics
/// world at the given position.
pub open spec fn fresh_jet(j: Jet, key: u64, position: Vec2Fx, ph: Physics) -> bool {
    &&& j.wf()
    &&& j.key == key
    &&& j.pos == position
    &&& j.rot == spec_rot_identity()
    &&& j.engines.len() == 2
    &&& j.engines[0] == (JetEng {
        pos: Vec2Fx { x: (-5000) as i64, y: (-10000) as i64 },
        jet_vec: Vec2Fx { x: 1000, y: 0 },
        max_impulse: 500,
        impulse: 0,
    })
    &&& j.engines[1] == (JetEng {
        pos: Vec2Fx { x: (-5000) as i64, y: 10000 },
        jet_vec: Vec2Fx { x: 1000, y: 0 },
        max_impulse: 500,
        impulse: 0,
    })
    &&& ph.live().contains(j.physics_handle)
    &&& ph.pos_of(j.physics_handle) == (position.x as int, position.y as int)
    &&& !ph.is_fixed(j.physics_handle)
}

/// One world per fence-post: each jet's update relates adjacent worlds.
pub open spec fn jets_chained(pre: Seq<Jet>, post: Seq<Jet>, worlds: Seq<Physics>) -> bool {
    &&& post.len() == pre.len()
    &&& worlds.len() == pre.len() + 1
    &&& forall|k: int|
        0 <= k < pre.len() ==> jet_update_rel(pre[k], #[trigger] post[k], worlds[k], worlds[k + 1])
}

impl Jet {
    pub open spec fn wf(self) -> bool {
        &&& self.engines.len() == 2
        &&& forall|i: int| 0 <= i < self.engines.len() ==> (#[trigger] self.engines[i]).wf()
        &&& self.shape.wf()
        &&& rot_sane(self.rot)
    }

    /// Builds a jet from a hull vertex ring at an explicit position, with
    /// two symmetric engines of half a unit of maximum impulse mounted
    /// behind the body on either side, thrusting along one shared axis.
    pub fn new_dyn_poly(
        vertices: Vec<Vec2Fx>,
        position: Vec2Fx,
        key: u64,
        scatter: Vec2Fx,
        physics: &mut Physics,
    ) -> (j: Jet)
        requires
            position.within(COORD_MAX),
            scatter.x * scatter.x + scatter.y * scatter.y <= crate::consts::SCALE * crate::consts::SCALE,
        ensures
            j.wf(),
            j.key == key,
            j.pos == position,
            j.rot == spec_rot_identity(),
            crate::shape::polygon_viable(vertices@) ==> j.shape == (Shape::ConvexPolygon {
                vertices,
            }),
            !crate::shape::polygon_viable(vertices@) ==> j.shape == (Shape::Circle {
                radius: crate::shape::FALLBACK_RADIUS,
            }),
            j.engines.len() == 2,
            j.engines[0] == (JetEng {
                pos: Vec2Fx { x: (-5000) as i64, y: (-10000) as i64 },
                jet_vec: Vec2Fx { x: 1000, y: 0 },
                max_impulse: 500,
                impulse: 0,
            }),
            j.engines[1] == (JetEng {
                pos: Vec2Fx { x: (-5000) as i64, y: 10000 },
                jet_vec: Vec2Fx { x: 1000, y: 0 },
                max_impulse: 500,
                impulse: 0,
            }),
            final(physics).live().contains(j.physics_handle),
            final(physics).pos_of(j.physics_handle) == (position.x as int, position.y as int),
            final(physics).rot_of(j.physics_handle) == spec_rot_identity(),
            !final(physics).is_fixed(j.physics_handle),
            final(physics).colliders_of(j.physics_handle) == seq![
                crate::physics::attached_rec(
                    j.shape,
                    Vec2Fx { x: 0, y: 0 },
                    spec_rot_identity(),
                    crate::physics::default_props(),
                ),
            ],
            final(physics).damping_of(j.physics_handle) == (
                crate::physics::default_props().linear_damping,
                crate::physics::default_props().angular_damping,
            ),
            final(physics).tag_of(j.physics_handle) == key as u128,
            fresh_jet(j, key, position, *final(physics)),
            !old(physics).live().contains(j.physics_handle),
            final(physics).live() == old(physics).live().insert(j.physics_handle),
            forall|h2: BodyHandle| #[trigger]
                old(physics).live().contains(h2) ==> crate::physics::body_kept(
                    *old(physics),
                    *final(physics),
                    h2,
                ),
    {
        let shape = Shape::polygon(vertices);
        let rbh = physics.add_dynamic(
            key,
            position,
            &shape,
            crate::physics::PhysicsProperities::default(),
            scatter,
        );
        let mut engines: Vec<JetEng> = Vec::new();
        engines.push(JetEng::new(Vec2Fx::new(-5000, -10000), Vec2Fx::new(1000, 0), 500));
        engines.push(JetEng::new(Vec2Fx::new(-5000, 10000), Vec2Fx::new(1000, 0), 500));
        proof {
            crate::physics::lemma_identity_sane();
        }
        Jet {
            key,
            pos: position,
            rot: crate::fx::rot_identity(),
            size: crate::shape::FALLBACK_RADIUS,
            color: Hue::LightGray,
            shape,
            physics_handle: rbh,
            engines,
        }
    }

    /// Sets both engines to the same throttle: net forward or backward
    /// force along the engine axis.
    pub fn go(&mut self, thrust: i64)
        requires
            old(self).wf(),
        ensures
            final(self).wf(),
            final(self).engines.len() == 2,
            forall|i: int|
                0 <= i < 2 ==> (#[trigger] final(self).engines[i]).impulse == spec_powered(
                    old(self).engines[i].max_impulse,
                    thrust,
                ) && final(self).engines[i].pos == old(self).engines[i].pos && final(self).engines[i].jet_vec == old(self).engines[i].jet_vec && final(self).engines[i].max_impulse == old(self).engines[i].max_impulse,
            final(self).key == old(self).key,
            final(self).pos == old(self).pos,
            final(self).rot == old(self).rot,
            final(self).size == old(self).size,
            final(self).color == old(self).color,
            final(self).shape == old(self).shape,
            final(self).physics_handle == old(self).physics_handle,
    {
        let mut e0 = self.engines[0];
        e0.power(thrust);
        self.engines.set(0, e0);
        let mut e1 = self.engines[1];
        e1.power(thrust);
        self.engines.set(1, e1);
    }

    /// Sets the two engines to opposite extreme throttles: net torque to
    /// the left, near-zero net linear force for symmetric engines.
    pub fn turn_left(&mut self)
        requires
            old(self).wf(),
        ensures
            final(self).wf(),
            final(self).engines.len() == 2,
            final(self).engines[0].impulse == -old(self).engines[0].max_impulse,
            final(self).engines[1].impulse == old(self).engines[1].max_impulse,
            (old(self).engines[0].max_impulse == old(self).engines[1].max_impulse && old(
                self,
            ).engines[0].jet_vec == old(self).engines[1].jet_vec) ==> engines_opposed(*final(self)),
            forall|i: int|
                0 <= i < 2 ==> (#[trigger] final(self).engines[i]).pos == old(self).engines[i].pos
                    && final(self).engines[i].jet_vec == old(self).engines[i].jet_vec && final(self).engines[i].max_impulse == old(self).engines[i].max_impulse,
            final(self).key == old(self).key,
            final(self).pos == old(self).pos,
            final(self).rot == old(self).rot,
            final(self).size == old(self).size,
            final(self).color == old(self).color,
            final(self).shape == old(self).shape,
            final(self).physics_handle == old(self).physics_handle,
    {
        proof {
            lemma_powered_extremes(self.engines[0].max_impulse);
            lemma_powered_extremes(self.engines[1].max_impulse);
        }
        let mut e0 = self.engines[0];
        e0.power(-1000);
        self.engines.set(0, e0);
        let mut e1 = self.engines[1];
        e1.power(1000);
        self.engines.set(1, e1);
    }

    /// Sets the two engines to opposite extreme throttles: net torque to
    /// the right.
    pub fn turn_right(&mut self)
        requires
            old(self).wf(),
        ensures
            final(self).wf(),
            final(self).engines.len() == 2,
            final(self).engines[0].impulse == old(self).engines[0].max_impulse,
            final(self).engines[1].impulse == -old(self).engines[1].max_impulse,
            (old(self).engines[0].max_impulse == old(self).engines[1].max_impulse && old(
                self,
            ).engines[0].jet_vec == old(self).engines[1].jet_vec) ==> engines_opposed(*final(self)),
            forall|i: int|
                0 <= i < 2 ==> (#[trigger] final(self).engines[i]).pos == old(self).engines[i].pos
                    && final(self).engines[i].jet_vec == old(self).engines[i].jet_vec && final(self).engines[i].max_impulse == old(self).engines[i].max_impulse,
            final(self).key == old(self).key,
            final(self).pos == old(self).pos,
            final(self).rot == old(self).rot,
            final(self).size == old(self).size,
            final(self).color == old(self).color,
            final(self).shape == old(self).shape,
            final(self).physics_handle == old(self).physics_handle,
    {
        proof {
            lemma_powered_extremes(self.engines[0].max_impulse);
            lemma_powered_extremes(self.engines[1].max_impulse);
        }
        let mut e0 = self.engines[0];
        e0.power(1000);
        self.engines.set(0, e0);
        let mut e1 = self.engines[1];
        e1.power(-1000);
        self.engines.set(1, e1);
    }

    /// The two world-space impulse vectors the engines would apply at their
    /// attachment points under the current cached rotation. When the
    /// engines' directions are opposite and their derived impulses equal,
    /// the two world impulses are exactly opposite: equal in magnitude,
    /// opposite in sign.
    pub fn world_impulses(&self) -> (r: (Vec2Fx, Vec2Fx))
        requires
            self.wf(),
        ensures
            (r.0.x as int, r.0.y as int) == rot_image(
                self.rot,
                self.engines[0].spec_impulse_vec().x as int,
                self.engines[0].spec_impulse_vec().y as int,
            ),
            (r.1.x as int, r.1.y as int) == rot_image(
                self.rot,
                self.engines[1].spec_impulse_vec().x as int,
                self.engines[1].spec_impulse_vec().y as int,
            ),
            engines_opposed(*self) ==> (r.1.x as int, r.1.y as int) == neg_pair(
                (r.0.x as int, r.0.y as int),
            ),
            r.0.within(IMPULSE_ARG_MAX),
            r.1.within(IMPULSE_ARG_MAX),
    {
        let e0 = self.engines[0];
        let e1 = self.engines[1];
        let v0 = e0.get_impulse();
        let v1 = e1.get_impulse();
        let (x0, y0) = rotate_milli(self.rot, v0.x, v0.y);
        let (x1, y1) = rotate_milli(self.rot, v1.x, v1.y);
        proof {
            if engines_opposed(*self) {
                lemma_mul_div_milli_neg(e0.jet_vec.x, e0.impulse);
                lemma_mul_div_milli_neg(e0.jet_vec.y, e0.impulse);
                assert(v1.x as int == -(v0.x as int) && v1.y as int == -(v0.y as int));
            }
        }
        (Vec2Fx::new(x0, y0), Vec2Fx::new(x1, y1))
    }

    /// The per-frame update pass: pull the live pose from the physics world
    /// into the cached fields, then re-derive each engine's world-space
    /// impulse and attachment point from the current cached rotation and
    /// apply them. Impulses change only velocities, so every live body's
    /// pose — including this jet's — is untouched until the next step.
    pub fn update(&mut self, physics: &mut Physics)
        requires
            old(self).wf(),
        ensures
            jet_update_rel(*old(self), *final(self), *old(physics), *final(physics)),
    {
        let pd = physics.get_physics_data(self.physics_handle);
        self.pos = pd.position;
        self.rot = pd.rotation;
        let (w0, w1) = self.world_impulses();
        let e0 = self.engines[0];
        let e1 = self.engines[1];
        let m0 = rotate_milli(self.rot, e0.pos.x, e0.pos.y);
        let m1 = rotate_milli(self.rot, e1.pos.x, e1.pos.y);
        let at0 = (self.pos.x as i128 + m0.0 as i128, self.pos.y as i128 + m0.1 as i128);
        let at1 = (self.pos.x as i128 + m1.0 as i128, self.pos.y as i128 + m1.1 as i128);
        physics.apply_impulse_at_point(self.physics_handle, w0, at0);
        let ghost s2 = *physics;
        physics.apply_impulse_at_point(self.physics_handle, w1, at1);
        proof {
            assert forall|h2: BodyHandle| old(physics).live().contains(h2)
                implies crate::physics::body_kept(*old(physics), *physics, h2) by {
                assert(s2.live().contains(h2));
            }
            if old(physics).live().contains(self.physics_handle) {
                assert(crate::physics::impulse_applied(
                    *old(physics),
                    s2,
                    self.physics_handle,
                    jet_world_impulse(*self, 0).0,
                    jet_world_impulse(*self, 0).1,
                    jet_world_point(*self, 0).0,
                    jet_world_point(*self, 0).1,
                ));
                assert(crate::physics::impulse_applied(
                    s2,
                    *physics,
                    self.physics_handle,
                    jet_world_impulse(*self, 1).0,
                    jet_world_impulse(*self, 1).1,
                    jet_world_point(*self, 1).0,
                    jet_world_point(*self, 1).1,
                ));
            }
        }
    }
}

/// At the clamp's extremes the derived impulse is exactly the maximum
/// impulse, with the throttle's sign.
pub proof fn lemma_powered_extremes(max_impulse: i64)
    requires
        0 <= max_impulse <= MAX_ENGINE_IMPULSE,
    ensures
        spec_powered(max_impulse, 1000) == max_impulse,
        spec_powered(max_impulse, (-1000) as i64) == -max_impulse,
{
    lemma_div_multiples_vanish(max_impulse as int, 1000);
    assert(1000 * max_impulse == max_impulse * 1000) by (nonlinear_arith);
    assert((-1000) * max_impulse == -(1000 * max_impulse)) by (nonlinear_arith);
}

} // verus!
