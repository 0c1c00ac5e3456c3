//! The simulation loop façade: per frame, in fixed order, entity logic
//! update (pull poses, apply propulsion), then — outside this crate — the
//! render pass over cached poses, then exactly one physics step. The frame
//! just rendered therefore reflects the poses produced by the previous
//! step: propulsion queued during the update is integrated only by the next
//! step, a deliberate one-frame lag.

use vstd::prelude::*;
use vstd::assert_seqs_equal;

use crate::collector::{seeded_unit, spawned_handles, Collector, SpawnSeed};
use crate::consts::{COORD_MAX, SCALE};
use crate::engine::BodyHandle;
use crate::fx::Vec2Fx;
use crate::jet::{fresh_jet, jets_chained, Jet};
use crate::physics::{body_kept, Physics};
use crate::unit::{unit_updated, Unit};
use crate::util::{contact_mouse, spec_contact};

verus! {

/// Whether the pointer at `p` touches an entity's picking circle.
pub open spec fn spec_hit(u: Unit, p: Vec2Fx) -> bool {
    spec_contact(p, u.pos, u.size)
}

pub struct Simulation {
    pub physics: Physics,
    pub units: Collector,
    pub jet: Vec<Jet>,
    pub selected_unit: Option<u64>,
}

impl Simulation {
    pub open spec fn wf(self) -> bool {
        &&& self.units.wf()
        &&& forall|i: int| 0 <= i < self.jet.len() ==> (#[trigger] self.jet[i]).wf()
    }

    pub fn new() -> (s: Simulation)
        ensures
            s.wf(),
            s.units.units.len() == 0,
            s.jet.len() == 0,
            s.selected_unit is None,
            s.physics.live() == Set::<BodyHandle>::empty(),
    {
        Simulation {
            physics: Physics::new(),
            units: Collector::new(),
            jet: Vec::new(),
            selected_unit: None,
        }
    }

    /// The jet's fixed hull outline, in milli-units.
    pub fn jet_hull() -> (r: Vec<Vec2Fx>)
        ensures
            r.len() == 12,
            forall|i: int| 0 <= i < r.len() ==> (#[trigger] r@[i]).within(COORD_MAX),
            r@[0] == (Vec2Fx { x: 15_000, y: 0 }),
            r@[1] == (Vec2Fx { x: 5_000, y: (-5_000) as i64 }),
            r@[2] == (Vec2Fx { x: 0, y: (-10_000) as i64 }),
            r@[3] == (Vec2Fx { x: (-3_000) as i64, y: (-11_000) as i64 }),
            r@[4] == (Vec2Fx { x: (-8_000) as i64, y: (-5_000) as i64 }),
            r@[5] == (Vec2Fx { x: (-10_000) as i64, y: (-6_000) as i64 }),
            r@[6] == (Vec2Fx { x: (-10_000) as i64, y: 0 }),
            r@[7] == (Vec2Fx { x: (-10_000) as i64, y: 6_000 }),
            r@[8] == (Vec2Fx { x: (-8_000) as i64, y: 5_000 }),
            r@[9] == (Vec2Fx { x: (-3_000) as i64, y: 11_000 }),
            r@[10] == (Vec2Fx { x: 0, y: 10_000 }),
            r@[11] == (Vec2Fx { x: 5_000, y: 5_000 }),
    {
        let mut hull: Vec<Vec2Fx> = Vec::new();
        hull.push(Vec2Fx::new(15_000, 0));
        hull.push(Vec2Fx::new(5_000, -5_000));
        hull.push(Vec2Fx::new(0, -10_000));
        hull.push(Vec2Fx::new(-3_000, -11_000));
        hull.push(Vec2Fx::new(-8_000, -5_000));
        hull.push(Vec2Fx::new(-10_000, -6_000));
        hull.push(Vec2Fx::new(-10_000, 0));
        hull.push(Vec2Fx::new(-10_000, 6_000));
        hull.push(Vec2Fx::new(-8_000, 5_000));
        hull.push(Vec2Fx::new(-3_000, 11_000));
        hull.push(Vec2Fx::new(0, 10_000));
        hull.push(Vec2Fx::new(5_000, 5_000));
        hull
    }

    /// Populates the world: one steerable jet with the fixed hull, then one
    /// simple entity per seed.
    pub fn init(
        &mut self,
        jet_key: u64,
        jet_position: Vec2Fx,
        jet_scatter: Vec2Fx,
        seeds: &Vec<SpawnSeed>,
    )
        requires
            old(self).wf(),
            jet_position.within(COORD_MAX),
            jet_scatter.x * jet_scatter.x + jet_scatter.y * jet_scatter.y <= SCALE * SCALE,
            forall|i: int| 0 <= i < seeds.len() ==> (#[trigger] seeds[i]).wf(),
            forall|i: int, j: int|
                0 <= i < j < seeds.len() ==> (#[trigger] seeds[i]).key != (
                #[trigger] seeds[j]).key,
            forall|i: int|
                0 <= i < seeds.len() ==> !old(self).units.has_key((#[trigger] seeds[i]).key),
        ensures
            final(self).wf(),
            final(self).jet.len() == old(self).jet.len() + 1,
            final(self).units.units.len() == old(self).units.units.len() + seeds.len(),
            forall|i: int| 0 <= i < old(self).jet.len() ==> final(self).jet[i] == old(self).jet[i],
            fresh_jet(
                final(self).jet[old(self).jet.len() as int],
                jet_key,
                jet_position,
                final(self).physics,
            ),
            forall|i: int|
                0 <= i < old(self).units.units.len() ==> final(self).units.units[i] == old(
                    self,
                ).units.units[i],
            forall|i: int|
                0 <= i < seeds.len() ==> seeded_unit(
                    #[trigger] seeds[i],
                    final(self).units.units[old(self).units.units.len() + i],
                    final(self).physics,
                ),
            !old(self).physics.live().contains(
                final(self).jet[old(self).jet.len() as int].physics_handle,
            ),
            forall|i: int, j: int|
                0 <= i < j < seeds.len() ==> (#[trigger] final(self).units.units[old(
                    self,
                ).units.units.len() + i]).physics_handles[0] != (
                #[trigger] final(self).units.units[old(self).units.units.len()
                    + j]).physics_handles[0],
            forall|i: int|
                0 <= i < seeds.len() ==> (#[trigger] final(self).units.units[old(
                    self,
                ).units.units.len() + i]).physics_handles[0] != final(self).jet[old(
                    self,
                ).jet.len() as int].physics_handle && !old(self).physics.live().contains(
                    final(self).units.units[old(self).units.units.len() + i].physics_handles[0],
                ),
            final(self).physics.live() == old(self).physics.live().insert(
                final(self).jet[old(self).jet.len() as int].physics_handle,
            ) + spawned_handles(
                final(self).units,
                old(self).units.units.len() as int,
                seeds.len() as int,
            ).to_set(),
    {
        let hull = Self::jet_hull();
        let jet = Jet::new_dyn_poly(hull, jet_position, jet_key, jet_scatter, &mut self.physics);
        let ghost mid_ph = self.physics;
        self.jet.push(jet);
        self.units.add_many_units(seeds, &mut self.physics);
        proof {
            assert(mid_ph.live().contains(jet.physics_handle));
            assert(fresh_jet(jet, jet_key, jet_position, self.physics));
            assert forall|i: int| 0 <= i < seeds.len() implies (
            #[trigger] self.units.units[old(self).units.units.len() + i]).physics_handles[0]
                != jet.physics_handle && !old(self).physics.live().contains(
                self.units.units[old(self).units.units.len() + i].physics_handles[0],
            ) by {
                assert(!mid_ph.live().contains(
                    self.units.units[old(self).units.units.len() + i].physics_handles[0],
                ));
            }
        }
    }

    /// The per-frame logic update: every jet pulls its pose and applies its
    /// propulsion impulses (which change only velocities, never poses), then
    /// every entity pulls physics state into its cached fields. After this
    /// pass every cached pose mirrors the physics world as it stands now —
    /// the state produced by the previous step.
    pub fn update(&mut self)
        requires
            old(self).wf(),
        ensures
            final(self).wf(),
            final(self).jet.len() == old(self).jet.len(),
            final(self).units.units.len() == old(self).units.units.len(),
            final(self).physics.live() == old(self).physics.live(),
            forall|i: int|
                0 <= i < old(self).units.units.len() ==> unit_updated(
                    old(self).units.units[i],
                    #[trigger] final(self).units.units[i],
                    final(self).physics,
                ),
            forall|j: int|
                0 <= j < old(self).jet.len() ==> crate::unit::cached_pose_ok(
                    final(self).physics,
                    (#[trigger] final(self).jet[j]).physics_handle,
                    final(self).jet[j].pos,
                    final(self).jet[j].rot,
                ),
            forall|h2: BodyHandle| #[trigger]
                old(self).physics.live().contains(h2) ==> body_kept(
                    old(self).physics,
                    final(self).physics,
                    h2,
                ),
            exists|worlds: Seq<Physics>|
                #[trigger] jets_chained(old(self).jet@, final(self).jet@, worlds) && worlds[0]
                    == old(self).physics && worlds[worlds.len() - 1] == final(self).physics,
            final(self).selected_unit == old(self).selected_unit,
    {
        let ghost mut worlds: Seq<Physics> = seq![self.physics];
        let m = self.jet.len();
        let mut j: usize = 0;
        while j < m
            invariant
                0 <= j <= m,
                m == self.jet.len(),
                old(self).wf(),
                self.units == old(self).units,
                self.selected_unit == old(self).selected_unit,
                self.jet.len() == old(self).jet.len(),
                forall|i: int| 0 <= i < m ==> (#[trigger] self.jet[i]).wf(),
                self.physics.live() == old(self).physics.live(),
                forall|h2: BodyHandle| #[trigger]
                    old(self).physics.live().contains(h2) ==> body_kept(
                        old(self).physics,
                        self.physics,
                        h2,
                    ),
                forall|i: int| j <= i < m ==> (#[trigger] self.jet[i]) == old(self).jet[i],
                forall|i: int|
                    0 <= i < j ==> (#[trigger] self.jet[i]).physics_handle == old(
                        self,
                    ).jet[i].physics_handle,
                forall|i: int|
                    0 <= i < j ==> crate::unit::cached_pose_ok(
                        self.physics,
                        (#[trigger] self.jet[i]).physics_handle,
                        self.jet[i].pos,
                        self.jet[i].rot,
                    ),
                worlds.len() == j + 1,
                worlds[0] == old(self).physics,
                worlds[j as int] == self.physics,
                forall|k: int|
                    0 <= k < j ==> crate::jet::jet_update_rel(
                        old(self).jet[k],
                        #[trigger] self.jet[k],
                        worlds[k],
                        worlds[k + 1],
                    ),
            decreases m - j,
        {
            let ghost mid = self.physics;
            let ghost pre_jets = self.jet@;
            let mut one = self.jet.remove(j);
            one.update(&mut self.physics);
            self.jet.insert(j, one);
            proof {
                worlds = worlds.push(self.physics);
                assert_seqs_equal!(self.jet@ == pre_jets.update(j as int, one));
                assert(self.jet[j as int] == one);
                assert(crate::jet::jet_update_rel(old(self).jet[j as int], one, mid, self.physics));
                assert forall|h2: BodyHandle| old(self).physics.live().contains(
                    h2,
                ) implies body_kept(old(self).physics, self.physics, h2) by {
                    assert(mid.live().contains(h2));
                }
                assert forall|i: int| 0 <= i < j + 1 implies crate::unit::cached_pose_ok(
                    self.physics,
                    (#[trigger] self.jet[i]).physics_handle,
                    self.jet[i].pos,
                    self.jet[i].rot,
                ) by {
                    if i < j {
                        let h = self.jet[i].physics_handle;
                        if mid.live().contains(h) {
                            assert(self.physics.live().contains(h));
                        }
                    }
                }
            }
            j += 1;
        }
        proof {
            assert(jets_chained(old(self).jet@, self.jet@, worlds));
        }
        self.update_units();
        proof {
            assert(jets_chained(old(self).jet@, self.jet@, worlds));
        }
    }

    /// Runs the per-frame update pass over every entity.
    pub fn update_units(&mut self)
        requires
            old(self).wf(),
        ensures
            final(self).wf(),
            final(self).units.units.len() == old(self).units.units.len(),
            forall|i: int|
                0 <= i < old(self).units.units.len() ==> unit_updated(
                    old(self).units.units[i],
                    #[trigger] final(self).units.units[i],
                    final(self).physics,
                ),
            final(self).jet == old(self).jet,
            final(self).physics == old(self).physics,
            final(self).selected_unit == old(self).selected_unit,
    {
        self.units.update_all(&self.physics);
    }

    /// Advances the physics world exactly once. No cached entity state is
    /// touched: what was pulled by the last update pass — and what the
    /// render pass draws — still reflects the world before this step.
    pub fn step_physics(&mut self)
        requires
            old(self).wf(),
        ensures
            final(self).wf(),
            final(self).units == old(self).units,
            final(self).jet == old(self).jet,
            final(self).selected_unit == old(self).selected_unit,
            final(self).physics.live() == old(self).physics.live(),
    {
        self.physics.step_physics();
    }

    /// Pose lag law: across an update pass followed by exactly one physics
    /// step, every cached entity pose still satisfies the update relation
    /// against the world as it stood before the step. The render pass that
    /// runs between the two therefore draws state integrated only through
    /// the previous step, never the one just taken.
    pub proof fn lemma_pose_lag(pre: Simulation, mid: Simulation, post: Simulation)
        requires
            mid.units.units.len() == pre.units.units.len(),
            forall|i: int|
                0 <= i < pre.units.units.len() ==> unit_updated(
                    pre.units.units[i],
                    #[trigger] mid.units.units[i],
                    mid.physics,
                ),
            post.units == mid.units,
        ensures
            forall|i: int|
                0 <= i < pre.units.units.len() ==> unit_updated(
                    pre.units.units[i],
                    #[trigger] post.units.units[i],
                    mid.physics,
                ),
    {
    }

    /// Selects the first entity in traversal order whose picking circle
    /// contains the given world-space point, or clears the selection.
    pub fn select_at(&mut self, world_point: Vec2Fx)
        requires
            old(self).wf(),
        ensures
            final(self).wf(),
            final(self).physics == old(self).physics,
            final(self).units == old(self).units,
            final(self).jet == old(self).jet,
            (exists|i: int|
                0 <= i < old(self).units.units.len() && spec_hit(
                    #[trigger] old(self).units.units[i],
                    world_point,
                )) ==> exists|i: int|
                0 <= i < old(self).units.units.len() && spec_hit(
                    #[trigger] old(self).units.units[i],
                    world_point,
                ) && (forall|k: int|
                    0 <= k < i ==> !spec_hit(#[trigger] old(self).units.units[k], world_point))
                    && final(self).selected_unit == Some(old(self).units.units[i].key),
            !(exists|i: int|
                0 <= i < old(self).units.units.len() && spec_hit(
                    #[trigger] old(self).units.units[i],
                    world_point,
                )) ==> final(self).selected_unit is None,
    {
        self.selected_unit = None;
        let n = self.units.units.len();
        let mut i: usize = 0;
        while i < n
            invariant
                0 <= i <= n,
                n == self.units.units.len(),
                old(self).wf(),
                self.units == old(self).units,
                self.jet == old(self).jet,
                self.physics == old(self).physics,
                self.selected_unit is None,
                forall|k: int| 0 <= k < i ==> !spec_hit(#[trigger] self.units.units[k], world_point),
            decreases n - i,
        {
            let u = self.units.unit_at(i);
            if contact_mouse(world_point, u.pos, u.size) {
                self.selected_unit = Some(u.key);
                return ;
            }
            i += 1;
        }
    }
}

} // verus!
