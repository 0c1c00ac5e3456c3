//! The entity registry: owns all entities keyed by identity.

use vstd::prelude::*;
use vstd::assert_seqs_equal;
use vstd::assert_sets_equal;

use crate::consts::{COORD_MAX, SCALE, SIZE_MAX, SIZE_MIN};
use crate::engine::BodyHandle;
use crate::fx::{spec_rot_identity, Vec2Fx};
use crate::physics::{body_kept, Physics};
use crate::shape::{spec_palette, Shape};
use crate::unit::{unit_updated, PartDef, PartsScheme, Unit};

verus! {

/// The sampled values one simple-entity spawn consumes: identity, size,
/// placement, color index and scatter direction. Sampling happens outside
/// the registry so spawn scenarios stay reproducible.
#[derive(Clone, Copy, Debug)]
pub struct SpawnSeed {
    pub key: u64,
    pub size: i64,
    pub position: Vec2Fx,
    pub color_ix: u64,
    pub scatter: Vec2Fx,
}

impl SpawnSeed {
    pub open spec fn wf(self) -> bool {
        &&& SIZE_MIN <= self.size <= SIZE_MAX
        &&& self.position.within(COORD_MAX)
        &&& self.scatter.x * self.scatter.x + self.scatter.y * self.scatter.y <= SCALE * SCALE
    }
}

/// What spawning one seed leaves behind: a well-formed simple entity
/// carrying the seed's identity and attributes, whose one primary body is
/// live in the physics world at the seed's position with a ball collider of
/// the seed's size.
pub open spec fn seeded_unit(seed: SpawnSeed, u: Unit, ph: Physics) -> bool {
    &&& u.wf()
    &&& u.key == seed.key
    &&& u.pos == seed.position
    &&& u.rot == spec_rot_identity()
    &&& u.size == seed.size
    &&& u.color == spec_palette(seed.color_ix)
    &&& u.shapes.len() == 1
    &&& u.shapes[0] == (Shape::Circle { radius: seed.size })
    &&& u.physics_handles.len() == 1
    &&& u.data.len() == 0
    &&& u.body_parts.len() == 3
    &&& ph.live().contains(u.physics_handles[0])
    &&& ph.pos_of(u.physics_handles[0]) == (seed.position.x as int, seed.position.y as int)
    &&& ph.ball_radius_of(u.physics_handles[0]) == Some(seed.size as int)
    &&& !ph.is_fixed(u.physics_handles[0])
}

/// The primary body handles of the entities spawned at the end of a
/// registry: one per seed, in seed order.
pub open spec fn spawned_handles(c: Collector, base: int, count: int) -> Seq<BodyHandle> {
    Seq::new(count as nat, |i: int| c.units[base + i].physics_handles[0])
}

/// The fixed five-part composite construction plan: one larger central
/// circle and four smaller ones at the corners of a square around it.
pub open spec fn complex_scheme() -> Seq<PartDef> {
    seq![
        PartDef { shape_size: 10_000, relative_position: Vec2Fx { x: 0, y: 0 } },
        PartDef { shape_size: 6_000, relative_position: Vec2Fx { x: (-20_000) as i64, y: (-20_000) as i64 } },
        PartDef { shape_size: 6_000, relative_position: Vec2Fx { x: (-20_000) as i64, y: 20_000 } },
        PartDef { shape_size: 6_000, relative_position: Vec2Fx { x: 20_000, y: (-20_000) as i64 } },
        PartDef { shape_size: 6_000, relative_position: Vec2Fx { x: 20_000, y: 20_000 } },
    ]
}

/// What spawning the fixed composite leaves behind: an entity with one
/// shape and one live dynamic ball body per part of the plan, each body at
/// its part's offset from the base position.
pub open spec fn complex_unit_ok(
    u: Unit,
    key: u64,
    base: Vec2Fx,
    size: i64,
    color_ix: u64,
    ph: Physics,
) -> bool {
    &&& u.wf()
    &&& u.key == key
    &&& u.pos == base
    &&& u.rot == spec_rot_identity()
    &&& u.size == size
    &&& u.color == spec_palette(color_ix)
    &&& u.shapes.len() == complex_scheme().len()
    &&& u.physics_handles.len() == complex_scheme().len()
    &&& u.data.len() == 0
    &&& forall|i: int|
        0 <= i < complex_scheme().len() ==> (#[trigger] u.shapes[i]) == (Shape::Circle {
            radius: complex_scheme()[i].shape_size,
        })
    &&& forall|i: int|
        0 <= i < complex_scheme().len() ==> ph.live().contains(#[trigger] u.physics_handles[i])
            && ph.pos_of(u.physics_handles[i]) == (
            complex_scheme()[i].relative_position.x + base.x,
            complex_scheme()[i].relative_position.y + base.y,
        ) && ph.ball_radius_of(u.physics_handles[i]) == Some(complex_scheme()[i].shape_size as int)
}

/// A mapping from identity to entity. Insertion order is irrelevant and
/// keys stay unique for the registry's lifetime.
pub struct Collector {
    pub units: Vec<Unit>,
}

impl Collector {
    /// Uniqueness of identities, and well-formedness of every entity.
    pub open spec fn wf(self) -> bool {
        &&& forall|i: int, j: int|
            0 <= i < j < self.units.len() ==> (#[trigger] self.units[i]).key != (
            #[trigger] self.units[j]).key
        &&& forall|i: int| 0 <= i < self.units.len() ==> (#[trigger] self.units[i]).wf()
    }

    /// Whether some entity carries this identity.
    pub open spec fn has_key(self, id: u64) -> bool {
        exists|i: int| 0 <= i < self.units.len() && (#[trigger] self.units[i]).key == id
    }

    pub fn new() -> (c: Collector)
        ensures
            c.wf(),
            c.units.len() == 0,
    {
        Collector { units: Vec::new() }
    }

    /// The index holding an identity, if any.
    fn find_index(&self, id: u64) -> (r: Option<usize>)
        ensures
            r matches Some(i) ==> i < self.units.len() && self.units[i as int].key == id,
            r is None ==> !self.has_key(id),
    {
        let n = self.units.len();
        let mut i: usize = 0;
        while i < n
            invariant
                0 <= i <= n,
                n == self.units.len(),
                forall|j: int| 0 <= j < i ==> (#[trigger] self.units[j]).key != id,
            decreases n - i,
        {
            if self.units[i].key == id {
                return Some(i);
            }
            i += 1;
        }
        None
    }

    /// Inserts an entity under its own identity and returns that identity.
    /// An entity already holding the identity is replaced.
    pub fn add_unit(&mut self, unit: Unit, physics: &mut Physics) -> (r: u64)
        requires
            old(self).wf(),
            unit.wf(),
        ensures
            final(self).wf(),
            r == unit.key,
            final(self).has_key(unit.key),
            *final(physics) == *old(physics),
            exists|i: int|
                0 <= i < final(self).units.len() && #[trigger] final(self).units[i] == unit,
            !old(self).has_key(unit.key) ==> final(self).units@ == old(self).units@.push(unit),
            old(self).has_key(unit.key) ==> exists|i: int|
                0 <= i < old(self).units.len() && old(self).units[i].key == unit.key && final(self).units@ == old(self).units@.update(i, unit),
    {
        let _ = &physics;
        let key = unit.key;
        match self.find_index(key) {
            Some(i) => {
                self.units.set(i, unit);
                proof {
                    assert(self.units[i as int].key == key);
                    assert(self.units[i as int] == unit);
                }
            },
            None => {
                self.units.push(unit);
                proof {
                    assert(self.units[self.units.len() - 1].key == key);
                    assert(self.units[self.units.len() - 1] == unit);
                }
            },
        }
        key
    }

    /// Spawns one simple entity per seed. The seeds' identities must be
    /// fresh and pairwise distinct, as sampled identities are.
    pub fn add_many_units(&mut self, seeds: &Vec<SpawnSeed>, physics: &mut Physics)
        requires
            old(self).wf(),
            forall|i: int| 0 <= i < seeds.len() ==> (#[trigger] seeds[i]).wf(),
            forall|i: int, j: int|
                0 <= i < j < seeds.len() ==> (#[trigger] seeds[i]).key != (
                #[trigger] seeds[j]).key,
            forall|i: int| 0 <= i < seeds.len() ==> !old(self).has_key((#[trigger] seeds[i]).key),
        ensures
            final(self).wf(),
            final(self).units.len() == old(self).units.len() + seeds.len(),
            forall|i: int| 0 <= i < seeds.len() ==> final(self).has_key((#[trigger] seeds[i]).key),
            forall|i: int|
                0 <= i < old(self).units.len() ==> final(self).units[i] == old(self).units[i],
            forall|i: int|
                0 <= i < seeds.len() ==> seeded_unit(
                    #[trigger] seeds[i],
                    final(self).units[old(self).units.len() + i],
                    *final(physics),
                ),
            forall|h2: BodyHandle| #[trigger]
                old(physics).live().contains(h2) ==> final(physics).live().contains(h2)
                    && body_kept(*old(physics), *final(physics), h2),
            final(physics).live() == old(physics).live() + spawned_handles(
                *final(self),
                old(self).units.len() as int,
                seeds.len() as int,
            ).to_set(),
            forall|i: int, j: int|
                0 <= i < j < seeds.len() ==> (#[trigger] final(self).units[old(self).units.len()
                    + i]).physics_handles[0] != (#[trigger] final(self).units[old(self).units.len()
                    + j]).physics_handles[0],
            forall|i: int|
                0 <= i < seeds.len() ==> !old(physics).live().contains(
                    (#[trigger] final(self).units[old(self).units.len() + i]).physics_handles[0],
                ),
    {
        let n = seeds.len();
        let mut k: usize = 0;
        while k < n
            invariant
                0 <= k <= n,
                n == seeds.len(),
                self.wf(),
                self.units.len() == old(self).units.len() + k,
                forall|i: int| 0 <= i < n ==> (#[trigger] seeds[i]).wf(),
                forall|i: int, j: int|
                    0 <= i < j < n ==> (#[trigger] seeds[i]).key != (#[trigger] seeds[j]).key,
                forall|i: int| 0 <= i < n ==> !old(self).has_key((#[trigger] seeds[i]).key),
                forall|i: int| 0 <= i < k ==> self.has_key((#[trigger] seeds[i]).key),
                forall|i: int|
                    k <= i < n ==> !self.has_key((#[trigger] seeds[i]).key),
                forall|i: int|
                    0 <= i < old(self).units.len() ==> self.units[i] == old(self).units[i],
                forall|i: int|
                    0 <= i < k ==> seeded_unit(
                        #[trigger] seeds[i],
                        self.units[old(self).units.len() + i],
                        *physics,
                    ),
                forall|h2: BodyHandle| #[trigger]
                    old(physics).live().contains(h2) ==> physics.live().contains(h2) && body_kept(
                        *old(physics),
                        *physics,
                        h2,
                    ),
                physics.live() == old(physics).live() + spawned_handles(
                    *self,
                    old(self).units.len() as int,
                    k as int,
                ).to_set(),
                forall|i: int, j: int|
                    0 <= i < j < k ==> (#[trigger] self.units[old(self).units.len()
                        + i]).physics_handles[0] != (#[trigger] self.units[old(self).units.len()
                        + j]).physics_handles[0],
                forall|i: int|
                    0 <= i < k ==> !old(physics).live().contains(
                        (#[trigger] self.units[old(self).units.len() + i]).physics_handles[0],
                    ),
            decreases n - k,
        {
            let seed = seeds[k];
            let ghost pre_ph = *physics;
            let unit = Unit::new(
                seed.key,
                seed.size,
                seed.position,
                seed.color_ix,
                seed.scatter,
                physics,
            );
            proof {
                assert forall|i: int| 0 <= i < k implies seeded_unit(
                    #[trigger] seeds[i],
                    self.units[old(self).units.len() + i],
                    *physics,
                ) by {
                    assert(seeded_unit(seeds[i], self.units[old(self).units.len() + i], pre_ph));
                    assert(pre_ph.live().contains(
                        self.units[old(self).units.len() + i].physics_handles[0],
                    ));
                }
                assert forall|h2: BodyHandle| old(physics).live().contains(h2)
                    implies physics.live().contains(h2) && body_kept(
                    *old(physics),
                    *physics,
                    h2,
                ) by {
                    assert(pre_ph.live().contains(h2));
                }
            }
            let ghost pre = *self;
            let _ = self.add_unit(unit, physics);
            proof {
                assert(self.units@ == pre.units@.push(unit));
                assert(seeded_unit(seeds[k as int], self.units[old(self).units.len() + k], *physics));
                let base = old(self).units.len() as int;
                let newh = unit.physics_handles[0];
                let hs_pre = spawned_handles(pre, base, k as int);
                let hs_now = spawned_handles(*self, base, k as int + 1);
                assert forall|i: int| 0 <= i < k implies hs_now[i] == hs_pre[i] by {
                    assert(self.units[base + i] == pre.units[base + i]);
                }
                assert(hs_now[k as int] == newh);
                assert(!pre_ph.live().contains(newh));
                assert(physics.live() == pre_ph.live().insert(newh));
                assert_sets_equal!(
                    physics.live() == old(physics).live() + hs_now.to_set(),
                    x => {
                        if physics.live().contains(x) {
                            if x == newh {
                                assert(hs_now[k as int] == x);
                                assert(hs_now.contains(x));
                            } else {
                                assert(pre_ph.live().contains(x));
                                if !old(physics).live().contains(x) {
                                    assert(hs_pre.to_set().contains(x));
                                    let w = choose|w: int|
                                        0 <= w < hs_pre.len() && hs_pre[w] == x;
                                    assert(hs_now[w] == x);
                                    assert(hs_now.contains(x));
                                }
                            }
                        }
                        if old(physics).live().contains(x) {
                            assert(pre_ph.live().contains(x));
                            assert(physics.live().contains(x));
                        }
                        if hs_now.to_set().contains(x) {
                            let w = choose|w: int| 0 <= w < hs_now.len() && hs_now[w] == x;
                            if w < k {
                                assert(hs_pre[w] == x);
                                assert(hs_pre.contains(x));
                                assert(pre_ph.live().contains(x));
                            } else {
                                assert(x == newh);
                            }
                            assert(physics.live().contains(x));
                        }
                    }
                );
                assert forall|i: int, j: int| 0 <= i < j < k + 1 implies (#[trigger] self.units[base
                    + i]).physics_handles[0] != (#[trigger] self.units[base
                    + j]).physics_handles[0] by {
                    if j < k {
                        assert(self.units[base + i] == pre.units[base + i]);
                        assert(self.units[base + j] == pre.units[base + j]);
                    } else {
                        assert(self.units[base + j].physics_handles[0] == newh);
                        assert(self.units[base + i] == pre.units[base + i]);
                        assert(seeded_unit(seeds[i], pre.units[base + i], pre_ph));
                        assert(pre_ph.live().contains(self.units[base + i].physics_handles[0]));
                    }
                }
                assert forall|i: int| k + 1 <= i < n implies !self.has_key(
                    (#[trigger] seeds[i]).key,
                ) by {
                    assert(!pre.has_key(seeds[i].key));
                    assert forall|j: int| 0 <= j < self.units.len() implies (
                    #[trigger] self.units[j]).key != seeds[i].key by {
                        if j < pre.units.len() {
                            assert(self.units[j] == pre.units[j]);
                        }
                    }
                }
                assert forall|i: int| 0 <= i < k + 1 implies self.has_key(
                    (#[trigger] seeds[i]).key,
                ) by {
                    if i < k {
                        let w = choose|w: int|
                            0 <= w < pre.units.len() && pre.units[w].key == seeds[i].key;
                        assert(self.units[w].key == seeds[i].key);
                    } else {
                        assert(self.units[self.units.len() - 1].key == seeds[i].key);
                    }
                }
            }
            k += 1;
        }
    }

    /// Spawns the fixed five-part composite: one larger central circle and
    /// four smaller ones at the corners of a square around it.
    pub fn add_complex(
        &mut self,
        key: u64,
        base_position: Vec2Fx,
        size: i64,
        color_ix: u64,
        scatter: Vec2Fx,
        physics: &mut Physics,
    ) -> (r: u64)
        requires
            old(self).wf(),
            base_position.within((COORD_MAX - 20_000) as i64),
            SIZE_MIN <= size <= SIZE_MAX,
            scatter.x * scatter.x + scatter.y * scatter.y <= SCALE * SCALE,
        ensures
            final(self).wf(),
            r == key,
            final(self).has_key(key),
            exists|i: int|
                0 <= i < final(self).units.len() && (#[trigger] final(self).units[i]).key == key
                    && complex_unit_ok(
                    final(self).units[i],
                    key,
                    base_position,
                    size,
                    color_ix,
                    *final(physics),
                ) && final(physics).live() == old(physics).live() + final(self).units[i].physics_handles@.to_set() && (forall|a: int, b: int|
                    0 <= a < b < final(self).units[i].physics_handles.len() ==> final(self).units[i].physics_handles[a] != final(self).units[i].physics_handles[b]),
            forall|h2: BodyHandle| #[trigger]
                old(physics).live().contains(h2) ==> final(physics).live().contains(h2)
                    && body_kept(*old(physics), *final(physics), h2),
    {
        let mut parts: Vec<PartDef> = Vec::new();
        parts.push(PartDef { shape_size: 10_000, relative_position: Vec2Fx::new(0, 0) });
        parts.push(
            PartDef { shape_size: 6_000, relative_position: Vec2Fx::new(-20_000, -20_000) },
        );
        parts.push(PartDef { shape_size: 6_000, relative_position: Vec2Fx::new(-20_000, 20_000) });
        parts.push(PartDef { shape_size: 6_000, relative_position: Vec2Fx::new(20_000, -20_000) });
        parts.push(PartDef { shape_size: 6_000, relative_position: Vec2Fx::new(20_000, 20_000) });
        proof {
            assert_seqs_equal!(parts@ == complex_scheme());
        }
        let scheme = PartsScheme { parts };
        let unit = Unit::new_complex(scheme, base_position, key, size, color_ix, scatter, physics);
        proof {
            assert(complex_unit_ok(unit, key, base_position, size, color_ix, *physics));
        }
        let r = self.add_unit(unit, physics);
        proof {
            let i = choose|i: int|
                0 <= i < self.units.len() && #[trigger] self.units[i] == unit;
            assert(self.units[i].key == key);
            assert(complex_unit_ok(self.units[i], key, base_position, size, color_ix, *physics));
        }
        r
    }

    /// Looks an entity up by identity; absence is an empty result, never a
    /// fault.
    pub fn get(&self, id: u64) -> (r: Option<&Unit>)
        ensures
            r is Some <==> self.has_key(id),
            r matches Some(u) ==> u.key == id && exists|i: int|
                0 <= i < self.units.len() && self.units[i] == *u,
    {
        match self.find_index(id) {
            Some(i) => Some(&self.units[i]),
            None => None,
        }
    }

    /// Removes the entity holding this identity, if any.
    pub fn _remove(&mut self, id: u64)
        requires
            old(self).wf(),
        ensures
            final(self).wf(),
            !final(self).has_key(id),
            !old(self).has_key(id) ==> final(self).units@ == old(self).units@,
            old(self).has_key(id) ==> exists|i: int|
                0 <= i < old(self).units.len() && old(self).units[i].key == id && final(self).units@ == old(self).units@.remove(i),
    {
        match self.find_index(id) {
            Some(i) => {
                let _ = self.units.remove(i);
                proof {
                    assert forall|j: int| 0 <= j < self.units.len() implies (
                    #[trigger] self.units[j]).key != id by {
                        if j < i {
                            assert(self.units[j] == old(self).units[j]);
                        } else {
                            assert(self.units[j] == old(self).units[j + 1]);
                        }
                    }
                }
            },
            None => {},
        }
    }

    /// The number of entities held.
    pub fn _count(&self) -> (r: usize)
        ensures
            r == self.units.len(),
    {
        self.units.len()
    }

    /// The entity at a traversal index; traversal order carries no meaning.
    pub fn unit_at(&self, i: usize) -> (r: &Unit)
        requires
            i < self.units.len(),
        ensures
            r == self.units[i as int],
    {
        &self.units[i]
    }

    /// Runs the per-frame update pass over every entity, in traversal order;
    /// no outcome may depend on that order, and none does: each entity only
    /// reads the physics world through its own handles.
    pub fn update_all(&mut self, physics: &Physics)
        requires
            old(self).wf(),
        ensures
            final(self).wf(),
            final(self).units.len() == old(self).units.len(),
            forall|i: int|
                0 <= i < old(self).units.len() ==> unit_updated(
                    old(self).units[i],
                    #[trigger] final(self).units[i],
                    *physics,
                ),
    {
        let n = self.units.len();
        let mut i: usize = 0;
        while i < n
            invariant
                0 <= i <= n,
                n == self.units.len(),
                old(self).wf(),
                self.units.len() == old(self).units.len(),
                forall|j: int| i <= j < n ==> self.units[j] == old(self).units[j],
                forall|j: int|
                    0 <= j < i ==> unit_updated(
                        old(self).units[j],
                        #[trigger] self.units[j],
                        *physics,
                    ),
                self.wf(),
            decreases n - i,
        {
            let ghost pre = self.units[i as int];
            let mut u = self.units.remove(i);
            u.update(physics);
            self.units.insert(i, u);
            proof {
                assert(self.units[i as int] == u);
                assert(unit_updated(old(self).units[i as int], self.units[i as int], *physics));
                assert forall|j: int| 0 <= j < n implies (#[trigger] self.units[j]).wf() by {
                    if j != i {
                        assert(self.units[j] == old(self).units[j]
                            || unit_updated(old(self).units[j], self.units[j], *physics));
                    }
                }
            }
            i += 1;
        }
    }
}

} // verus!
