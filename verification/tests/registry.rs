//! The entity registry and entity construction.

use entity_physics::collector::{Collector, SpawnSeed};
use entity_physics::fx::Vec2Fx;
use entity_physics::physics::Physics;
use entity_physics::shape::{Hue, Shape};
use entity_physics::unit::{BodyPart, PartDef, PartsScheme, Unit};

fn seed(key: u64, x: i64, y: i64) -> SpawnSeed {
    SpawnSeed {
        key,
        size: 10_000,
        position: Vec2Fx::new(x, y),
        color_ix: key,
        scatter: Vec2Fx::new(0, 1000),
    }
}

#[test]
fn handle_shape_parity_after_construction() {
    let mut physics = Physics::new();
    let a = Unit::new(11, 10_000, Vec2Fx::new(50_000, 50_000), 0, Vec2Fx::new(0, 0), &mut physics);
    assert_eq!(a.shapes.len(), a.physics_handles.len());
    assert_eq!(a.body_parts.len(), 3);
    let b = Unit::new_dyn_circle(7_000, Vec2Fx::new(1_000, 2_000), 12, 1, Vec2Fx::new(0, 0), &mut physics);
    assert_eq!(b.shapes.len(), b.physics_handles.len());
    let c = Unit::new_static_rect((5_000, 6_000), Vec2Fx::new(0, 0), 13, &mut physics);
    assert_eq!(c.shapes.len(), c.physics_handles.len());
    let d = Unit::new_dyn_poly(
        vec![Vec2Fx::new(0, 0), Vec2Fx::new(10_000, 0), Vec2Fx::new(0, 10_000)],
        Vec2Fx::new(9_000, 9_000),
        14,
        Vec2Fx::new(0, 0),
        &mut physics,
    );
    assert_eq!(d.shapes.len(), d.physics_handles.len());
}

#[test]
fn handle_shape_parity_after_update() {
    let mut physics = Physics::new();
    let mut u = Unit::new(21, 10_000, Vec2Fx::new(50_000, 50_000), 0, Vec2Fx::new(1000, 0), &mut physics);
    physics.step_physics();
    u.update(&physics);
    assert_eq!(u.shapes.len(), u.physics_handles.len());
    assert_eq!(u.data.len(), u.physics_handles.len());
}

#[test]
fn composite_owns_one_body_per_part() {
    let mut physics = Physics::new();
    let scheme = PartsScheme {
        parts: vec![
            PartDef { shape_size: 10_000, relative_position: Vec2Fx::new(0, 0) },
            PartDef { shape_size: 6_000, relative_position: Vec2Fx::new(-20_000, -20_000) },
            PartDef { shape_size: 6_000, relative_position: Vec2Fx::new(-20_000, 20_000) },
            PartDef { shape_size: 6_000, relative_position: Vec2Fx::new(20_000, -20_000) },
            PartDef { shape_size: 6_000, relative_position: Vec2Fx::new(20_000, 20_000) },
        ],
    };
    let mut u = Unit::new_complex(
        scheme,
        Vec2Fx::new(600_000, 450_000),
        31,
        10_000,
        2,
        Vec2Fx::new(0, 0),
        &mut physics,
    );
    assert_eq!(u.physics_handles.len(), 5);
    assert_eq!(u.shapes.len(), 5);
    assert_eq!(physics.get_physics_obj_num(), 5);
    // The snapshot list always matches the construction-time part count,
    // before and after the parts drift independently.
    u.update(&physics);
    assert_eq!(u.data.len(), 5);
    physics.step_physics();
    u.update(&physics);
    assert_eq!(u.data.len(), 5);
    assert_eq!(u.data[0].radius, 10_000);
    assert_eq!(u.data[1].radius, 6_000);
}

#[test]
fn registry_get_and_remove() {
    let mut physics = Physics::new();
    let mut reg = Collector::new();
    let u = Unit::new_dyn_circle(8_000, Vec2Fx::new(5_000, 5_000), 42, 0, Vec2Fx::new(0, 0), &mut physics);
    let key = reg.add_unit(u, &mut physics);
    assert_eq!(key, 42);
    assert_eq!(reg._count(), 1);
    assert!(reg.get(42).is_some());
    assert_eq!(reg.get(42).unwrap().key, 42);
    assert!(reg.get(43).is_none());
    reg._remove(42);
    assert!(reg.get(42).is_none());
    assert_eq!(reg._count(), 0);
}

#[test]
fn spawn_many_inserts_each_seed() {
    let mut physics = Physics::new();
    let mut reg = Collector::new();
    let seeds = vec![seed(1, 10_000, 10_000), seed(2, 20_000, 20_000), seed(3, 30_000, 30_000)];
    reg.add_many_units(&seeds, &mut physics);
    assert_eq!(reg._count(), 3);
    for k in 1..=3u64 {
        assert!(reg.get(k).is_some());
    }
    // One primary body per unit; sub-parts are colliders on it.
    assert_eq!(physics.get_physics_obj_num(), 3);
}

#[test]
fn composite_through_registry() {
    let mut physics = Physics::new();
    let mut reg = Collector::new();
    let key = reg.add_complex(99, Vec2Fx::new(600_000, 450_000), 10_000, 0, Vec2Fx::new(0, 0), &mut physics);
    assert_eq!(key, 99);
    let u = reg.get(99).unwrap();
    assert_eq!(u.physics_handles.len(), 5);
    assert_eq!(u.shapes.len(), 5);
    // One independent body per part.
    assert_eq!(physics.get_physics_obj_num(), 5);
}

#[test]
fn add_unit_replaces_equal_key() {
    let mut physics = Physics::new();
    let mut reg = Collector::new();
    let a = Unit::new_dyn_circle(8_000, Vec2Fx::new(5_000, 5_000), 50, 0, Vec2Fx::new(0, 0), &mut physics);
    let b = Unit::new_dyn_circle(9_000, Vec2Fx::new(6_000, 6_000), 50, 1, Vec2Fx::new(0, 0), &mut physics);
    reg.add_unit(a, &mut physics);
    reg.add_unit(b, &mut physics);
    assert_eq!(reg._count(), 1);
    assert_eq!(reg.get(50).unwrap().size, 9_000);
}

#[test]
fn malformed_polygon_falls_back_to_circle() {
    let s = Shape::polygon(vec![Vec2Fx::new(0, 0), Vec2Fx::new(1_000, 0)]);
    assert_eq!(s, Shape::Circle { radius: 5_000 });
    let ok = Shape::polygon(vec![Vec2Fx::new(0, 0), Vec2Fx::new(1_000, 0), Vec2Fx::new(0, 1_000)]);
    assert!(matches!(ok, Shape::ConvexPolygon { .. }));
}

#[test]
fn degenerate_ring_stores_fallback_circle() {
    // Three collinear vertices: enough points, but no area — the engine's
    // hull builder refuses it, so the stored descriptor is the fallback ball.
    let s = Shape::polygon(vec![Vec2Fx::new(0, 0), Vec2Fx::new(1_000, 0), Vec2Fx::new(2_000, 0)]);
    assert_eq!(s, Shape::Circle { radius: 5_000 });
}

#[test]
fn all_equal_ring_stores_fallback_circle() {
    // A ring of one repeated point is absorbed before the engine's hull
    // builder ever sees it: the builder aborts on that input.
    let p = Vec2Fx::new(5_000, 5_000);
    let s = Shape::polygon(vec![p, p, p]);
    assert_eq!(s, Shape::Circle { radius: 5_000 });
    let mut physics = Physics::new();
    let u = Unit::new_dyn_poly(vec![p, p, p], Vec2Fx::new(1_000, 1_000), 61, Vec2Fx::new(0, 0), &mut physics);
    assert_eq!(u.shapes[0], Shape::Circle { radius: 5_000 });
    assert_eq!(physics.get_physics_obj_num(), 1);
}

#[test]
fn body_part_holds_weak_collider_reference() {
    let mut p = BodyPart::add_new(Vec2Fx::new(1_000, 2_000), 3_000, Hue::Red);
    assert_eq!(p.get_rel_position(), Vec2Fx::new(1_000, 2_000));
    assert_eq!(p.get_color(), Hue::Red);
    assert!(p.get_collider_handler().is_none());
    assert_eq!(*p.get_shape(), Shape::Circle { radius: 3_000 });
    let mut physics = Physics::new();
    let u = Unit::new(77, 10_000, Vec2Fx::new(50_000, 50_000), 0, Vec2Fx::new(0, 0), &mut physics);
    let ch = u.body_parts[0].get_collider_handler().unwrap();
    p.set_collider_handle(ch);
    assert_eq!(p.get_collider_handler(), Some(ch));
}
