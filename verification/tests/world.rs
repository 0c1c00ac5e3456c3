//! The physics world: spawn, query, stale-handle defaults, removal, step.

use entity_physics::fx::{rot_identity, Vec2Fx};
use entity_physics::physics::{Physics, PhysicsProperities, BITS_TENTH};
use entity_physics::fx::BITS_ONE;
use entity_physics::unit::Unit;

fn center() -> Vec2Fx {
    Vec2Fx::new(600_000, 450_000)
}

#[test]
fn spawn_then_query_exact_position() {
    let mut physics = Physics::new();
    let u = Unit::new_dyn_circle(10_000, center(), 1, 0, Vec2Fx::new(1000, 0), &mut physics);
    let d = physics.get_physics_data(u.physics_handles[0]);
    assert_eq!(d.position, center());
    assert!(d.mass != 0);
    assert!(d.kin_eng.is_some());
    assert!(d.force.is_some());
}

#[test]
fn spawn_step_once_moves_off_center() {
    let mut physics = Physics::new();
    let mut u = Unit::new_dyn_circle(10_000, center(), 1, 0, Vec2Fx::new(1000, 0), &mut physics);
    u.update(&physics);
    assert_eq!(u.pos, center());
    physics.step_physics();
    u.update(&physics);
    assert_ne!(u.pos, center());
    // The scatter direction points along the positive first axis.
    assert!(u.pos.x > center().x);
}

#[test]
fn stale_handle_gets_default_snapshot() {
    let mut physics = Physics::new();
    let u = Unit::new_dyn_circle(9_000, Vec2Fx::new(100_000, 200_000), 2, 0, Vec2Fx::new(0, 0), &mut physics);
    let h = u.physics_handles[0];
    physics.remove_physics_object(h);
    let d = physics.get_physics_data(h);
    assert_eq!(d.position, center());
    assert_eq!(d.rotation, rot_identity());
    assert_eq!(d.mass, 0);
    assert_eq!(d.kin_eng, Some(0));
    assert_eq!(d.force, None);
}

#[test]
fn stale_handle_not_last_known_value() {
    let mut physics = Physics::new();
    let spawn = Vec2Fx::new(100_000, 200_000);
    let u = Unit::new_dyn_circle(9_000, spawn, 3, 0, Vec2Fx::new(0, 0), &mut physics);
    let h = u.physics_handles[0];
    assert_eq!(physics.get_physics_data(h).position, spawn);
    physics.remove_physics_object(h);
    assert_ne!(physics.get_physics_data(h).position, spawn);
}

#[test]
fn removal_is_absorbed_not_fatal() {
    let mut physics = Physics::new();
    let u = Unit::new_dyn_circle(9_000, center(), 4, 0, Vec2Fx::new(0, 0), &mut physics);
    let h = u.physics_handles[0];
    assert_eq!(physics.get_physics_obj_num(), 1);
    physics.remove_physics_object(h);
    assert_eq!(physics.get_physics_obj_num(), 0);
    // Removing again, applying impulses, and stepping are all no-ops or safe.
    physics.remove_physics_object(h);
    physics.apply_impulse_at_point(h, Vec2Fx::new(100, 0), (0, 0));
    physics.step_physics();
    assert_eq!(physics.get_physics_obj_num(), 0);
}

#[test]
fn collider_size_reports_primary_ball() {
    let mut physics = Physics::new();
    let u = Unit::new_dyn_circle(12_345, center(), 5, 0, Vec2Fx::new(0, 0), &mut physics);
    assert_eq!(physics.get_collider_size(u.physics_handles[0]), Some(12_345));
    let r = Unit::new_static_rect((20_000, 9_000), Vec2Fx::new(10_000, 10_000), 6, &mut physics);
    assert_eq!(physics.get_collider_size(r.physics_handles[0]), None);
}

#[test]
fn presets_hold_documented_patterns() {
    let b = PhysicsProperities::bounce();
    assert_eq!(b.friction, 0);
    assert_eq!(f32::from_bits(b.restitution), 1.0);
    assert_eq!(f32::from_bits(b.density), 1.0);
    assert_eq!(f32::from_bits(b.linear_damping), 0.1);
    let f = PhysicsProperities::free();
    assert_eq!(f32::from_bits(f.density), 0.1);
    assert_eq!(f32::from_bits(f.linear_damping), 0.01);
    let d = PhysicsProperities::default();
    assert_eq!(f32::from_bits(d.friction), 0.5);
    assert_eq!(f32::from_bits(d.angular_damping), 0.9);
    assert_eq!(BITS_ONE, 1.0f32.to_bits());
    assert_eq!(BITS_TENTH, 0.1f32.to_bits());
}

#[test]
fn rotation_convention_is_half_turn() {
    // The exposed rotation for a live, never-rotated body is the identity
    // turned by half a turn: cosine minus one, sine minus zero.
    let mut physics = Physics::new();
    let u = Unit::new_dyn_circle(9_000, center(), 8, 0, Vec2Fx::new(0, 0), &mut physics);
    let d = physics.get_physics_data(u.physics_handles[0]);
    assert_eq!(f32::from_bits(d.rotation.re), -1.0);
    assert_eq!(f32::from_bits(d.rotation.im), -0.0);
}

#[test]
fn static_body_pose_survives_steps() {
    let mut physics = Physics::new();
    let r = Unit::new_static_rect((20_000, 9_000), Vec2Fx::new(100_000, 100_000), 7, &mut physics);
    let h = r.physics_handles[0];
    for _ in 0..3 {
        physics.step_physics();
    }
    let d = physics.get_physics_data(h);
    assert_eq!(d.position, Vec2Fx::new(100_000, 100_000));
}
