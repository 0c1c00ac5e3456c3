//! Propulsion model: throttle clamping, impulse derivation, steering.

use entity_physics::fx::{RotBits, Vec2Fx};
use entity_physics::jet::{Jet, JetEng};
use entity_physics::physics::Physics;
use entity_physics::sim::Simulation;

fn test_jet(physics: &mut Physics) -> Jet {
    Jet::new_dyn_poly(
        Simulation::jet_hull(),
        Vec2Fx::new(600_000, 400_000),
        7,
        Vec2Fx::new(0, 0),
        physics,
    )
}

#[test]
fn throttle_clamps_above_one() {
    let mut e = JetEng::new(Vec2Fx::new(0, 0), Vec2Fx::new(1000, 0), 500);
    e.power(5_000);
    assert_eq!(e.impulse, 500);
    let v = e.get_impulse();
    assert_eq!(v, Vec2Fx::new(500, 0));
}

#[test]
fn throttle_clamps_below_minus_one() {
    let mut e = JetEng::new(Vec2Fx::new(0, 0), Vec2Fx::new(1000, 0), 500);
    e.power(-5_000);
    assert_eq!(e.impulse, -500);
    assert_eq!(e.get_impulse(), Vec2Fx::new(-500, 0));
}

#[test]
fn throttle_scales_proportionally() {
    let mut e = JetEng::new(Vec2Fx::new(0, 0), Vec2Fx::new(1000, 0), 500);
    e.power(500);
    assert_eq!(e.impulse, 250);
    assert_eq!(e.get_impulse(), Vec2Fx::new(250, 0));
}

#[test]
fn throttle_monotonic_on_samples() {
    let mut prev = i64::MIN;
    for t in [-2_000i64, -1_000, -500, 0, 300, 1_000, 9_999] {
        let mut e = JetEng::new(Vec2Fx::new(0, 0), Vec2Fx::new(1000, 0), 500);
        e.power(t);
        assert!(e.impulse >= prev);
        assert!(e.impulse <= 500 && e.impulse >= -500);
        prev = e.impulse;
    }
}

#[test]
fn turn_left_world_impulses_opposite() {
    let mut physics = Physics::new();
    let mut jet = test_jet(&mut physics);
    jet.turn_left();
    assert_eq!(jet.engines[0].impulse, -500);
    assert_eq!(jet.engines[1].impulse, 500);
    let (w0, w1) = jet.world_impulses();
    assert_eq!(w0, Vec2Fx::new(-500, 0));
    assert_eq!(w1, Vec2Fx::new(500, 0));
    assert_eq!(w0.x, -w1.x);
    assert_eq!(w0.y, -w1.y);
}

#[test]
fn turn_right_world_impulses_opposite() {
    let mut physics = Physics::new();
    let mut jet = test_jet(&mut physics);
    jet.turn_right();
    let (w0, w1) = jet.world_impulses();
    assert_eq!(w0, Vec2Fx::new(500, 0));
    assert_eq!(w1, Vec2Fx::new(-500, 0));
}

#[test]
fn turn_impulses_opposite_under_rotation() {
    // A quarter turn: cosine zero, sine one. The engines' opposite local
    // impulses stay exactly opposite after rotation into world space.
    let rot = RotBits { re: 0.0f32.to_bits(), im: 1.0f32.to_bits() };
    let mut physics = Physics::new();
    let mut jet = test_jet(&mut physics);
    jet.turn_left();
    let w0 = jet.engines[0].world_impulse(rot);
    let w1 = jet.engines[1].world_impulse(rot);
    assert_eq!(w0, Vec2Fx::new(0, -500));
    assert_eq!(w1, Vec2Fx::new(0, 500));
}

#[test]
fn go_sets_both_engines_alike() {
    let mut physics = Physics::new();
    let mut jet = test_jet(&mut physics);
    jet.go(700);
    assert_eq!(jet.engines[0].impulse, 350);
    assert_eq!(jet.engines[1].impulse, 350);
    let (w0, w1) = jet.world_impulses();
    assert_eq!(w0, w1);
}
