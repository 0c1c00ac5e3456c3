//! The simulation loop: pose lag, selection, palette and helpers.

use entity_physics::collector::SpawnSeed;
use entity_physics::fx::{clamp_milli, half_turn, rot_identity, Vec2Fx};
use entity_physics::shape::{palette_color, Hue};
use entity_physics::sim::Simulation;
use entity_physics::util::{contact_mouse, wrap_around};

fn seed(key: u64, x: i64, y: i64) -> SpawnSeed {
    SpawnSeed {
        key,
        size: 10_000,
        position: Vec2Fx::new(x, y),
        color_ix: key,
        scatter: Vec2Fx::new(1000, 0),
    }
}

#[test]
fn rendered_pose_lags_one_step() {
    let mut sim = Simulation::new();
    let seeds = vec![seed(1, 300_000, 300_000), seed(2, 500_000, 200_000)];
    sim.init(9, Vec2Fx::new(600_000, 400_000), Vec2Fx::new(0, 0), &seeds);
    // Frame 1: update pulls the pre-step pose; a constant throttle is on.
    sim.jet[0].go(1000);
    sim.update();
    let unit_pos = sim.units.units[0].pos;
    let jet_pos = sim.jet[0].pos;
    assert_eq!(unit_pos, Vec2Fx::new(300_000, 300_000));
    assert_eq!(jet_pos, Vec2Fx::new(600_000, 400_000));
    // The step integrates, but every cached pose still shows the pre-step
    // world: what the render pass drew is one frame behind.
    sim.step_physics();
    assert_eq!(sim.units.units[0].pos, unit_pos);
    assert_eq!(sim.jet[0].pos, jet_pos);
    // Only the next update pass reveals the integrated state.
    sim.update();
    assert_ne!(sim.units.units[0].pos, unit_pos);
}

#[test]
fn update_mirrors_physics_each_frame() {
    let mut sim = Simulation::new();
    let seeds = vec![seed(1, 300_000, 300_000)];
    sim.init(9, Vec2Fx::new(600_000, 400_000), Vec2Fx::new(0, 0), &seeds);
    for _ in 0..3 {
        sim.update();
        sim.step_physics();
    }
    sim.update();
    let h = sim.units.units[0].physics_handles[0];
    let d = sim.physics.get_physics_data(h);
    assert_eq!(sim.units.units[0].pos, d.position);
    assert_eq!(sim.units.units[0].rot, d.rotation);
}

#[test]
fn selection_finds_entity_under_pointer() {
    let mut sim = Simulation::new();
    let seeds = vec![seed(1, 300_000, 300_000), seed(2, 500_000, 200_000)];
    sim.init(9, Vec2Fx::new(600_000, 400_000), Vec2Fx::new(0, 0), &seeds);
    sim.update();
    sim.select_at(Vec2Fx::new(300_000, 300_000));
    assert_eq!(sim.selected_unit, Some(1));
    sim.select_at(Vec2Fx::new(500_000, 201_000));
    assert_eq!(sim.selected_unit, Some(2));
    sim.select_at(Vec2Fx::new(0, 0));
    assert_eq!(sim.selected_unit, None);
}

#[test]
fn contact_test_is_exact_at_the_boundary() {
    let m = Vec2Fx::new(0, 0);
    assert!(contact_mouse(m, Vec2Fx::new(5_000, 0), 3_000));
    assert!(!contact_mouse(m, Vec2Fx::new(5_001, 0), 3_000));
    assert!(contact_mouse(m, Vec2Fx::new(3_000, 4_000), 3_000));
    assert!(!contact_mouse(m, Vec2Fx::new(3_001, 4_000), 3_000));
    // Far-away targets never make contact, whatever the coordinates.
    assert!(!contact_mouse(m, Vec2Fx::new(i64::MAX, i64::MIN), 16_000_000));
}

#[test]
fn wrap_around_each_edge() {
    assert_eq!(wrap_around(&Vec2Fx::new(1_205_001, 100)), Vec2Fx::new(-5_000, 100));
    assert_eq!(wrap_around(&Vec2Fx::new(-5_001, 100)), Vec2Fx::new(1_205_000, 100));
    assert_eq!(wrap_around(&Vec2Fx::new(100, 905_001)), Vec2Fx::new(100, -5_000));
    assert_eq!(wrap_around(&Vec2Fx::new(100, -5_001)), Vec2Fx::new(100, 905_000));
    assert_eq!(wrap_around(&Vec2Fx::new(100, 200)), Vec2Fx::new(100, 200));
}

#[test]
fn palette_cycles_eight_hues() {
    assert_eq!(palette_color(0), Hue::Red);
    assert_eq!(palette_color(3), Hue::Yellow);
    assert_eq!(palette_color(7), Hue::Lime);
    assert_eq!(palette_color(8), Hue::Red);
}

#[test]
fn clamp_and_half_turn_are_exact() {
    assert_eq!(clamp_milli(1_500), 1_000);
    assert_eq!(clamp_milli(-1_500), -1_000);
    assert_eq!(clamp_milli(-999), -999);
    let flipped = half_turn(rot_identity());
    assert_eq!(f32::from_bits(flipped.re), -1.0);
    assert_eq!(f32::from_bits(flipped.im), -0.0);
    assert_eq!(half_turn(flipped), rot_identity());
}

#[test]
fn body_count_matches_spawns() {
    let mut sim = Simulation::new();
    assert_eq!(sim.physics.get_physics_obj_num(), 0);
    let seeds = vec![seed(1, 300_000, 300_000), seed(2, 500_000, 200_000)];
    sim.init(9, Vec2Fx::new(600_000, 400_000), Vec2Fx::new(0, 0), &seeds);
    assert_eq!(sim.physics.get_physics_obj_num(), 3);
}

#[test]
fn constant_thrust_integrates_over_frames() {
    let mut sim = Simulation::new();
    let seeds: Vec<SpawnSeed> = Vec::new();
    sim.init(9, Vec2Fx::new(600_000, 400_000), Vec2Fx::new(0, 0), &seeds);
    let start = sim.jet[0].pos;
    for _ in 0..5 {
        sim.jet[0].go(1000);
        sim.update();
        sim.step_physics();
    }
    sim.update();
    // Under the half-turn orientation convention the shared engine axis
    // points along the negative first axis at spawn.
    assert!(sim.jet[0].pos.x < start.x);
    assert_eq!(sim.jet[0].engines[0].impulse, 500);
}
