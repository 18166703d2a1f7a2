//! Actuator clamping, aiming, handles and accessors.

use shipsim::geom::Vec2;
use shipsim::ship::{fighter, ShipHandle, QUARTER_TAU_URAD};
use shipsim::sim::Simulation;
use shipsim::trig::{HALF_PI_URAD, TAU_URAD};

#[test]
fn handle_identity_packs_generation_and_index() {
    let h = ShipHandle { generation: 0, index: 7 };
    assert_eq!(h.index(), 7);
    assert_eq!(h.to_u64(), 7);
    let h2 = ShipHandle { generation: 1, index: 7 };
    assert_eq!(h2.to_u64(), (1u64 << 32) | 7);
}

#[test]
fn thrust_is_clamped_componentwise() {
    let mut sim = Simulation::new();
    let h = sim.create(0, 0, 0, 0, 0, fighter(0));
    sim.accelerate(h, Vec2 { x: 10_000_000, y: 0 });
    assert_eq!(sim.data(h).acceleration, Vec2 { x: 200_000, y: 0 });
    sim.accelerate(h, Vec2 { x: -10_000_000, y: 50_000 });
    assert_eq!(sim.data(h).acceleration, Vec2 { x: -200_000, y: 50_000 });
    sim.accelerate(h, Vec2 { x: 5_000, y: -999_999 });
    assert_eq!(sim.data(h).acceleration, Vec2 { x: 5_000, y: -100_000 });
}

#[test]
fn last_acceleration_request_wins() {
    let mut sim = Simulation::new();
    let h = sim.create(0, 0, 0, 0, 0, fighter(0));
    sim.accelerate(h, Vec2 { x: 123_456, y: 1 });
    sim.accelerate(h, Vec2 { x: 7, y: 8 });
    assert_eq!(sim.data(h).acceleration, Vec2 { x: 7, y: 8 });
}

#[test]
fn torque_is_clamped_to_class_limit() {
    let mut sim = Simulation::new();
    let h = sim.create(0, 0, 0, 0, 0, fighter(0));
    sim.torque(h, 999_999_999);
    assert_eq!(sim.data(h).angular_acceleration, TAU_URAD);
    sim.torque(h, -999_999_999);
    assert_eq!(sim.data(h).angular_acceleration, -TAU_URAD);
    sim.torque(h, 1_234);
    assert_eq!(sim.data(h).angular_acceleration, 1_234);
}

#[test]
fn aim_stores_the_given_angle_and_ignores_bad_indices() {
    let mut sim = Simulation::new();
    let h = sim.create(0, 0, 0, 0, 0, fighter(0));
    sim.aim_gun(h, 0, -HALF_PI_URAD);
    assert_eq!(sim.data(h).guns[0].angle, -HALF_PI_URAD);
    sim.aim_gun(h, 0, QUARTER_TAU_URAD + TAU_URAD);
    assert_eq!(sim.data(h).guns[0].angle, QUARTER_TAU_URAD + TAU_URAD);
    sim.aim_gun(h, 0, i64::MAX);
    assert_eq!(sim.data(h).guns[0].angle, shipsim::geom::ANGLE_LIMIT);
    let before = sim.data(h).guns[0].angle;
    sim.aim_gun(h, 5, 1);
    sim.aim_gun(h, -1, 1);
    assert_eq!(sim.data(h).guns[0].angle, before);
}

#[test]
fn readers_report_the_spawn_pose() {
    let mut sim = Simulation::new();
    let h = sim.create(1_000, -2_000, 30, 40, 2 * TAU_URAD + 5, fighter(0));
    assert_eq!(sim.position(h), Vec2 { x: 1_000, y: -2_000 });
    assert_eq!(sim.velocity(h), Vec2 { x: 30, y: 40 });
    assert_eq!(sim.heading(h), 5);
    assert_eq!(sim.angular_velocity(h), 0);
    let b = sim.body(h);
    assert_eq!(b.rotation, 2 * TAU_URAD + 5);
    assert_eq!(b.restitution, 100);
    assert!(b.ccd_enabled);
    assert_eq!(sim.radar(h).unwrap().power, 20_000_000);
}
