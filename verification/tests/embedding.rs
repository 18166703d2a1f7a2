//! The write hooks the external collaborators use: body state, mass
//! properties, radar tuning and external damage.

use shipsim::geom::Vec2;
use shipsim::ship::{fighter, Radar};
use shipsim::sim::{Body, Simulation};

#[test]
fn set_body_writes_the_stepped_state_back() {
    let mut sim = Simulation::new();
    let h = sim.create(0, 0, 0, 0, 0, fighter(0));
    let b = Body { translation: Vec2 { x: 5_000, y: -3_000 }, linvel: Vec2 { x: 700, y: 800 }, ..sim.body(h) };
    sim.set_body(h, b);
    assert_eq!(sim.position(h), Vec2 { x: 5_000, y: -3_000 });
    assert_eq!(sim.velocity(h), Vec2 { x: 700, y: 800 });
}

#[test]
fn mass_properties_scale_force_and_torque() {
    let mut sim = Simulation::new();
    let h = sim.create(0, 0, 0, 0, 0, fighter(0));
    sim.set_mass_properties(h, 2_000, 3_000);
    assert_eq!(sim.body(h).mass, 2_000);
    assert_eq!(sim.body(h).inertia, 3_000);
    sim.accelerate(h, Vec2 { x: 200_000, y: 0 });
    sim.torque(h, 1_000);
    sim.tick(h);
    assert_eq!(sim.body(h).force, Vec2 { x: 400_000, y: 0 });
    assert_eq!(sim.body(h).torque, 3_000);
}

#[test]
fn radar_tuning_can_be_replaced() {
    let mut sim = Simulation::new();
    let h = sim.create(0, 0, 0, 0, 0, fighter(0));
    let mut radar = sim.radar(h).unwrap();
    radar.heading = 1_234;
    sim.set_radar(h, radar);
    assert_eq!(sim.radar(h).unwrap().heading, 1_234);
    assert_eq!(sim.radar(h).unwrap().power, 20_000_000);
}

#[test]
fn external_damage_destroys_through_set_data() {
    let mut sim = Simulation::new();
    let h = sim.create(0, 0, 0, 0, 0, fighter(0));
    let mut d = sim.data(h).clone();
    d.health = 0;
    d.destroyed = true;
    sim.set_data(h, d);
    let _ = sim.take_projectiles();
    sim.tick_all();
    assert_eq!(sim.ships.len(), 0);
    assert!(sim.bodies[h.index() as usize].is_none());
    assert_eq!(sim.take_projectiles().len(), 0);
}

#[test]
fn radar_of_unarmed_hull() {
    let mut sim = Simulation::new();
    let h = sim.create(0, 0, 0, 0, 0, shipsim::ship::asteroid(0));
    assert!(matches!(sim.radar(h), Option::<Radar>::None));
}
