//! Spawning, launching, time-to-live, explosions and destruction cleanup.

use shipsim::geom::Vec2;
use shipsim::ship::{fighter, frigate, missile, torpedo, ShipClass};
use shipsim::sim::Simulation;

#[test]
fn registry_and_stores_pair_per_handle() {
    let mut sim = Simulation::new();
    let a = sim.create(0, 0, 0, 0, 0, fighter(0));
    let b = sim.create(100, 0, 0, 0, 0, fighter(1));
    let c = sim.create(200, 0, 0, 0, 0, fighter(2));
    assert_eq!(sim.ships.len(), 3);
    for h in [a, b, c] {
        assert!(sim.bodies[h.index() as usize].is_some());
        assert!(sim.ship_data[h.index() as usize].is_some());
    }
    sim.explode(b);
    sim.tick(b);
    assert_eq!(sim.ships.len(), 2);
    assert!(sim.bodies[b.index() as usize].is_none());
    assert!(sim.ship_data[b.index() as usize].is_none());
    assert!(sim.bodies[a.index() as usize].is_some());
    assert!(sim.ship_data[c.index() as usize].is_some());
}

#[test]
fn integrator_fills_force_and_clears_intents() {
    let mut sim = Simulation::new();
    let h = sim.create(0, 0, 0, 0, 0, fighter(0));
    sim.accelerate(h, Vec2 { x: 10_000_000, y: 0 });
    assert_eq!(sim.data(h).acceleration, Vec2 { x: 200_000, y: 0 });
    sim.torque(h, 1_000);
    sim.tick(h);
    let b = sim.body(h);
    assert_eq!(b.force, Vec2 { x: 200_000, y: 0 });
    assert_eq!(b.torque, 1_000);
    assert_eq!(sim.data(h).acceleration, Vec2 { x: 0, y: 0 });
    assert_eq!(sim.data(h).angular_acceleration, 0);
}

#[test]
fn missile_ttl_expires_into_debris() {
    let mut sim = Simulation::new();
    let h = sim.create(0, 0, 0, 0, 0, missile(0));
    assert_eq!(sim.data(h).ttl, Some(600));
    for _ in 0..599 {
        sim.tick_all();
    }
    assert_eq!(sim.ships.len(), 1);
    assert_eq!(sim.data(h).ttl, Some(1));
    let _ = sim.take_projectiles();
    sim.tick_all();
    assert_eq!(sim.ships.len(), 0);
    assert!(sim.bodies[h.index() as usize].is_none());
    assert!(sim.ship_data[h.index() as usize].is_none());
    let debris = sim.take_projectiles();
    assert_eq!(debris.len(), 25);
    for p in &debris {
        assert_eq!(p.damage, 20_000);
        assert_eq!(p.ttl_ticks, 60);
        assert_eq!(p.color.alpha, 300);
        assert_eq!(p.position, Vec2 { x: 0, y: 0 });
    }
}

#[test]
fn explode_is_idempotent_within_a_tick() {
    let mut sim = Simulation::new();
    let h = sim.create(0, 0, 0, 0, 0, fighter(0));
    sim.explode(h);
    sim.explode(h);
    assert_eq!(sim.take_projectiles().len(), 25);
    assert!(sim.data(h).destroyed);
}

#[test]
fn torpedo_debris_is_heavier() {
    let mut sim = Simulation::new();
    let h = sim.create(0, 0, 0, 0, 0, torpedo(0));
    sim.explode(h);
    let debris = sim.take_projectiles();
    assert_eq!(debris.len(), 50);
    for p in &debris {
        assert_eq!(p.damage, 50_000);
    }
}

#[test]
fn destroyed_ship_is_evicted_on_next_pass() {
    let mut sim = Simulation::new();
    let a = sim.create(0, 0, 0, 0, 0, fighter(0));
    let b = sim.create(500, 0, 0, 0, 0, fighter(1));
    sim.explode(a);
    sim.tick_all();
    assert_eq!(sim.ships.len(), 1);
    assert_eq!(sim.ships[0], b);
    assert!(sim.bodies[a.index() as usize].is_none());
    assert!(sim.bodies[b.index() as usize].is_some());
}

#[test]
fn frigate_launch_spawns_a_missile_with_orders() {
    let mut sim = Simulation::new();
    let h = sim.create(0, 0, 0, 0, 0, frigate(3));
    sim.register_team_controller(3);
    sim.launch_missile(h, 0, "orders-bytes".to_string());
    assert_eq!(sim.ships.len(), 2);
    let m = sim.ships[1];
    assert!(matches!(sim.data(m).class, ShipClass::Missile));
    assert_eq!(sim.data(m).team, 3);
    assert_eq!(sim.data(m).ttl, Some(600));
    let mb = sim.body(m);
    assert_eq!(mb.translation, Vec2 { x: 32_000, y: 0 });
    assert_eq!(mb.linvel, Vec2 { x: 100_000, y: 0 });
    assert_eq!(mb.rotation, 0);
    assert_eq!(mb.restitution, 0);
    assert_eq!(sim.data(h).missile_launchers[0].reload_time_remaining, 120);
    let reqs = sim.take_controller_requests();
    assert_eq!(reqs.len(), 1);
    assert_eq!(reqs[0].handle, m);
    assert_eq!(reqs[0].team, 3);
    assert_eq!(reqs[0].orders, "orders-bytes");
}

#[test]
fn launch_is_gated_by_reload_and_index() {
    let mut sim = Simulation::new();
    let h = sim.create(0, 0, 0, 0, 0, frigate(0));
    sim.launch_missile(h, 0, String::new());
    assert_eq!(sim.ships.len(), 2);
    sim.launch_missile(h, 0, String::new());
    assert_eq!(sim.ships.len(), 2);
    sim.launch_missile(h, 7, String::new());
    sim.launch_missile(h, -1, String::new());
    assert_eq!(sim.ships.len(), 2);
}

#[test]
fn launched_missile_joins_from_the_next_tick() {
    let mut sim = Simulation::new();
    let h = sim.create(0, 0, 0, 0, 0, frigate(0));
    let snapshot = sim.snapshot_ships();
    sim.launch_missile(h, 0, String::new());
    let m = sim.ships[1];
    sim.tick_ships(&snapshot);
    assert_eq!(sim.data(m).ttl, Some(600));
    assert_eq!(sim.data(h).missile_launchers[0].reload_time_remaining, 119);
    let snapshot2 = sim.snapshot_ships();
    sim.tick_ships(&snapshot2);
    assert_eq!(sim.data(m).ttl, Some(599));
}

#[test]
fn controller_outcomes_are_recorded() {
    let mut sim = Simulation::new();
    sim.register_team_controller(4);
    let h = sim.create(0, 0, 0, 0, 0, fighter(4));
    let reqs = sim.take_controller_requests();
    assert_eq!(reqs.len(), 1);
    assert_eq!(reqs[0].handle, h);
    sim.install_controller(h, Ok(()));
    assert_eq!(sim.controllers, vec![h]);
    let h2 = sim.create(0, 0, 0, 0, 0, fighter(4));
    sim.install_controller(h2, Err("no entry point".to_string()));
    assert_eq!(sim.errors.len(), 1);
    assert_eq!(sim.errors[0], "no entry point");
    assert_eq!(sim.ships.len(), 2);
}

#[test]
fn spawns_without_factory_queue_no_request() {
    let mut sim = Simulation::new();
    sim.register_team_controller(1);
    let _ = sim.create(0, 0, 0, 0, 0, fighter(2));
    assert_eq!(sim.take_controller_requests().len(), 0);
}
