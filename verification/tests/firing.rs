//! Gun firing: cooldown gating, bursts, deterministic inaccuracy and
//! projectile records.

use shipsim::geom::Vec2;
use shipsim::ship::{cruiser, fighter, frigate, QUARTER_TAU_URAD};
use shipsim::sim::Simulation;

#[test]
fn fighter_cooldown_lets_one_shot_through() {
    let mut sim = Simulation::new();
    let h = sim.create(0, 0, 0, 0, 0, fighter(0));
    for _ in 0..5 {
        sim.fire_gun(h, 0);
    }
    let ps = sim.take_projectiles();
    assert_eq!(ps.len(), 1);
    let p = &ps[0];
    assert_eq!(p.position, Vec2 { x: 20_000, y: 0 });
    assert!(p.velocity.x > 999_000 && p.velocity.x <= 1_000_000);
    assert!(p.velocity.y.abs() <= 17_500);
    assert_eq!(p.damage, 20_000);
    assert_eq!(p.ttl_ticks, 300);
    assert_eq!(p.color.alpha, 500);
    assert_eq!(sim.data(h).guns[0].reload_time_remaining, 12);
    sim.tick(h);
    assert_eq!(sim.data(h).guns[0].reload_time_remaining, 11);
}

#[test]
fn firing_while_reloading_changes_nothing() {
    let mut sim = Simulation::new();
    let h = sim.create(0, 0, 0, 0, 0, fighter(0));
    sim.fire_gun(h, 0);
    let _ = sim.take_projectiles();
    let before = sim.data(h).clone();
    sim.fire_gun(h, 0);
    assert_eq!(sim.take_projectiles().len(), 0);
    assert_eq!(*sim.data(h), before);
}

#[test]
fn reload_is_additive_and_catches_up() {
    let mut sim = Simulation::new();
    let h = sim.create(0, 0, 0, 0, 0, fighter(0));
    sim.fire_gun(h, 0);
    for _ in 0..12 {
        sim.tick(h);
    }
    assert_eq!(sim.data(h).guns[0].reload_time_remaining, 0);
    sim.fire_gun(h, 0);
    assert_eq!(sim.take_projectiles().len(), 2);
}

#[test]
fn out_of_range_gun_indices_are_silent() {
    let mut sim = Simulation::new();
    let h = sim.create(0, 0, 0, 0, 0, fighter(0));
    sim.fire_gun(h, 1);
    sim.fire_gun(h, -3);
    sim.fire_gun(h, i64::MAX);
    assert_eq!(sim.take_projectiles().len(), 0);
    assert_eq!(sim.data(h).guns[0].reload_time_remaining, 0);
}

#[test]
fn frigate_main_gun_is_exact_without_jitter() {
    let mut sim = Simulation::new();
    let h = sim.create(0, 0, 0, 0, 0, frigate(1));
    sim.fire_gun(h, 0);
    let ps = sim.take_projectiles();
    assert_eq!(ps.len(), 1);
    assert_eq!(ps[0].position, Vec2 { x: 40_000, y: 0 });
    assert_eq!(ps[0].velocity, Vec2 { x: 4_000_000, y: 0 });
    assert_eq!(ps[0].damage, 1_000_000);
    assert_eq!(ps[0].team, 1);
    assert_eq!(ps[0].color.alpha, 1_000);
}

#[test]
fn aimed_gun_rotates_the_muzzle() {
    let mut sim = Simulation::new();
    let h = sim.create(0, 0, 0, 0, 0, frigate(0));
    sim.aim_gun(h, 0, QUARTER_TAU_URAD);
    sim.fire_gun(h, 0);
    let ps = sim.take_projectiles();
    assert_eq!(ps[0].velocity, Vec2 { x: 0, y: 4_000_000 });

    let mut sim2 = Simulation::new();
    let h2 = sim2.create(0, 0, 0, 0, 0, frigate(0));
    sim2.aim_gun(h2, 0, QUARTER_TAU_URAD + shipsim::trig::TAU_URAD);
    sim2.fire_gun(h2, 0);
    assert_eq!(sim2.take_projectiles()[0].velocity, Vec2 { x: 0, y: 4_000_000 });
}

#[test]
fn color_alpha_tracks_the_damage_magnitude() {
    for (damage, alpha) in [
        (1_000, 500),
        (20_000, 500),
        (31_000, 500),
        (50_000, 560),
        (100_000, 660),
        (500_000, 890),
        (1_000_000, 1_000),
        (5_000_000, 1_000),
    ] {
        let mut sim = Simulation::new();
        let mut d = fighter(0);
        d.guns[0].damage = damage;
        d.guns[0].inaccuracy = 0;
        let h = sim.create(0, 0, 0, 0, 0, d);
        sim.fire_gun(h, 0);
        let ps = sim.take_projectiles();
        assert_eq!(ps[0].color.alpha, alpha);
        assert_eq!(ps[0].damage, damage);
    }
}

#[test]
fn cruiser_burst_is_five_and_reruns_identically() {
    let mut sim = Simulation::new();
    let h = sim.create(0, 0, 0, 0, 0, cruiser(0));
    sim.fire_gun(h, 0);
    let ps = sim.take_projectiles();
    assert_eq!(ps.len(), 5);
    for p in &ps {
        assert_eq!(p.position, Vec2 { x: 0, y: 0 });
        assert!(p.velocity.x > 998_000 && p.velocity.x <= 1_000_000);
        assert!(p.velocity.y.abs() <= 36_000);
    }
    let mut jitters: Vec<i64> = ps.iter().map(|p| p.velocity.y).collect();
    jitters.dedup();
    assert!(jitters.len() > 1);

    let mut sim2 = Simulation::new();
    let h2 = sim2.create(0, 0, 0, 0, 0, cruiser(0));
    sim2.fire_gun(h2, 0);
    assert_eq!(ps, sim2.take_projectiles());
}

#[test]
fn fire_seed_depends_on_tick() {
    let mut sim = Simulation::new();
    let h = sim.create(0, 0, 0, 0, 0, cruiser(0));
    sim.fire_gun(h, 0);
    let first = sim.take_projectiles();
    for _ in 0..12 {
        sim.tick_all();
    }
    sim.fire_gun(h, 0);
    let second = sim.take_projectiles();
    assert_eq!(first.len(), 5);
    assert_eq!(second.len(), 5);
    assert_ne!(first, second);
}
