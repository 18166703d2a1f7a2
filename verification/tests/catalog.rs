//! The per-class catalog: tuning values in milli-units, micro-radians and
//! ticks.

use shipsim::ship::{
    asteroid, cruiser, fighter, frigate, missile, target, torpedo, ShipClass, ShipData,
    DOUBLE_TAU_URAD, EIGHTH_TAU_URAD, QUARTER_TAU_URAD, SIXTEENTH_TAU_URAD, TICKS_PER_SECOND,
};
use shipsim::geom::Vec2;
use shipsim::trig::TAU_URAD;

#[test]
fn fighter_tuning() {
    let d = fighter(2);
    assert!(matches!(d.class, ShipClass::Fighter));
    assert_eq!(d.team, 2);
    assert_eq!(d.health, 100_000);
    assert_eq!(d.max_acceleration, Vec2 { x: 200_000, y: 100_000 });
    assert_eq!(d.max_angular_acceleration, TAU_URAD);
    assert_eq!(d.guns.len(), 1);
    let g = &d.guns[0];
    assert_eq!(g.reload_time, TICKS_PER_SECOND / 5);
    assert_eq!(g.reload_time_remaining, 0);
    assert_eq!(g.damage, 20_000);
    assert_eq!(g.speed, 1_000_000);
    assert_eq!(g.offset, Vec2 { x: 20_000, y: 0 });
    assert_eq!(g.inaccuracy, 17_000);
    assert_eq!(g.burst_size, 1);
    assert_eq!(d.missile_launchers.len(), 1);
    let l = &d.missile_launchers[0];
    assert!(matches!(l.class, ShipClass::Missile));
    assert_eq!(l.reload_time, 5 * TICKS_PER_SECOND);
    assert_eq!(l.initial_speed, 100_000);
    assert_eq!(d.radar_cross_section, 10_000);
    assert_eq!(d.radar.unwrap().power, 20_000_000);
    assert_eq!(d.ttl, None);
    assert!(!d.destroyed);
}

#[test]
fn frigate_tuning() {
    let d = frigate(0);
    assert_eq!(d.health, 10_000_000);
    assert_eq!(d.guns.len(), 3);
    let main = &d.guns[0];
    assert_eq!(main.reload_time, 60);
    assert_eq!(main.damage, 1_000_000);
    assert_eq!(main.speed, 4_000_000);
    assert_eq!(main.offset, Vec2 { x: 40_000, y: 0 });
    assert_eq!(main.inaccuracy, 0);
    assert_eq!(d.guns[1].offset, Vec2 { x: 0, y: 15_000 });
    assert_eq!(d.guns[2].offset, Vec2 { x: 0, y: -15_000 });
    assert_eq!(d.missile_launchers[0].offset, Vec2 { x: 32_000, y: 0 });
    assert_eq!(d.missile_launchers[0].reload_time, 120);
    assert_eq!(d.max_acceleration, Vec2 { x: 20_000, y: 10_000 });
    assert_eq!(d.max_angular_acceleration, EIGHTH_TAU_URAD);
    assert_eq!(d.radar_cross_section, 30_000);
}

#[test]
fn cruiser_tuning() {
    let d = cruiser(1);
    assert_eq!(d.guns.len(), 1);
    assert_eq!(d.guns[0].burst_size, 5);
    assert_eq!(d.guns[0].inaccuracy, 35_000);
    assert_eq!(d.guns[0].reload_time, 12);
    assert_eq!(d.missile_launchers.len(), 3);
    assert_eq!(d.missile_launchers[0].offset, Vec2 { x: 0, y: 30_000 });
    assert_eq!(d.missile_launchers[0].angle, QUARTER_TAU_URAD);
    assert_eq!(d.missile_launchers[1].offset, Vec2 { x: 0, y: -30_000 });
    assert_eq!(d.missile_launchers[1].angle, -QUARTER_TAU_URAD);
    assert!(matches!(d.missile_launchers[2].class, ShipClass::Torpedo));
    assert_eq!(d.missile_launchers[2].offset, Vec2 { x: 100_000, y: 0 });
    assert_eq!(d.missile_launchers[2].reload_time, 180);
    assert_eq!(d.max_acceleration, Vec2 { x: 10_000, y: 50_000 });
    assert_eq!(d.max_angular_acceleration, SIXTEENTH_TAU_URAD);
    assert_eq!(d.radar_cross_section, 40_000);
}

#[test]
fn missile_and_torpedo_tuning() {
    let m = missile(4);
    assert!(matches!(m.class, ShipClass::Missile));
    assert_eq!(m.health, 1_000);
    assert_eq!(m.team, 4);
    assert_eq!(m.max_acceleration, Vec2 { x: 400_000, y: 100_000 });
    assert_eq!(m.max_angular_acceleration, DOUBLE_TAU_URAD);
    assert_eq!(m.ttl, Some(600));
    assert_eq!(m.radar_cross_section, 3_000);
    assert!(m.guns.is_empty());
    assert!(m.missile_launchers.is_empty());

    let t = torpedo(4);
    assert!(matches!(t.class, ShipClass::Torpedo));
    assert_eq!(t.health, 100_000);
    assert_eq!(t.max_acceleration, Vec2 { x: 200_000, y: 50_000 });
    assert_eq!(t.ttl, Some(1200));
    assert_eq!(t.radar_cross_section, 8_000);
}

#[test]
fn asteroid_and_target_tuning() {
    let a = asteroid(3);
    assert!(matches!(a.class, ShipClass::Asteroid { variant: 3 }));
    assert_eq!(a.health, 200_000);
    assert_eq!(a.team, 9);
    assert_eq!(a.max_acceleration, Vec2 { x: 0, y: 0 });
    assert!(a.radar.is_none());

    let t = target(5);
    assert!(matches!(t.class, ShipClass::Target));
    assert_eq!(t.health, 1_000);
    assert_eq!(t.team, 5);
}

#[test]
fn default_data_is_inert() {
    let d = ShipData::default();
    assert!(matches!(d.class, ShipClass::Fighter));
    assert!(d.guns.is_empty());
    assert!(d.missile_launchers.is_empty());
    assert_eq!(d.health, 100_000);
    assert_eq!(d.acceleration, Vec2 { x: 0, y: 0 });
    assert_eq!(d.max_acceleration, Vec2 { x: 0, y: 0 });
    assert!(!d.destroyed);
    assert!(d.radar.is_none());
    assert_eq!(d.radar_cross_section, 10_000);
    assert_eq!(d.ttl, None);
}

#[test]
fn class_names() {
    assert_eq!(ShipClass::Fighter.name(), "fighter");
    assert_eq!(ShipClass::Frigate.name(), "frigate");
    assert_eq!(ShipClass::Cruiser.name(), "cruiser");
    assert_eq!(ShipClass::Asteroid { variant: 1 }.name(), "asteroid");
    assert_eq!(ShipClass::Target.name(), "target");
    assert_eq!(ShipClass::Missile.name(), "missile");
    assert_eq!(ShipClass::Torpedo.name(), "torpedo");
}
