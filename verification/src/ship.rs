//! Ship data: handles, classes, armament, and the per-class catalog.
//!
//! Times are whole physics ticks (60 per second), distances and speeds are
//! milli-units, angles are micro-radians.

use vstd::prelude::*;
use crate::geom::{
    Vec2,
    ACCEL_LIMIT,
    ANGLE_LIMIT,
    ANG_ACCEL_LIMIT,
    OFFSET_LIMIT,
    SPEED_LIMIT,
};
use crate::trig::TAU_URAD;

verus! {

/// Physics ticks in one second; every reload time is a whole number of
/// ticks.
pub const TICKS_PER_SECOND: u32 = 60;

/// An eighth of a turn, in micro-radians.
pub const EIGHTH_TAU_URAD: i64 = 785_398;

/// A sixteenth of a turn, in micro-radians.
pub const SIXTEENTH_TAU_URAD: i64 = 392_699;

/// A quarter of a turn, in micro-radians.
pub const QUARTER_TAU_URAD: i64 = 1_570_796;

/// Two full turns, in micro-radians.
pub const DOUBLE_TAU_URAD: i64 = 12_566_368;

/// The radar beam width every class ships with, a sixth of a turn.
pub const RADAR_WIDTH_URAD: i64 = 1_047_197;

/// Stable identity of a ship: a generation and slot-index pair, shared
/// with the backing rigid body in the physics world.
#[derive(Clone, Copy, PartialEq, Eq, Structural, Debug, Hash)]
pub struct ShipHandle {
    pub generation: u32,
    pub index: u32,
}

impl ShipHandle {
    /// The slot index of the handle.
    pub fn index(self) -> (r: u32)
        ensures
            r == self.index,
    {
        self.index
    }

    /// The handle packed into one 64-bit identity, generation in the high
    /// half, for logging and keying.
    pub fn to_u64(self) -> (r: u64)
        ensures
            r == ((self.generation as u64) << 32u64) | (self.index as u64),
    {
        ((self.generation as u64) << 32u64) | (self.index as u64)
    }
}

/// The hull class of a ship.
#[derive(Clone, Copy, PartialEq, Eq, Structural, Debug, Hash)]
pub enum ShipClass {
    Fighter,
    Frigate,
    Cruiser,
    Asteroid { variant: i32 },
    Target,
    Missile,
    Torpedo,
}

impl ShipClass {
    /// The short lower-case name of the class.
    pub fn name(&self) -> (r: &'static str)
        ensures
            *self is Fighter ==> r@ == "fighter"@,
            *self is Frigate ==> r@ == "frigate"@,
            *self is Cruiser ==> r@ == "cruiser"@,
            *self is Asteroid ==> r@ == "asteroid"@,
            *self is Target ==> r@ == "target"@,
            *self is Missile ==> r@ == "missile"@,
            *self is Torpedo ==> r@ == "torpedo"@,
    {
        match self {
            ShipClass::Fighter => "fighter",
            ShipClass::Frigate => "frigate",
            ShipClass::Cruiser => "cruiser",
            ShipClass::Asteroid { .. } => "asteroid",
            ShipClass::Target => "target",
            ShipClass::Missile => "missile",
            ShipClass::Torpedo => "torpedo",
        }
    }
}

/// One gun mount.
#[derive(Clone, Copy, PartialEq, Eq, Structural, Debug)]
pub struct Gun {
    /// Ticks between shots.
    pub reload_time: u32,
    /// Countdown in ticks; firing is denied while positive.
    pub reload_time_remaining: u32,
    /// Damage per projectile, milli-units.
    pub damage: i64,
    /// Muzzle speed in the body frame, milli-units per second.
    pub speed: i64,
    /// Mount offset from the body origin, body frame, milli-units.
    pub offset: Vec2,
    /// Current aim angle relative to the ship heading, micro-radians,
    /// stored as the user program set it.
    pub angle: i64,
    /// Half-width of the uniform angular jitter, micro-radians; 0 disables
    /// jitter.
    pub inaccuracy: i64,
    /// Projectiles emitted per trigger.
    pub burst_size: u32,
}

/// One missile or torpedo launcher.
#[derive(Clone, Copy, PartialEq, Eq, Structural, Debug)]
pub struct MissileLauncher {
    /// Class of the ship a launch spawns; always Missile or Torpedo.
    pub class: ShipClass,
    /// Ticks between launches.
    pub reload_time: u32,
    /// Countdown in ticks; launching is denied while positive.
    pub reload_time_remaining: u32,
    /// Speed along the launch angle, milli-units per second.
    pub initial_speed: i64,
    /// Mount offset from the body origin, body frame, milli-units.
    pub offset: Vec2,
    /// Launch angle relative to the ship heading, micro-radians.
    pub angle: i64,
}

/// Radar tuning carried by a ship; the radar subsystem itself is an
/// external collaborator and only reads these fields.
#[derive(Clone, Copy, PartialEq, Eq, Structural, Debug)]
pub struct Radar {
    pub heading: i64,
    pub width: i64,
    pub power: i64,
    pub rx_cross_section: i64,
    pub min_rssi: i64,
    pub classify_rssi: i64,
}

/// Everything the engine stores about one ship besides its rigid body.
#[derive(Clone, PartialEq, Eq, Debug)]
pub struct ShipData {
    pub class: ShipClass,
    pub guns: Vec<Gun>,
    pub missile_launchers: Vec<MissileLauncher>,
    /// Milli-units; damage is applied by the projectile subsystem.
    pub health: i64,
    pub team: i32,
    /// Pending body-frame acceleration, cleared by the integrator.
    pub acceleration: Vec2,
    /// Pending angular acceleration, cleared by the integrator.
    pub angular_acceleration: i64,
    /// Componentwise clamp bound for `acceleration`.
    pub max_acceleration: Vec2,
    /// Clamp bound for `angular_acceleration`.
    pub max_angular_acceleration: i64,
    pub destroyed: bool,
    pub radar: Option<Radar>,
    pub radar_cross_section: i64,
    /// Remaining ticks to live; reaching 0 self-destructs the ship.
    pub ttl: Option<u64>,
}

/// Ghost image of `ShipData`, with the armament as sequences.
#[verifier::ext_equal]
pub struct ShipDataView {
    pub class: ShipClass,
    pub guns: Seq<Gun>,
    pub missile_launchers: Seq<MissileLauncher>,
    pub health: i64,
    pub team: i32,
    pub acceleration: Vec2,
    pub angular_acceleration: i64,
    pub max_acceleration: Vec2,
    pub max_angular_acceleration: i64,
    pub destroyed: bool,
    pub radar: Option<Radar>,
    pub radar_cross_section: i64,
    pub ttl: Option<u64>,
}

impl View for ShipData {
    type V = ShipDataView;

    open spec fn view(&self) -> ShipDataView {
        ShipDataView {
            class: self.class,
            guns: self.guns@,
            missile_launchers: self.missile_launchers@,
            health: self.health,
            team: self.team,
            acceleration: self.acceleration,
            angular_acceleration: self.angular_acceleration,
            max_acceleration: self.max_acceleration,
            max_angular_acceleration: self.max_angular_acceleration,
            destroyed: self.destroyed,
            radar: self.radar,
            radar_cross_section: self.radar_cross_section,
            ttl: self.ttl,
        }
    }
}

/// Well-formedness of one gun mount.
pub open spec fn gun_wf(g: Gun) -> bool {
    &&& 1 <= g.reload_time
    &&& g.reload_time_remaining <= g.reload_time
    &&& 0 <= g.damage
    &&& 0 <= g.speed <= SPEED_LIMIT
    &&& -OFFSET_LIMIT <= g.offset.x <= OFFSET_LIMIT
    &&& -OFFSET_LIMIT <= g.offset.y <= OFFSET_LIMIT
    &&& -ANGLE_LIMIT <= g.angle <= ANGLE_LIMIT
    &&& 0 <= g.inaccuracy <= TAU_URAD
    &&& 1 <= g.burst_size
}

/// Well-formedness of one launcher mount.
pub open spec fn launcher_wf(l: MissileLauncher) -> bool {
    &&& l.class is Missile || l.class is Torpedo
    &&& 1 <= l.reload_time
    &&& l.reload_time_remaining <= l.reload_time
    &&& 0 <= l.initial_speed <= SPEED_LIMIT
    &&& -OFFSET_LIMIT <= l.offset.x <= OFFSET_LIMIT
    &&& -OFFSET_LIMIT <= l.offset.y <= OFFSET_LIMIT
    &&& -TAU_URAD <= l.angle <= TAU_URAD
}

/// Well-formedness of a ship's data. It carries the actuation invariants:
/// pending intents are inside the class limits and no reload countdown
/// exceeds its reload time.
pub open spec fn data_wf(d: ShipDataView) -> bool {
    &&& forall|i: int| 0 <= i < d.guns.len() ==> gun_wf(#[trigger] d.guns[i])
    &&& forall|i: int|
        0 <= i < d.missile_launchers.len() ==> launcher_wf(#[trigger] d.missile_launchers[i])
    &&& 0 <= d.max_acceleration.x <= ACCEL_LIMIT
    &&& 0 <= d.max_acceleration.y <= ACCEL_LIMIT
    &&& 0 <= d.max_angular_acceleration <= ANG_ACCEL_LIMIT
    &&& -d.max_acceleration.x <= d.acceleration.x <= d.max_acceleration.x
    &&& -d.max_acceleration.y <= d.acceleration.y <= d.max_acceleration.y
    &&& -d.max_angular_acceleration <= d.angular_acceleration <= d.max_angular_acceleration
}

impl Default for ShipData {
    /// An inert hull with no armament, no radar and fighter-class health.
    fn default() -> (r: ShipData)
        ensures
            r@ == spec_default_data(),
            data_wf(r@),
    {
        ShipData {
            class: ShipClass::Fighter,
            guns: Vec::new(),
            missile_launchers: Vec::new(),
            health: 100_000,
            team: 0,
            acceleration: Vec2 { x: 0, y: 0 },
            angular_acceleration: 0,
            max_acceleration: Vec2 { x: 0, y: 0 },
            max_angular_acceleration: 0,
            destroyed: false,
            radar: None,
            radar_cross_section: 10_000,
            ttl: None,
        }
    }
}

/// The data `ShipData::default` returns.
pub open spec fn spec_default_data() -> ShipDataView {
    ShipDataView {
        class: ShipClass::Fighter,
        guns: Seq::empty(),
        missile_launchers: Seq::empty(),
        health: 100_000,
        team: 0,
        acceleration: Vec2 { x: 0, y: 0 },
        angular_acceleration: 0,
        max_acceleration: Vec2 { x: 0, y: 0 },
        max_angular_acceleration: 0,
        destroyed: false,
        radar: None,
        radar_cross_section: 10_000,
        ttl: None,
    }
}

/// The radar template shared by the armed classes; only power and receive
/// cross-section vary.
pub open spec fn spec_radar(power: i64, rx: i64) -> Radar {
    Radar {
        heading: 0,
        width: RADAR_WIDTH_URAD,
        power: power,
        rx_cross_section: rx,
        min_rssi: 10,
        classify_rssi: 100,
    }
}

/// Builds the shared radar template.
fn make_radar(power: i64, rx: i64) -> (r: Radar)
    ensures
        r == spec_radar(power, rx),
{
    Radar {
        heading: 0,
        width: RADAR_WIDTH_URAD,
        power: power,
        rx_cross_section: rx,
        min_rssi: 10,
        classify_rssi: 100,
    }
}

/// The light turret gun most classes carry.
pub open spec fn spec_light_gun(offset: Vec2, inaccuracy: i64, burst_size: u32) -> Gun {
    Gun {
        reload_time: 12,
        reload_time_remaining: 0,
        damage: 20_000,
        speed: 1_000_000,
        offset: offset,
        angle: 0,
        inaccuracy: inaccuracy,
        burst_size: burst_size,
    }
}

/// Builds the light turret gun.
fn make_light_gun(offset: Vec2, inaccuracy: i64, burst_size: u32) -> (r: Gun)
    ensures
        r == spec_light_gun(offset, inaccuracy, burst_size),
{
    Gun {
        reload_time: 12,
        reload_time_remaining: 0,
        damage: 20_000,
        speed: 1_000_000,
        offset: offset,
        angle: 0,
        inaccuracy: inaccuracy,
        burst_size: burst_size,
    }
}

/// A missile or torpedo launcher template.
pub open spec fn spec_launcher(
    class: ShipClass,
    reload_time: u32,
    offset: Vec2,
    angle: i64,
) -> MissileLauncher {
    MissileLauncher {
        class: class,
        reload_time: reload_time,
        reload_time_remaining: 0,
        initial_speed: 100_000,
        offset: offset,
        angle: angle,
    }
}

/// Builds a launcher from the template.
fn make_launcher(class: ShipClass, reload_time: u32, offset: Vec2, angle: i64) -> (r:
    MissileLauncher)
    ensures
        r == spec_launcher(class, reload_time, offset, angle),
{
    MissileLauncher {
        class: class,
        reload_time: reload_time,
        reload_time_remaining: 0,
        initial_speed: 100_000,
        offset: offset,
        angle: angle,
    }
}

/// The fighter template: one light gun, one missile launcher.
pub open spec fn spec_fighter(team: i32) -> ShipDataView {
    ShipDataView {
        class: ShipClass::Fighter,
        guns: seq![spec_light_gun(Vec2 { x: 20_000, y: 0 }, 17_000, 1)],
        missile_launchers: seq![
            spec_launcher(ShipClass::Missile, 300, Vec2 { x: 20_000, y: 0 }, 0),
        ],
        health: 100_000,
        team: team,
        acceleration: Vec2 { x: 0, y: 0 },
        angular_acceleration: 0,
        max_acceleration: Vec2 { x: 200_000, y: 100_000 },
        max_angular_acceleration: TAU_URAD,
        destroyed: false,
        radar: Some(spec_radar(20_000_000, 5_000)),
        radar_cross_section: 10_000,
        ttl: None,
    }
}

/// A fresh fighter for `team`.
pub fn fighter(team: i32) -> (r: ShipData)
    ensures
        r@ == spec_fighter(team),
        data_wf(r@),
{
    let mut guns: Vec<Gun> = Vec::new();
    guns.push(make_light_gun(Vec2 { x: 20_000, y: 0 }, 17_000, 1));
    let mut launchers: Vec<MissileLauncher> = Vec::new();
    launchers.push(make_launcher(ShipClass::Missile, 300, Vec2 { x: 20_000, y: 0 }, 0));
    let r = ShipData {
        class: ShipClass::Fighter,
        guns,
        missile_launchers: launchers,
        health: 100_000,
        team,
        acceleration: Vec2 { x: 0, y: 0 },
        angular_acceleration: 0,
        max_acceleration: Vec2 { x: 200_000, y: 100_000 },
        max_angular_acceleration: TAU_URAD,
        destroyed: false,
        radar: Some(make_radar(20_000_000, 5_000)),
        radar_cross_section: 10_000,
        ttl: None,
    };
    proof {
        assert(r@ =~= spec_fighter(team));
    }
    r
}

/// The frigate template: a heavy main gun, two light turrets, one missile
/// launcher.
pub open spec fn spec_frigate(team: i32) -> ShipDataView {
    ShipDataView {
        class: ShipClass::Frigate,
        guns: seq![
            Gun {
                reload_time: 60,
                reload_time_remaining: 0,
                damage: 1_000_000,
                speed: 4_000_000,
                offset: Vec2 { x: 40_000, y: 0 },
                angle: 0,
                inaccuracy: 0,
                burst_size: 1,
            },
            spec_light_gun(Vec2 { x: 0, y: 15_000 }, 17_000, 1),
            spec_light_gun(Vec2 { x: 0, y: -15_000i64 }, 17_000, 1),
        ],
        missile_launchers: seq![
            spec_launcher(ShipClass::Missile, 120, Vec2 { x: 32_000, y: 0 }, 0),
        ],
        health: 10_000_000,
        team: team,
        acceleration: Vec2 { x: 0, y: 0 },
        angular_acceleration: 0,
        max_acceleration: Vec2 { x: 20_000, y: 10_000 },
        max_angular_acceleration: EIGHTH_TAU_URAD,
        destroyed: false,
        radar: Some(spec_radar(100_000_000, 10_000)),
        radar_cross_section: 30_000,
        ttl: None,
    }
}

/// A fresh frigate for `team`.
pub fn frigate(team: i32) -> (r: ShipData)
    ensures
        r@ == spec_frigate(team),
        data_wf(r@),
{
    let mut guns: Vec<Gun> = Vec::new();
    guns.push(
        Gun {
            reload_time: 60,
            reload_time_remaining: 0,
            damage: 1_000_000,
            speed: 4_000_000,
            offset: Vec2 { x: 40_000, y: 0 },
            angle: 0,
            inaccuracy: 0,
            burst_size: 1,
        },
    );
    guns.push(make_light_gun(Vec2 { x: 0, y: 15_000 }, 17_000, 1));
    guns.push(make_light_gun(Vec2 { x: 0, y: -15_000 }, 17_000, 1));
    let mut launchers: Vec<MissileLauncher> = Vec::new();
    launchers.push(make_launcher(ShipClass::Missile, 120, Vec2 { x: 32_000, y: 0 }, 0));
    let r = ShipData {
        class: ShipClass::Frigate,
        guns,
        missile_launchers: launchers,
        health: 10_000_000,
        team,
        acceleration: Vec2 { x: 0, y: 0 },
        angular_acceleration: 0,
        max_acceleration: Vec2 { x: 20_000, y: 10_000 },
        max_angular_acceleration: EIGHTH_TAU_URAD,
        destroyed: false,
        radar: Some(make_radar(100_000_000, 10_000)),
        radar_cross_section: 30_000,
        ttl: None,
    };
    proof {
        assert(r@ =~= spec_frigate(team));
    }
    r
}

/// The cruiser template: one burst gun, two quarter-turn missile
/// launchers, one torpedo launcher.
pub open spec fn spec_cruiser(team: i32) -> ShipDataView {
    ShipDataView {
        class: ShipClass::Cruiser,
        guns: seq![spec_light_gun(Vec2 { x: 0, y: 0 }, 35_000, 5)],
        missile_launchers: seq![
            spec_launcher(ShipClass::Missile, 72, Vec2 { x: 0, y: 30_000 }, QUARTER_TAU_URAD),
            spec_launcher(ShipClass::Missile, 72, Vec2 { x: 0, y: -30_000i64 }, -1_570_796i64),
            spec_launcher(ShipClass::Torpedo, 180, Vec2 { x: 100_000, y: 0 }, 0),
        ],
        health: 10_000_000,
        team: team,
        acceleration: Vec2 { x: 0, y: 0 },
        angular_acceleration: 0,
        max_acceleration: Vec2 { x: 10_000, y: 50_000 },
        max_angular_acceleration: SIXTEENTH_TAU_URAD,
        destroyed: false,
        radar: Some(spec_radar(200_000_000, 20_000)),
        radar_cross_section: 40_000,
        ttl: None,
    }
}

/// A fresh cruiser for `team`.
pub fn cruiser(team: i32) -> (r: ShipData)
    ensures
        r@ == spec_cruiser(team),
        data_wf(r@),
{
    let mut guns: Vec<Gun> = Vec::new();
    guns.push(make_light_gun(Vec2 { x: 0, y: 0 }, 35_000, 5));
    let mut launchers: Vec<MissileLauncher> = Vec::new();
    launchers.push(
        make_launcher(ShipClass::Missile, 72, Vec2 { x: 0, y: 30_000 }, QUARTER_TAU_URAD),
    );
    launchers.push(
        make_launcher(ShipClass::Missile, 72, Vec2 { x: 0, y: -30_000i64 }, -1_570_796i64),
    );
    launchers.push(make_launcher(ShipClass::Torpedo, 180, Vec2 { x: 100_000, y: 0 }, 0));
    let r = ShipData {
        class: ShipClass::Cruiser,
        guns,
        missile_launchers: launchers,
        health: 10_000_000,
        team,
        acceleration: Vec2 { x: 0, y: 0 },
        angular_acceleration: 0,
        max_acceleration: Vec2 { x: 10_000, y: 50_000 },
        max_angular_acceleration: SIXTEENTH_TAU_URAD,
        destroyed: false,
        radar: Some(make_radar(200_000_000, 20_000)),
        radar_cross_section: 40_000,
        ttl: None,
    };
    proof {
        assert(r@ =~= spec_cruiser(team));
    }
    r
}

/// The asteroid template for a model variant: inert, on the neutral team.
pub open spec fn spec_asteroid(variant: i32) -> ShipDataView {
    ShipDataView {
        class: ShipClass::Asteroid { variant },
        health: 200_000,
        team: 9,
        ..spec_default_data()
    }
}

/// A fresh asteroid of the given model variant.
pub fn asteroid(variant: i32) -> (r: ShipData)
    ensures
        r@ == spec_asteroid(variant),
        data_wf(r@),
{
    let mut r = ShipData::default();
    r.class = ShipClass::Asteroid { variant };
    r.health = 200_000;
    r.team = 9;
    proof {
        assert(r@ =~= spec_asteroid(variant));
    }
    r
}

/// The target-drone template: one hit point, inert.
pub open spec fn spec_target(team: i32) -> ShipDataView {
    ShipDataView { class: ShipClass::Target, health: 1_000, team: team, ..spec_default_data() }
}

/// A fresh target drone for `team`.
pub fn target(team: i32) -> (r: ShipData)
    ensures
        r@ == spec_target(team),
        data_wf(r@),
{
    let mut r = ShipData::default();
    r.class = ShipClass::Target;
    r.health = 1_000;
    r.team = team;
    proof {
        assert(r@ =~= spec_target(team));
    }
    r
}

/// The missile template: unarmed, agile, ten seconds to live.
pub open spec fn spec_missile(team: i32) -> ShipDataView {
    ShipDataView {
        class: ShipClass::Missile,
        health: 1_000,
        team: team,
        max_acceleration: Vec2 { x: 400_000, y: 100_000 },
        max_angular_acceleration: DOUBLE_TAU_URAD,
        radar: Some(spec_radar(10_000_000, 3_000)),
        radar_cross_section: 3_000,
        ttl: Some(600u64),
        ..spec_default_data()
    }
}

/// A fresh missile for `team`.
pub fn missile(team: i32) -> (r: ShipData)
    ensures
        r@ == spec_missile(team),
        data_wf(r@),
{
    let mut r = ShipData::default();
    r.class = ShipClass::Missile;
    r.health = 1_000;
    r.team = team;
    r.max_acceleration = Vec2 { x: 400_000, y: 100_000 };
    r.max_angular_acceleration = DOUBLE_TAU_URAD;
    r.radar = Some(make_radar(10_000_000, 3_000));
    r.radar_cross_section = 3_000;
    r.ttl = Some(600);
    proof {
        assert(r@ =~= spec_missile(team));
    }
    r
}

/// The torpedo template: unarmed, sturdier than a missile, twenty seconds
/// to live.
pub open spec fn spec_torpedo(team: i32) -> ShipDataView {
    ShipDataView {
        class: ShipClass::Torpedo,
        health: 100_000,
        team: team,
        max_acceleration: Vec2 { x: 200_000, y: 50_000 },
        max_angular_acceleration: DOUBLE_TAU_URAD,
        radar: Some(spec_radar(20_000_000, 3_000)),
        radar_cross_section: 8_000,
        ttl: Some(1200u64),
        ..spec_default_data()
    }
}

/// A fresh torpedo for `team`.
pub fn torpedo(team: i32) -> (r: ShipData)
    ensures
        r@ == spec_torpedo(team),
        data_wf(r@),
{
    let mut r = ShipData::default();
    r.class = ShipClass::Torpedo;
    r.health = 100_000;
    r.team = team;
    r.max_acceleration = Vec2 { x: 200_000, y: 50_000 };
    r.max_angular_acceleration = DOUBLE_TAU_URAD;
    r.radar = Some(make_radar(20_000_000, 3_000));
    r.radar_cross_section = 8_000;
    r.ttl = Some(1200);
    proof {
        assert(r@ =~= spec_torpedo(team));
    }
    r
}

} // verus!
