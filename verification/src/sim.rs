//! The simulation core: rigid-body mirror, ship registry, actuators and
//! the per-tick integrator.
//!
//! The engine keeps an integer-valued mirror of each rigid body. The
//! embedding program owns the real physics world: it reads the force and
//! torque accumulators the integrator fills, steps the world, and writes
//! the resulting body state back with `set_body`. Projectile emissions and
//! controller-construction requests are queued and drained by the
//! embedder; nothing here performs I/O.
//!
//! Every mutating operation is specified as a pure function from the old
//! simulation view to the new one, so the post-state is determined by the
//! pre-state and the inputs alone: simulation runs are reproducible bit
//! for bit.

use vstd::prelude::*;
use crate::geom::{
    Vec2,
    clamp_i64,
    clamp_vec,
    spec_clamp,
    spec_clamp_vec,
    COORD_LIMIT,
    VEL_LIMIT,
    ANGLE_LIMIT,
};
use crate::rng::{new_rng, spec_rng_init, spec_rng_step, spec_rng_range};
use crate::trig::{
    TAU_URAD,
    normalize_heading,
    rot_vec,
    spec_div_trunc,
    spec_norm_angle,
    spec_rot_x,
    spec_rot_y,
};
use crate::ship::{
    Gun,
    MissileLauncher,
    Radar,
    ShipClass,
    ShipData,
    ShipDataView,
    ShipHandle,
    data_wf,
    gun_wf,
    launcher_wf,
    missile,
    spec_missile,
    spec_torpedo,
    torpedo,
};
use vstd::arithmetic::div_mod::{lemma_div_is_ordered, lemma_div_pos_is_pos};

verus! {

/// Most ships a simulation will hold; spawning needs the registry to be
/// below this bound.
pub const SHIP_CAP: usize = 1_000_000_000;

/// Ticks a gun projectile lives: five seconds.
pub const BULLET_TTL_TICKS: u32 = 300;

/// Ticks a debris projectile lives: one second.
pub const DEBRIS_TTL_TICKS: u32 = 60;

/// Debris muzzle speed, milli-units per second.
pub const DEBRIS_SPEED: i64 = 1_000_000;

/// Nominal mass of a fresh body, milli-units; the physics world installs
/// the true collider-derived value through `set_mass_properties`.
pub const DEFAULT_MASS: i64 = 1_000;

/// Nominal principal inertia of a fresh body, milli-units.
pub const DEFAULT_INERTIA: i64 = 1_000;

/// The integer mirror of one rigid body in the physics world.
#[derive(Clone, Copy, PartialEq, Eq, Structural, Debug)]
pub struct Body {
    /// World position, milli-units.
    pub translation: Vec2,
    /// World linear velocity, milli-units per second.
    pub linvel: Vec2,
    /// Rotation, micro-radians, not normalized.
    pub rotation: i64,
    /// Angular velocity, micro-radians per second.
    pub angvel: i64,
    /// Mass, milli-units.
    pub mass: i64,
    /// Principal inertia, milli-units.
    pub inertia: i64,
    /// Force accumulator the integrator fills, world frame.
    pub force: Vec2,
    /// Torque accumulator the integrator fills.
    pub torque: i64,
    /// Collider restitution, milli-units.
    pub restitution: i64,
    /// Continuous collision detection flag for the collider.
    pub ccd_enabled: bool,
}

/// Well-formedness of a body mirror.
pub open spec fn body_wf(b: Body) -> bool {
    &&& -COORD_LIMIT <= b.translation.x <= COORD_LIMIT
    &&& -COORD_LIMIT <= b.translation.y <= COORD_LIMIT
    &&& -VEL_LIMIT <= b.linvel.x <= VEL_LIMIT
    &&& -VEL_LIMIT <= b.linvel.y <= VEL_LIMIT
    &&& -ANGLE_LIMIT <= b.rotation <= ANGLE_LIMIT
    &&& -ANGLE_LIMIT <= b.angvel <= ANGLE_LIMIT
    &&& 1 <= b.mass <= crate::geom::MASS_LIMIT
    &&& 1 <= b.inertia <= crate::geom::INERTIA_LIMIT
}

/// An RGBA color in milli-units.
#[derive(Clone, Copy, PartialEq, Eq, Structural, Debug)]
pub struct Color {
    pub red: i64,
    pub green: i64,
    pub blue: i64,
    pub alpha: i64,
}

/// One projectile emission, queued for the projectile subsystem.
#[derive(Clone, Copy, PartialEq, Eq, Structural, Debug)]
pub struct Projectile {
    pub position: Vec2,
    pub velocity: Vec2,
    pub damage: i64,
    pub team: i32,
    pub color: Color,
    pub ttl_ticks: u32,
}

/// A queued request to build a controller for a freshly spawned ship.
#[derive(Clone, PartialEq, Eq, Debug)]
pub struct ControllerRequest {
    pub handle: ShipHandle,
    pub team: i32,
    /// Opaque orders handed to the newborn controller.
    pub orders: String,
}

/// Ghost image of a controller request.
#[verifier::ext_equal]
pub struct ControllerRequestView {
    pub handle: ShipHandle,
    pub team: i32,
    pub orders: Seq<char>,
}

impl View for ControllerRequest {
    type V = ControllerRequestView;

    open spec fn view(&self) -> ControllerRequestView {
        ControllerRequestView { handle: self.handle, team: self.team, orders: self.orders@ }
    }
}

/// The simulation state this engine owns.
pub struct Simulation {
    /// Completed tick count; seeds the per-fire generators.
    pub tick_number: u32,
    /// Body slots, indexed by handle index; a removed ship leaves `None`.
    pub bodies: Vec<Option<Body>>,
    /// Live handles in stable insertion order; drives tick iteration.
    pub ships: Vec<ShipHandle>,
    /// Ship data slots, one-to-one with `bodies`.
    pub ship_data: Vec<Option<ShipData>>,
    /// Projectile emissions queued for the projectile subsystem.
    pub projectiles: Vec<Projectile>,
    /// Controller-construction errors reported by the embedder.
    pub errors: Vec<String>,
    /// Teams that registered a controller factory.
    pub controller_teams: Vec<i32>,
    /// Pending controller constructions for the embedder to perform.
    pub controller_requests: Vec<ControllerRequest>,
    /// Ships whose controller was built successfully.
    pub controllers: Vec<ShipHandle>,
}

/// Ghost image of the whole simulation.
#[verifier::ext_equal]
pub struct SimView {
    pub tick_number: u32,
    pub bodies: Seq<Option<Body>>,
    pub ships: Seq<ShipHandle>,
    pub ship_data: Seq<Option<ShipDataView>>,
    pub projectiles: Seq<Projectile>,
    pub errors: Seq<Seq<char>>,
    pub controller_teams: Seq<i32>,
    pub controller_requests: Seq<ControllerRequestView>,
    pub controllers: Seq<ShipHandle>,
}

impl View for Simulation {
    type V = SimView;

    open spec fn view(&self) -> SimView {
        SimView {
            tick_number: self.tick_number,
            bodies: self.bodies@,
            ships: self.ships@,
            ship_data: self.ship_data@.map_values(
                |o: Option<ShipData>|
                    match o {
                        Some(d) => Some(d@),
                        None => None,
                    },
            ),
            projectiles: self.projectiles@,
            errors: self.errors@.map_values(|e: String| e@),
            controller_teams: self.controller_teams@,
            controller_requests: self.controller_requests@.map_values(
                |r: ControllerRequest| r@,
            ),
            controllers: self.controllers@,
        }
    }
}

/// A handle that currently names a ship: its slots are occupied.
pub open spec fn sim_live(s: SimView, h: ShipHandle) -> bool {
    &&& h.generation == 0
    &&& (h.index as int) < s.ship_data.len()
    &&& (h.index as int) < s.bodies.len()
    &&& s.ship_data[h.index as int] is Some
    &&& s.bodies[h.index as int] is Some
}

/// The data stored for a live handle.
pub open spec fn sim_data(s: SimView, h: ShipHandle) -> ShipDataView {
    s.ship_data[h.index as int].unwrap()
}

/// The body mirror stored for a live handle.
pub open spec fn sim_body(s: SimView, h: ShipHandle) -> Body {
    s.bodies[h.index as int].unwrap()
}

/// Whether the registry holds `h`.
pub open spec fn in_registry(s: SimView, h: ShipHandle) -> bool {
    exists|i: int| 0 <= i < s.ships.len() && s.ships[i] == h
}

/// `s` with the data slot of `h` replaced.
pub open spec fn with_data(s: SimView, h: ShipHandle, d: ShipDataView) -> SimView {
    SimView { ship_data: s.ship_data.update(h.index as int, Some(d)), ..s }
}

/// `s` with the body slot of `h` replaced.
pub open spec fn with_body(s: SimView, h: ShipHandle, b: Body) -> SimView {
    SimView { bodies: s.bodies.update(h.index as int, Some(b)), ..s }
}

/// Well-formedness of the whole simulation. Among other things it carries
/// the cross-reference invariant: the data store and the body store pair
/// exactly, and every registry handle names occupied slots.
pub open spec fn sim_wf(s: SimView) -> bool {
    &&& s.bodies.len() == s.ship_data.len()
    &&& s.ship_data.len() <= SHIP_CAP
    &&& forall|i: int| 0 <= i < s.ships.len() ==> sim_live(s, #[trigger] s.ships[i])
    &&& forall|i: int, j: int|
        0 <= i < j < s.ships.len() ==> (#[trigger] s.ships[i]).index != (
        #[trigger] s.ships[j]).index
    &&& forall|k: int|
        0 <= k < s.ship_data.len() ==> ((#[trigger] s.ship_data[k]) is Some <==> s.bodies[k] is
        Some)
    &&& forall|k: int|
        0 <= k < s.ship_data.len() && (#[trigger] s.ship_data[k]) is Some ==> data_wf(
            s.ship_data[k].unwrap(),
        )
    &&& forall|k: int|
        0 <= k < s.bodies.len() && (#[trigger] s.bodies[k]) is Some ==> body_wf(
            s.bodies[k].unwrap(),
        )
}

/// A simulation with nothing in it.
pub open spec fn spec_empty_sim() -> SimView {
    SimView {
        tick_number: 0,
        bodies: Seq::empty(),
        ships: Seq::empty(),
        ship_data: Seq::empty(),
        projectiles: Seq::empty(),
        errors: Seq::empty(),
        controller_teams: Seq::empty(),
        controller_requests: Seq::empty(),
        controllers: Seq::empty(),
    }
}

/// Updating the data slot of a live handle with well-formed data keeps the
/// simulation well formed and every liveness fact intact.
proof fn lemma_wf_with_data(s: SimView, h: ShipHandle, d: ShipDataView)
    requires
        sim_wf(s),
        sim_live(s, h),
        data_wf(d),
    ensures
        sim_wf(with_data(s, h, d)),
        forall|h2: ShipHandle| sim_live(s, h2) ==> sim_live(#[trigger] with_data(s, h, d), h2),
        sim_data(with_data(s, h, d), h) == d,
{
    let s2 = with_data(s, h, d);
    assert forall|i: int| 0 <= i < s2.ships.len() implies sim_live(s2, #[trigger] s2.ships[i]) by {
        assert(sim_live(s, s.ships[i]));
    }
}

/// Updating the body slot of a live handle with a well-formed body keeps
/// the simulation well formed and every liveness fact intact.
proof fn lemma_wf_with_body(s: SimView, h: ShipHandle, b: Body)
    requires
        sim_wf(s),
        sim_live(s, h),
        body_wf(b),
    ensures
        sim_wf(with_body(s, h, b)),
        forall|h2: ShipHandle| sim_live(s, h2) ==> sim_live(#[trigger] with_body(s, h, b), h2),
        sim_body(with_body(s, h, b), h) == b,
        sim_data(with_body(s, h, b), h) == sim_data(s, h),
{
    let s2 = with_body(s, h, b);
    assert forall|i: int| 0 <= i < s2.ships.len() implies sim_live(s2, #[trigger] s2.ships[i]) by {
        assert(sim_live(s, s.ships[i]));
    }
}

impl Simulation {
    /// A fresh, empty simulation.
    pub fn new() -> (r: Simulation)
        ensures
            r@ == spec_empty_sim(),
            sim_wf(r@),
    {
        let r = Simulation {
            tick_number: 0,
            bodies: Vec::new(),
            ships: Vec::new(),
            ship_data: Vec::new(),
            projectiles: Vec::new(),
            errors: Vec::new(),
            controller_teams: Vec::new(),
            controller_requests: Vec::new(),
            controllers: Vec::new(),
        };
        proof {
            assert(r@ =~= spec_empty_sim());
        }
        r
    }

    /// Registers a controller factory for `team`: every later spawn on
    /// that team queues a controller-construction request.
    pub fn register_team_controller(&mut self, team: i32)
        requires
            sim_wf(old(self)@),
        ensures
            final(self)@ == (SimView {
                controller_teams: old(self)@.controller_teams.push(team),
                ..old(self)@
            }),
            sim_wf(final(self)@),
            forall|h: ShipHandle| sim_live(old(self)@, h) ==> sim_live(final(self)@, h),
    {
        self.controller_teams.push(team);
        proof {
            assert(self@ =~= (SimView {
                controller_teams: old(self)@.controller_teams.push(team),
                ..old(self)@
            }));
            assert forall|i: int| 0 <= i < self@.ships.len() implies sim_live(
                self@,
                #[trigger] self@.ships[i],
            ) by {
                assert(sim_live(old(self)@, old(self)@.ships[i]));
            }
        }
    }

    /// The body mirror of a live ship.
    pub fn body(&self, handle: ShipHandle) -> (r: Body)
        requires
            sim_wf(self@),
            sim_live(self@, handle),
        ensures
            r == sim_body(self@, handle),
    {
        *self.bodies[handle.index() as usize].as_ref().unwrap()
    }

    /// World-frame position of a live ship.
    pub fn position(&self, handle: ShipHandle) -> (r: Vec2)
        requires
            sim_wf(self@),
            sim_live(self@, handle),
        ensures
            r == sim_body(self@, handle).translation,
    {
        self.body(handle).translation
    }

    /// World-frame linear velocity of a live ship.
    pub fn velocity(&self, handle: ShipHandle) -> (r: Vec2)
        requires
            sim_wf(self@),
            sim_live(self@, handle),
        ensures
            r == sim_body(self@, handle).linvel,
    {
        self.body(handle).linvel
    }

    /// Heading of a live ship, normalized to `[0, TAU_URAD)`. The stored
    /// rotation itself is not normalized.
    pub fn heading(&self, handle: ShipHandle) -> (r: i64)
        requires
            sim_wf(self@),
            sim_live(self@, handle),
        ensures
            r == spec_norm_angle(sim_body(self@, handle).rotation as int),
            0 <= r < TAU_URAD,
    {
        normalize_heading(self.body(handle).rotation)
    }

    /// Angular velocity of a live ship.
    pub fn angular_velocity(&self, handle: ShipHandle) -> (r: i64)
        requires
            sim_wf(self@),
            sim_live(self@, handle),
        ensures
            r == sim_body(self@, handle).angvel,
    {
        self.body(handle).angvel
    }

    /// The stored data of a live ship.
    pub fn data(&self, handle: ShipHandle) -> (r: &ShipData)
        requires
            sim_wf(self@),
            sim_live(self@, handle),
        ensures
            r@ == sim_data(self@, handle),
    {
        self.ship_data[handle.index() as usize].as_ref().unwrap()
    }

    /// The radar tuning of a live ship, if the class carries one.
    pub fn radar(&self, handle: ShipHandle) -> (r: Option<Radar>)
        requires
            sim_wf(self@),
            sim_live(self@, handle),
        ensures
            r == sim_data(self@, handle).radar,
    {
        self.data(handle).radar
    }
}

/// The state after `accelerate`: the pending acceleration is the request
/// clamped componentwise to the class bound; nothing else moves.
pub open spec fn spec_accelerate(s: SimView, h: ShipHandle, a: Vec2) -> SimView {
    let d = sim_data(s, h);
    with_data(s, h, ShipDataView { acceleration: spec_clamp_vec(a, d.max_acceleration), ..d })
}

/// The state after `torque`: the pending angular acceleration is the
/// request clamped to the class bound; nothing else moves.
pub open spec fn spec_torque(s: SimView, h: ShipHandle, a: i64) -> SimView {
    let d = sim_data(s, h);
    with_data(
        s,
        h,
        ShipDataView {
            angular_acceleration: spec_clamp(a as int, d.max_angular_acceleration as int) as i64,
            ..d
        },
    )
}

/// The state after `aim_gun`: gun `index` aims at the given angle, which
/// is stored as given, pulled in only at the representable angle range;
/// an out-of-range index leaves the state unchanged.
pub open spec fn spec_aim_gun(s: SimView, h: ShipHandle, index: int, angle: int) -> SimView {
    let d = sim_data(s, h);
    if 0 <= index < d.guns.len() {
        let g = d.guns[index];
        with_data(
            s,
            h,
            ShipDataView {
                guns: d.guns.update(
                    index,
                    Gun { angle: spec_clamp(angle, ANGLE_LIMIT as int) as i64, ..g },
                ),
                ..d
            },
        )
    } else {
        s
    }
}

impl Simulation {
    /// Stores a body-frame acceleration request for the next integrator
    /// pass, clamped componentwise to the class limits. The last write in
    /// a tick wins.
    pub fn accelerate(&mut self, handle: ShipHandle, acceleration: Vec2)
        requires
            sim_wf(old(self)@),
            sim_live(old(self)@, handle),
        ensures
            final(self)@ == spec_accelerate(old(self)@, handle, acceleration),
            sim_wf(final(self)@),
            forall|h2: ShipHandle| sim_live(old(self)@, h2) ==> sim_live(final(self)@, h2),
    {
        let idx = handle.index() as usize;
        let mut d = self.ship_data[idx].take().unwrap();
        d.acceleration = clamp_vec(acceleration, d.max_acceleration);
        self.ship_data[idx] = Some(d);
        proof {
            assert(self@ =~= spec_accelerate(old(self)@, handle, acceleration));
            lemma_wf_with_data(old(self)@, handle, sim_data(self@, handle));
        }
    }

    /// Stores an angular acceleration request for the next integrator
    /// pass, clamped to the class limit. The last write in a tick wins.
    pub fn torque(&mut self, handle: ShipHandle, angular_acceleration: i64)
        requires
            sim_wf(old(self)@),
            sim_live(old(self)@, handle),
        ensures
            final(self)@ == spec_torque(old(self)@, handle, angular_acceleration),
            sim_wf(final(self)@),
            forall|h2: ShipHandle| sim_live(old(self)@, h2) ==> sim_live(final(self)@, h2),
    {
        let idx = handle.index() as usize;
        let mut d = self.ship_data[idx].take().unwrap();
        d.angular_acceleration = clamp_i64(angular_acceleration, d.max_angular_acceleration);
        self.ship_data[idx] = Some(d);
        proof {
            assert(self@ =~= spec_torque(old(self)@, handle, angular_acceleration));
            lemma_wf_with_data(old(self)@, handle, sim_data(self@, handle));
        }
    }

    /// Aims gun `index` at `angle`. The angle is stored as given, pulled
    /// in only at the representable angle range; an out-of-range index is
    /// a silent no-op: user programs must tolerate class-dependent
    /// armaments.
    pub fn aim_gun(&mut self, handle: ShipHandle, index: i64, angle: i64)
        requires
            sim_wf(old(self)@),
            sim_live(old(self)@, handle),
        ensures
            final(self)@ == spec_aim_gun(old(self)@, handle, index as int, angle as int),
            sim_wf(final(self)@),
            forall|h2: ShipHandle| sim_live(old(self)@, h2) ==> sim_live(final(self)@, h2),
    {
        let idx = handle.index() as usize;
        let mut d = self.ship_data[idx].take().unwrap();
        if index < 0 || (index as u64) >= (d.guns.len() as u64) {
            self.ship_data[idx] = Some(d);
            proof {
                assert(self@ =~= old(self)@);
                assert forall|h2: ShipHandle| sim_live(old(self)@, h2) implies sim_live(
                    self@,
                    h2,
                ) by {}
            }
            return ;
        }
        let gi = index as usize;
        let mut g = d.guns[gi];
        g.angle = clamp_i64(angle, ANGLE_LIMIT);
        d.guns[gi] = g;
        self.ship_data[idx] = Some(d);
        proof {
            assert(self@ =~~= spec_aim_gun(old(self)@, handle, index as int, angle as int));
            lemma_wf_with_data(old(self)@, handle, sim_data(self@, handle));
        }
    }

    /// Replaces the whole data record of a live ship. This is the hook
    /// through which the projectile subsystem applies damage and marks
    /// ships destroyed.
    pub fn set_data(&mut self, handle: ShipHandle, data: ShipData)
        requires
            sim_wf(old(self)@),
            sim_live(old(self)@, handle),
            data_wf(data@),
        ensures
            final(self)@ == with_data(old(self)@, handle, data@),
            sim_wf(final(self)@),
            forall|h2: ShipHandle| sim_live(old(self)@, h2) ==> sim_live(final(self)@, h2),
    {
        let idx = handle.index() as usize;
        self.ship_data[idx] = Some(data);
        proof {
            assert(self@ =~= with_data(old(self)@, handle, data@));
            lemma_wf_with_data(old(self)@, handle, data@);
        }
    }

    /// Writes a body mirror back, the embedder's hook after stepping the
    /// real physics world.
    pub fn set_body(&mut self, handle: ShipHandle, body: Body)
        requires
            sim_wf(old(self)@),
            sim_live(old(self)@, handle),
            body_wf(body),
        ensures
            final(self)@ == with_body(old(self)@, handle, body),
            sim_wf(final(self)@),
            forall|h2: ShipHandle| sim_live(old(self)@, h2) ==> sim_live(final(self)@, h2),
    {
        let idx = handle.index() as usize;
        self.bodies[idx] = Some(body);
        proof {
            assert(self@ =~= with_body(old(self)@, handle, body));
            lemma_wf_with_body(old(self)@, handle, body);
        }
    }

    /// Installs the collider-derived mass properties of a live ship, the
    /// embedder's hook after building the convex-hull collider.
    pub fn set_mass_properties(&mut self, handle: ShipHandle, mass: i64, inertia: i64)
        requires
            sim_wf(old(self)@),
            sim_live(old(self)@, handle),
            1 <= mass <= crate::geom::MASS_LIMIT,
            1 <= inertia <= crate::geom::INERTIA_LIMIT,
        ensures
            final(self)@ == with_body(
                old(self)@,
                handle,
                Body { mass: mass, inertia: inertia, ..sim_body(old(self)@, handle) },
            ),
            sim_wf(final(self)@),
            forall|h2: ShipHandle| sim_live(old(self)@, h2) ==> sim_live(final(self)@, h2),
    {
        let idx = handle.index() as usize;
        let mut b = self.bodies[idx].take().unwrap();
        b.mass = mass;
        b.inertia = inertia;
        self.bodies[idx] = Some(b);
        proof {
            assert(self@ =~= with_body(
                old(self)@,
                handle,
                Body { mass: mass, inertia: inertia, ..sim_body(old(self)@, handle) },
            ));
            lemma_wf_with_body(old(self)@, handle, sim_body(self@, handle));
        }
    }

    /// Replaces the radar tuning of a live ship, the radar subsystem's
    /// write hook.
    pub fn set_radar(&mut self, handle: ShipHandle, radar: Radar)
        requires
            sim_wf(old(self)@),
            sim_live(old(self)@, handle),
        ensures
            final(self)@ == with_data(
                old(self)@,
                handle,
                ShipDataView { radar: Some(radar), ..sim_data(old(self)@, handle) },
            ),
            sim_wf(final(self)@),
            forall|h2: ShipHandle| sim_live(old(self)@, h2) ==> sim_live(final(self)@, h2),
    {
        let idx = handle.index() as usize;
        let mut d = self.ship_data[idx].take().unwrap();
        d.radar = Some(radar);
        self.ship_data[idx] = Some(d);
        proof {
            assert(self@ =~= with_data(
                old(self)@,
                handle,
                ShipDataView { radar: Some(radar), ..sim_data(old(self)@, handle) },
            ));
            lemma_wf_with_data(old(self)@, handle, sim_data(self@, handle));
        }
    }

    /// Records the outcome of a controller construction the embedder
    /// performed for a queued request. Success installs the controller;
    /// failure goes to the error queue and the ship stays spawned without
    /// a controller.
    pub fn install_controller(&mut self, handle: ShipHandle, outcome: Result<(), String>)
        requires
            sim_wf(old(self)@),
        ensures
            outcome is Ok ==> final(self)@ == (SimView {
                controllers: old(self)@.controllers.push(handle),
                ..old(self)@
            }),
            outcome matches Err(e) ==> final(self)@ == (SimView {
                errors: old(self)@.errors.push(e@),
                ..old(self)@
            }),
            sim_wf(final(self)@),
            forall|h2: ShipHandle| sim_live(old(self)@, h2) ==> sim_live(final(self)@, h2),
    {
        match outcome {
            Ok(()) => {
                self.controllers.push(handle);
                proof {
                    assert(self@ =~= (SimView {
                        controllers: old(self)@.controllers.push(handle),
                        ..old(self)@
                    }));
                    assert forall|i: int| 0 <= i < self@.ships.len() implies sim_live(
                        self@,
                        #[trigger] self@.ships[i],
                    ) by {
                        assert(sim_live(old(self)@, old(self)@.ships[i]));
                    }
                }
            },
            Err(e) => {
                let ghost ev = e@;
                self.errors.push(e);
                proof {
                    assert(self@.errors =~= old(self)@.errors.push(ev));
                    assert(self@ =~= (SimView { errors: old(self)@.errors.push(ev), ..old(self)@ }));
                    assert forall|i: int| 0 <= i < self@.ships.len() implies sim_live(
                        self@,
                        #[trigger] self@.ships[i],
                    ) by {
                        assert(sim_live(old(self)@, old(self)@.ships[i]));
                    }
                }
            },
        }
    }

    /// Hands the queued projectile emissions to the embedder and clears
    /// the queue.
    pub fn take_projectiles(&mut self) -> (r: Vec<Projectile>)
        requires
            sim_wf(old(self)@),
        ensures
            r@ == old(self)@.projectiles,
            final(self)@ == (SimView { projectiles: Seq::empty(), ..old(self)@ }),
            sim_wf(final(self)@),
    {
        let mut tmp: Vec<Projectile> = Vec::new();
        core::mem::swap(&mut tmp, &mut self.projectiles);
        proof {
            assert(self@ =~= (SimView { projectiles: Seq::<Projectile>::empty(), ..old(self)@ }));
            assert forall|i: int| 0 <= i < self@.ships.len() implies sim_live(
                self@,
                #[trigger] self@.ships[i],
            ) by {
                assert(sim_live(old(self)@, old(self)@.ships[i]));
            }
        }
        tmp
    }

    /// Hands the queued controller-construction requests to the embedder
    /// and clears the queue.
    pub fn take_controller_requests(&mut self) -> (r: Vec<ControllerRequest>)
        requires
            sim_wf(old(self)@),
        ensures
            r@.map_values(|q: ControllerRequest| q@) == old(self)@.controller_requests,
            final(self)@ == (SimView { controller_requests: Seq::empty(), ..old(self)@ }),
            sim_wf(final(self)@),
    {
        let mut tmp: Vec<ControllerRequest> = Vec::new();
        core::mem::swap(&mut tmp, &mut self.controller_requests);
        proof {
            assert(self@ =~= (SimView {
                controller_requests: Seq::<ControllerRequestView>::empty(),
                ..old(self)@
            }));
            assert forall|i: int| 0 <= i < self@.ships.len() implies sim_live(
                self@,
                #[trigger] self@.ships[i],
            ) by {
                assert(sim_live(old(self)@, old(self)@.ships[i]));
            }
        }
        tmp
    }
}

/// The body a fresh spawn gets: the requested pose saturated into the
/// representable range, nominal mass properties, zero restitution for a
/// missile and a tenth otherwise, continuous collision detection on.
pub open spec fn spec_spawn_body(x: int, y: int, vx: int, vy: int, heading: int, class: ShipClass) -> Body {
    Body {
        translation: Vec2 {
            x: spec_clamp(x, COORD_LIMIT as int) as i64,
            y: spec_clamp(y, COORD_LIMIT as int) as i64,
        },
        linvel: Vec2 {
            x: spec_clamp(vx, VEL_LIMIT as int) as i64,
            y: spec_clamp(vy, VEL_LIMIT as int) as i64,
        },
        rotation: spec_clamp(heading, ANGLE_LIMIT as int) as i64,
        angvel: 0,
        mass: DEFAULT_MASS,
        inertia: DEFAULT_INERTIA,
        force: Vec2 { x: 0, y: 0 },
        torque: 0,
        restitution: if class is Missile {
            0
        } else {
            100
        },
        ccd_enabled: true,
    }
}

/// The state and handle `create_with_orders` produces: body and data
/// inserted in a fresh slot, the handle appended to the registry, and a
/// controller-construction request queued when the team has a factory.
pub open spec fn spec_spawn(
    s: SimView,
    x: int,
    y: int,
    vx: int,
    vy: int,
    heading: int,
    d: ShipDataView,
    orders: Seq<char>,
) -> (SimView, ShipHandle) {
    let h = ShipHandle { generation: 0, index: s.ship_data.len() as u32 };
    let b = spec_spawn_body(x, y, vx, vy, heading, d.class);
    let s2 = SimView {
        bodies: s.bodies.push(Some(b)),
        ship_data: s.ship_data.push(Some(d)),
        ships: s.ships.push(h),
        controller_requests: if s.controller_teams.contains(d.team) {
            s.controller_requests.push(
                ControllerRequestView { handle: h, team: d.team, orders: orders },
            )
        } else {
            s.controller_requests
        },
        ..s
    };
    (s2, h)
}

impl Simulation {
    /// Whether a controller factory is registered for `team`.
    fn team_has_controller(&self, team: i32) -> (r: bool)
        ensures
            r == self@.controller_teams.contains(team),
    {
        let mut i: usize = 0;
        while i < self.controller_teams.len()
            invariant
                0 <= i <= self.controller_teams.len(),
                forall|j: int| 0 <= j < i ==> self@.controller_teams[j] != team,
            decreases self.controller_teams.len() - i,
        {
            if self.controller_teams[i] == team {
                return true;
            }
            i = i + 1;
        }
        false
    }

    /// Spawns a ship: inserts a rigid-body mirror at the requested pose,
    /// stores the data, appends the fresh handle to the registry, and
    /// queues a controller-construction request when the ship's team has
    /// a registered factory. The embedder builds the collider from the
    /// class model and reports the controller outcome through
    /// `install_controller`.
    pub fn create_with_orders(
        &mut self,
        x: i64,
        y: i64,
        vx: i64,
        vy: i64,
        heading: i64,
        data: ShipData,
        orders: String,
    ) -> (r: ShipHandle)
        requires
            sim_wf(old(self)@),
            data_wf(data@),
            old(self)@.ship_data.len() < SHIP_CAP,
        ensures
            final(self)@ == spec_spawn(
                old(self)@,
                x as int,
                y as int,
                vx as int,
                vy as int,
                heading as int,
                data@,
                orders@,
            ).0,
            r == spec_spawn(
                old(self)@,
                x as int,
                y as int,
                vx as int,
                vy as int,
                heading as int,
                data@,
                orders@,
            ).1,
            sim_wf(final(self)@),
            sim_live(final(self)@, r),
            r.index == old(self)@.ship_data.len(),
            forall|h2: ShipHandle| sim_live(old(self)@, h2) ==> sim_live(final(self)@, h2),
    {
        let ghost s0 = self@;
        let idx = self.ship_data.len();
        let team = data.team;
        let is_missile = match data.class {
            ShipClass::Missile => true,
            _ => false,
        };
        let body = Body {
            translation: Vec2 { x: clamp_i64(x, COORD_LIMIT), y: clamp_i64(y, COORD_LIMIT) },
            linvel: Vec2 { x: clamp_i64(vx, VEL_LIMIT), y: clamp_i64(vy, VEL_LIMIT) },
            rotation: clamp_i64(heading, ANGLE_LIMIT),
            angvel: 0,
            mass: DEFAULT_MASS,
            inertia: DEFAULT_INERTIA,
            force: Vec2 { x: 0, y: 0 },
            torque: 0,
            restitution: if is_missile {
                0
            } else {
                100
            },
            ccd_enabled: true,
        };
        let handle = ShipHandle { generation: 0, index: idx as u32 };
        let ghost dv = data@;
        let ghost ov = orders@;
        self.bodies.push(Some(body));
        self.ship_data.push(Some(data));
        self.ships.push(handle);
        if self.team_has_controller(team) {
            self.controller_requests.push(
                ControllerRequest { handle: handle, team: team, orders: orders },
            );
        }
        proof {
            let spawned = spec_spawn(
                s0,
                x as int,
                y as int,
                vx as int,
                vy as int,
                heading as int,
                dv,
                ov,
            ).0;
            assert(self@ =~~= spawned);
            assert forall|i: int| 0 <= i < self@.ships.len() implies sim_live(
                self@,
                #[trigger] self@.ships[i],
            ) by {
                if i < s0.ships.len() {
                    assert(sim_live(s0, s0.ships[i]));
                }
            }
            assert forall|i: int, j: int| 0 <= i < j < self@.ships.len() implies (
            #[trigger] self@.ships[i]).index != (#[trigger] self@.ships[j]).index by {
                if j < s0.ships.len() {
                    assert(sim_live(s0, s0.ships[i]));
                    assert(sim_live(s0, s0.ships[j]));
                } else {
                    assert(sim_live(s0, s0.ships[i]));
                }
            }
        }
        handle
    }

    /// Spawns a ship with empty orders.
    pub fn create(&mut self, x: i64, y: i64, vx: i64, vy: i64, heading: i64, data: ShipData) -> (r:
        ShipHandle)
        requires
            sim_wf(old(self)@),
            data_wf(data@),
            old(self)@.ship_data.len() < SHIP_CAP,
        ensures
            final(self)@ == spec_spawn(
                old(self)@,
                x as int,
                y as int,
                vx as int,
                vy as int,
                heading as int,
                data@,
                Seq::empty(),
            ).0,
            r == spec_spawn(
                old(self)@,
                x as int,
                y as int,
                vx as int,
                vy as int,
                heading as int,
                data@,
                Seq::empty(),
            ).1,
            sim_wf(final(self)@),
            sim_live(final(self)@, r),
            r.index == old(self)@.ship_data.len(),
            forall|h2: ShipHandle| sim_live(old(self)@, h2) ==> sim_live(final(self)@, h2),
    {
        let orders = String::new();
        assert(orders@ =~= Seq::<char>::empty());
        self.create_with_orders(x, y, vx, vy, heading, data, orders)
    }
}

/// The projectile color alpha for a damage value: the milli-scaled
/// clamp(log10(units)/3, 0.5, 1.0) of the damage in whole units,
/// quantized downward to 10-milli steps. Each threshold is the least
/// whole-unit damage that reaches its step, ceil(10^(3a/1000)) for the
/// step value a, so the stated alpha never exceeds the exact formula and
/// sits less than 10 milli under it.
pub open spec fn spec_alpha(damage: int) -> int {
    let units = damage / 1000;
    if units >= 1000 {
        1000
    } else if units >= 934 {
        990
    } else if units >= 871 {
        980
    } else if units >= 813 {
        970
    } else if units >= 759 {
        960
    } else if units >= 708 {
        950
    } else if units >= 661 {
        940
    } else if units >= 617 {
        930
    } else if units >= 576 {
        920
    } else if units >= 538 {
        910
    } else if units >= 502 {
        900
    } else if units >= 468 {
        890
    } else if units >= 437 {
        880
    } else if units >= 408 {
        870
    } else if units >= 381 {
        860
    } else if units >= 355 {
        850
    } else if units >= 332 {
        840
    } else if units >= 310 {
        830
    } else if units >= 289 {
        820
    } else if units >= 270 {
        810
    } else if units >= 252 {
        800
    } else if units >= 235 {
        790
    } else if units >= 219 {
        780
    } else if units >= 205 {
        770
    } else if units >= 191 {
        760
    } else if units >= 178 {
        750
    } else if units >= 166 {
        740
    } else if units >= 155 {
        730
    } else if units >= 145 {
        720
    } else if units >= 135 {
        710
    } else if units >= 126 {
        700
    } else if units >= 118 {
        690
    } else if units >= 110 {
        680
    } else if units >= 103 {
        670
    } else if units >= 96 {
        660
    } else if units >= 90 {
        650
    } else if units >= 84 {
        640
    } else if units >= 78 {
        630
    } else if units >= 73 {
        620
    } else if units >= 68 {
        610
    } else if units >= 64 {
        600
    } else if units >= 59 {
        590
    } else if units >= 55 {
        580
    } else if units >= 52 {
        570
    } else if units >= 48 {
        560
    } else if units >= 45 {
        550
    } else if units >= 42 {
        540
    } else if units >= 39 {
        530
    } else if units >= 37 {
        520
    } else if units >= 34 {
        510
    } else {
        500
    }
}

/// Computes the projectile color alpha for a damage value.
fn alpha_milli(damage: i64) -> (r: i64)
    requires
        0 <= damage,
    ensures
        r == spec_alpha(damage as int),
{
    let units = (damage as u64) / 1000;
    if units >= 1000 {
        1000
    } else if units >= 934 {
        990
    } else if units >= 871 {
        980
    } else if units >= 813 {
        970
    } else if units >= 759 {
        960
    } else if units >= 708 {
        950
    } else if units >= 661 {
        940
    } else if units >= 617 {
        930
    } else if units >= 576 {
        920
    } else if units >= 538 {
        910
    } else if units >= 502 {
        900
    } else if units >= 468 {
        890
    } else if units >= 437 {
        880
    } else if units >= 408 {
        870
    } else if units >= 381 {
        860
    } else if units >= 355 {
        850
    } else if units >= 332 {
        840
    } else if units >= 310 {
        830
    } else if units >= 289 {
        820
    } else if units >= 270 {
        810
    } else if units >= 252 {
        800
    } else if units >= 235 {
        790
    } else if units >= 219 {
        780
    } else if units >= 205 {
        770
    } else if units >= 191 {
        760
    } else if units >= 178 {
        750
    } else if units >= 166 {
        740
    } else if units >= 155 {
        730
    } else if units >= 145 {
        720
    } else if units >= 135 {
        710
    } else if units >= 126 {
        700
    } else if units >= 118 {
        690
    } else if units >= 110 {
        680
    } else if units >= 103 {
        670
    } else if units >= 96 {
        660
    } else if units >= 90 {
        650
    } else if units >= 84 {
        640
    } else if units >= 78 {
        630
    } else if units >= 73 {
        620
    } else if units >= 68 {
        610
    } else if units >= 64 {
        600
    } else if units >= 59 {
        590
    } else if units >= 55 {
        580
    } else if units >= 52 {
        570
    } else if units >= 48 {
        560
    } else if units >= 45 {
        550
    } else if units >= 42 {
        540
    } else if units >= 39 {
        530
    } else if units >= 37 {
        520
    } else if units >= 34 {
        510
    } else {
        500
    }
}

/// The projectile one gun shot emits: muzzle at the body position plus
/// the rotated mount offset, velocity along the composed muzzle angle at
/// muzzle speed on top of the body velocity, amber color, five-second
/// lifetime.
pub open spec fn spec_gun_projectile(b: Body, g: Gun, team: i32, jitter: int) -> Projectile {
    let theta = b.rotation + g.angle + jitter;
    Projectile {
        position: Vec2 {
            x: (b.translation.x + spec_rot_x(b.rotation as int, g.offset)) as i64,
            y: (b.translation.y + spec_rot_y(b.rotation as int, g.offset)) as i64,
        },
        velocity: Vec2 {
            x: (b.linvel.x + spec_rot_x(theta, Vec2 { x: g.speed, y: 0 })) as i64,
            y: (b.linvel.y + spec_rot_y(theta, Vec2 { x: g.speed, y: 0 })) as i64,
        },
        damage: g.damage,
        team: team,
        color: Color { red: 1_000, green: 630, blue: 0, alpha: spec_alpha(g.damage as int) as i64 },
        ttl_ticks: BULLET_TTL_TICKS,
    }
}

/// Builds one gun projectile.
fn make_gun_projectile(b: Body, g: Gun, team: i32, jitter: i64) -> (p: Projectile)
    requires
        body_wf(b),
        gun_wf(g),
        -TAU_URAD <= jitter <= TAU_URAD,
    ensures
        p == spec_gun_projectile(b, g, team, jitter as int),
{
    let off_rot = rot_vec(b.rotation, g.offset);
    let theta = b.rotation + g.angle + jitter;
    let muz = rot_vec(theta, Vec2 { x: g.speed, y: 0 });
    Projectile {
        position: Vec2 { x: b.translation.x + off_rot.x, y: b.translation.y + off_rot.y },
        velocity: Vec2 { x: b.linvel.x + muz.x, y: b.linvel.y + muz.y },
        damage: g.damage,
        team: team,
        color: Color { red: 1_000, green: 630, blue: 0, alpha: alpha_milli(g.damage) },
        ttl_ticks: BULLET_TTL_TICKS,
    }
}

/// The projectiles a burst of `n` shots emits and the generator state
/// afterwards. A jitter angle is drawn per shot only when the gun has
/// nonzero inaccuracy.
pub open spec fn spec_burst(b: Body, g: Gun, team: i32, state: u64, n: nat) -> (Seq<Projectile>, u64)
    decreases n,
{
    if n == 0 {
        (Seq::empty(), state)
    } else {
        let jitter = if g.inaccuracy > 0 {
            spec_rng_range(state, -(g.inaccuracy as int), g.inaccuracy as int)
        } else {
            0int
        };
        let st1 = if g.inaccuracy > 0 {
            spec_rng_step(state)
        } else {
            state
        };
        let head = spec_gun_projectile(b, g, team, jitter);
        let rest = spec_burst(b, g, team, st1, (n - 1) as nat);
        (seq![head] + rest.0, rest.1)
    }
}

/// The seed of the per-fire generator: a pure function of the tick count,
/// the low half of the handle and the gun index.
pub open spec fn spec_fire_seed(tick: u32, h: ShipHandle, index: int) -> u32 {
    (tick ^ h.index) ^ (index as u32)
}

/// The state after `fire_gun`: an out-of-range index or a running reload
/// countdown leaves the state unchanged; otherwise the countdown advances
/// by the gun's reload time and one burst of projectiles is appended.
pub open spec fn spec_fire_gun(s: SimView, h: ShipHandle, index: int) -> SimView {
    let d = sim_data(s, h);
    if !(0 <= index < d.guns.len()) {
        s
    } else {
        let g = d.guns[index];
        if g.reload_time_remaining > 0 {
            s
        } else {
            let d2 = ShipDataView {
                guns: d.guns.update(
                    index,
                    Gun {
                        reload_time_remaining: (g.reload_time_remaining + g.reload_time) as u32,
                        ..g
                    },
                ),
                ..d
            };
            let seed = spec_fire_seed(s.tick_number, h, index);
            let ps = spec_burst(sim_body(s, h), g, d.team, spec_rng_init(seed), g.burst_size as nat).0;
            SimView {
                ship_data: s.ship_data.update(h.index as int, Some(d2)),
                projectiles: s.projectiles + ps,
                ..s
            }
        }
    }
}

impl Simulation {
    /// Fires gun `index`: a no-op when the index is out of range or the
    /// gun is reloading, otherwise it advances the reload countdown
    /// additively and emits the gun's whole burst, with deterministic
    /// inaccuracy seeded from (tick, handle, index).
    pub fn fire_gun(&mut self, handle: ShipHandle, index: i64)
        requires
            sim_wf(old(self)@),
            sim_live(old(self)@, handle),
        ensures
            final(self)@ == spec_fire_gun(old(self)@, handle, index as int),
            sim_wf(final(self)@),
            forall|h2: ShipHandle| sim_live(old(self)@, h2) ==> sim_live(final(self)@, h2),
    {
        let ghost s0 = self@;
        let idx = handle.index() as usize;
        let mut d = self.ship_data[idx].take().unwrap();
        if index < 0 || (index as u64) >= (d.guns.len() as u64) {
            self.ship_data[idx] = Some(d);
            proof {
                assert(self@ =~~= s0);
            }
            return ;
        }
        let gi = index as usize;
        let g = d.guns[gi];
        if g.reload_time_remaining > 0 {
            self.ship_data[idx] = Some(d);
            proof {
                assert(self@ =~~= s0);
            }
            return ;
        }
        let mut g2 = g;
        g2.reload_time_remaining = g2.reload_time_remaining + g2.reload_time;
        d.guns[gi] = g2;
        let team = d.team;
        self.ship_data[idx] = Some(d);
        let b = *self.bodies[idx].as_ref().unwrap();
        let iu = #[verifier::truncate] (index as u32);
        let seed = (self.tick_number ^ handle.index) ^ iu;
        let mut rng = new_rng(seed);
        let ghost full = spec_burst(b, g, team, spec_rng_init(seed), g.burst_size as nat);
        let mut emitted: Vec<Projectile> = Vec::new();
        let mut k: u32 = 0;
        while k < g.burst_size
            invariant
                body_wf(b),
                gun_wf(g),
                k <= g.burst_size,
                emitted@ + spec_burst(b, g, team, rng.state, (g.burst_size - k) as nat).0
                    == full.0,
            decreases g.burst_size - k,
        {
            let ghost st = rng.state;
            let ghost n_left = (g.burst_size - k) as nat;
            let jitter = if g.inaccuracy > 0 {
                rng.gen_range(-g.inaccuracy, g.inaccuracy)
            } else {
                0
            };
            let p = make_gun_projectile(b, g, team, jitter);
            emitted.push(p);
            k = k + 1;
            proof {
                let rest = spec_burst(b, g, team, rng.state, (g.burst_size - k) as nat);
                assert(spec_burst(b, g, team, st, n_left).0 == seq![p] + rest.0);
                assert(emitted@ + rest.0 =~= full.0);
            }
        }
        proof {
            assert(emitted@ =~= full.0);
        }
        self.projectiles.append(&mut emitted);
        proof {
            assert(self@ =~~= spec_fire_gun(s0, handle, index as int));
            let d2 = sim_data(self@, handle);
            lemma_wf_with_data(s0, handle, d2);
            assert(sim_wf(self@)) by {
                let w = with_data(s0, handle, d2);
                assert(self@.bodies == w.bodies);
                assert(self@.ships == w.ships);
                assert(self@.ship_data =~= w.ship_data);
            }
            assert forall|h2: ShipHandle| sim_live(s0, h2) implies sim_live(self@, h2) by {}
        }
    }
}

/// One debris projectile: emitted from the body position, at debris speed
/// along `ang` on top of the body velocity, grey, one-second lifetime.
pub open spec fn spec_debris_projectile(b: Body, damage: i64, team: i32, ang: int) -> Projectile {
    Projectile {
        position: b.translation,
        velocity: Vec2 {
            x: (b.linvel.x + spec_rot_x(ang, Vec2 { x: DEBRIS_SPEED, y: 0 })) as i64,
            y: (b.linvel.y + spec_rot_y(ang, Vec2 { x: DEBRIS_SPEED, y: 0 })) as i64,
        },
        damage: damage,
        team: team,
        color: Color { red: 500, green: 500, blue: 500, alpha: 300 },
        ttl_ticks: DEBRIS_TTL_TICKS,
    }
}

/// Builds one debris projectile.
fn make_debris_projectile(b: Body, damage: i64, team: i32, ang: i64) -> (p: Projectile)
    requires
        body_wf(b),
        0 <= ang <= TAU_URAD,
    ensures
        p == spec_debris_projectile(b, damage, team, ang as int),
{
    let v = rot_vec(ang, Vec2 { x: DEBRIS_SPEED, y: 0 });
    Projectile {
        position: b.translation,
        velocity: Vec2 { x: b.linvel.x + v.x, y: b.linvel.y + v.y },
        damage: damage,
        team: team,
        color: Color { red: 500, green: 500, blue: 500, alpha: 300 },
        ttl_ticks: DEBRIS_TTL_TICKS,
    }
}

/// The debris fan of `n` projectiles and the generator state afterwards;
/// one angle in `[0, TAU_URAD)` is drawn per projectile.
pub open spec fn spec_debris(b: Body, damage: i64, team: i32, state: u64, n: nat) -> (
    Seq<Projectile>,
    u64,
)
    decreases n,
{
    if n == 0 {
        (Seq::empty(), state)
    } else {
        let ang = spec_rng_range(state, 0, TAU_URAD as int);
        let head = spec_debris_projectile(b, damage, team, ang);
        let rest = spec_debris(b, damage, team, spec_rng_step(state), (n - 1) as nat);
        (seq![head] + rest.0, rest.1)
    }
}

/// Debris damage for a class: a torpedo bursts harder than anything else.
pub open spec fn spec_debris_damage(c: ShipClass) -> i64 {
    if c is Torpedo {
        50_000
    } else {
        20_000
    }
}

/// Debris count for a class.
pub open spec fn spec_debris_count(c: ShipClass) -> nat {
    if c is Torpedo {
        50
    } else {
        25
    }
}

/// The state after `explode`: a ship already destroyed is left untouched;
/// otherwise it is marked destroyed and its class's debris fan is
/// appended, with angles drawn from the fixed seed 0.
pub open spec fn spec_explode(s: SimView, h: ShipHandle) -> SimView {
    let d = sim_data(s, h);
    if d.destroyed {
        s
    } else {
        let d2 = ShipDataView { destroyed: true, ..d };
        let ps = spec_debris(
            sim_body(s, h),
            spec_debris_damage(d.class),
            d.team,
            spec_rng_init(0),
            spec_debris_count(d.class),
        ).0;
        SimView {
            ship_data: s.ship_data.update(h.index as int, Some(d2)),
            projectiles: s.projectiles + ps,
            ..s
        }
    }
}

impl Simulation {
    /// Marks the ship destroyed and emits its debris fan. Idempotent: a
    /// second call in the same tick is a no-op and emits nothing. The
    /// wreck itself is removed by the integrator's destruction sweep.
    pub fn explode(&mut self, handle: ShipHandle)
        requires
            sim_wf(old(self)@),
            sim_live(old(self)@, handle),
        ensures
            final(self)@ == spec_explode(old(self)@, handle),
            sim_wf(final(self)@),
            forall|h2: ShipHandle| sim_live(old(self)@, h2) ==> sim_live(final(self)@, h2),
    {
        let ghost s0 = self@;
        let idx = handle.index() as usize;
        let mut d = self.ship_data[idx].take().unwrap();
        if d.destroyed {
            self.ship_data[idx] = Some(d);
            proof {
                assert(self@ =~~= s0);
            }
            return ;
        }
        d.destroyed = true;
        let team = d.team;
        let is_torpedo = match d.class {
            ShipClass::Torpedo => true,
            _ => false,
        };
        let damage: i64 = if is_torpedo {
            50_000
        } else {
            20_000
        };
        let count: u32 = if is_torpedo {
            50
        } else {
            25
        };
        let ghost class = d.class;
        self.ship_data[idx] = Some(d);
        let b = *self.bodies[idx].as_ref().unwrap();
        let mut rng = new_rng(0);
        let ghost full = spec_debris(b, damage, team, spec_rng_init(0), count as nat);
        let mut emitted: Vec<Projectile> = Vec::new();
        let mut k: u32 = 0;
        while k < count
            invariant
                body_wf(b),
                k <= count,
                emitted@ + spec_debris(b, damage, team, rng.state, (count - k) as nat).0 == full.0,
            decreases count - k,
        {
            let ghost st = rng.state;
            let ghost n_left = (count - k) as nat;
            let ang = rng.gen_range(0, TAU_URAD);
            let p = make_debris_projectile(b, damage, team, ang);
            emitted.push(p);
            k = k + 1;
            proof {
                let rest = spec_debris(b, damage, team, rng.state, (count - k) as nat);
                assert(spec_debris(b, damage, team, st, n_left).0 == seq![p] + rest.0);
                assert(emitted@ + rest.0 =~= full.0);
            }
        }
        proof {
            assert(emitted@ =~= full.0);
        }
        self.projectiles.append(&mut emitted);
        proof {
            assert(spec_debris_damage(class) == damage);
            assert(spec_debris_count(class) == count as nat);
            assert(self@ =~~= spec_explode(s0, handle));
            let d2 = sim_data(self@, handle);
            lemma_wf_with_data(s0, handle, d2);
            assert(sim_wf(self@)) by {
                let w = with_data(s0, handle, d2);
                assert(self@.bodies == w.bodies);
                assert(self@.ships == w.ships);
                assert(self@.ship_data =~= w.ship_data);
            }
            assert forall|h2: ShipHandle| sim_live(s0, h2) implies sim_live(self@, h2) by {}
        }
    }
}

/// The state after `launch_missile`: an out-of-range index or a running
/// reload countdown leaves the state unchanged; otherwise the countdown
/// advances and a fresh ship of the launcher's class spawns at the
/// launcher mount, inheriting the parent's team and carrying `orders`.
pub open spec fn spec_launch_missile(s: SimView, h: ShipHandle, index: int, orders: Seq<char>) -> SimView {
    let d = sim_data(s, h);
    if !(0 <= index < d.missile_launchers.len()) {
        s
    } else {
        let l = d.missile_launchers[index];
        if l.reload_time_remaining > 0 {
            s
        } else {
            let d2 = ShipDataView {
                missile_launchers: d.missile_launchers.update(
                    index,
                    MissileLauncher {
                        reload_time_remaining: (l.reload_time_remaining + l.reload_time) as u32,
                        ..l
                    },
                ),
                ..d
            };
            let s1 = SimView { ship_data: s.ship_data.update(h.index as int, Some(d2)), ..s };
            let b = sim_body(s, h);
            let px = b.translation.x + spec_rot_x(b.rotation as int, l.offset);
            let py = b.translation.y + spec_rot_y(b.rotation as int, l.offset);
            let rot2 = b.rotation + l.angle;
            let vx = b.linvel.x + spec_rot_x(rot2, Vec2 { x: l.initial_speed, y: 0 });
            let vy = b.linvel.y + spec_rot_y(rot2, Vec2 { x: l.initial_speed, y: 0 });
            let template = if l.class is Missile {
                spec_missile(d.team)
            } else {
                spec_torpedo(d.team)
            };
            spec_spawn(s1, px, py, vx, vy, rot2, template, orders).0
        }
    }
}

impl Simulation {
    /// Launches from launcher `index`: a no-op when the index is out of
    /// range or the launcher is reloading, otherwise it advances the
    /// reload countdown additively and spawns a fresh missile or torpedo
    /// at the mount, inheriting the parent's team, with `orders` for its
    /// future controller.
    pub fn launch_missile(&mut self, handle: ShipHandle, index: i64, orders: String)
        requires
            sim_wf(old(self)@),
            sim_live(old(self)@, handle),
            old(self)@.ship_data.len() < SHIP_CAP,
        ensures
            final(self)@ == spec_launch_missile(old(self)@, handle, index as int, orders@),
            sim_wf(final(self)@),
            forall|h2: ShipHandle| sim_live(old(self)@, h2) ==> sim_live(final(self)@, h2),
    {
        let ghost s0 = self@;
        let idx = handle.index() as usize;
        let mut d = self.ship_data[idx].take().unwrap();
        if index < 0 || (index as u64) >= (d.missile_launchers.len() as u64) {
            self.ship_data[idx] = Some(d);
            proof {
                assert(self@ =~~= s0);
            }
            return ;
        }
        let li = index as usize;
        let l = d.missile_launchers[li];
        if l.reload_time_remaining > 0 {
            self.ship_data[idx] = Some(d);
            proof {
                assert(self@ =~~= s0);
            }
            return ;
        }
        let mut l2 = l;
        l2.reload_time_remaining = l2.reload_time_remaining + l2.reload_time;
        d.missile_launchers[li] = l2;
        let team = d.team;
        self.ship_data[idx] = Some(d);
        let ghost s1 = self@;
        proof {
            let d0 = sim_data(s0, handle);
            let dv = sim_data(self@, handle);
            assert forall|i2: int| 0 <= i2 < dv.missile_launchers.len() implies launcher_wf(
                #[trigger] dv.missile_launchers[i2],
            ) by {
                assert(launcher_wf(d0.missile_launchers[i2]));
            }
            assert forall|i2: int| 0 <= i2 < dv.guns.len() implies gun_wf(
                #[trigger] dv.guns[i2],
            ) by {
                assert(gun_wf(d0.guns[i2]));
            }
            assert(data_wf(dv));
            lemma_wf_with_data(s0, handle, dv);
            assert(s1 =~~= spec_launch_with_mid(s0, handle, index as int));
        }
        let b = *self.bodies[idx].as_ref().unwrap();
        let off_rot = rot_vec(b.rotation, l.offset);
        let px = b.translation.x + off_rot.x;
        let py = b.translation.y + off_rot.y;
        let rot2 = b.rotation + l.angle;
        let muz = rot_vec(rot2, Vec2 { x: l.initial_speed, y: 0 });
        let vx = b.linvel.x + muz.x;
        let vy = b.linvel.y + muz.y;
        let is_missile = match l.class {
            ShipClass::Missile => true,
            _ => false,
        };
        let template = if is_missile {
            missile(team)
        } else {
            torpedo(team)
        };
        self.create_with_orders(px, py, vx, vy, rot2, template, orders);
        proof {
            assert(self@ =~~= spec_launch_missile(s0, handle, index as int, orders@));
            assert forall|h2: ShipHandle| sim_live(s0, h2) implies sim_live(self@, h2) by {
                assert(sim_live(s1, h2));
            }
        }
    }
}

/// The intermediate state of a launch, after the reload countdown
/// advanced and before the newborn spawns.
spec fn spec_launch_with_mid(s: SimView, h: ShipHandle, index: int) -> SimView {
    let d = sim_data(s, h);
    let l = d.missile_launchers[index];
    let d2 = ShipDataView {
        missile_launchers: d.missile_launchers.update(
            index,
            MissileLauncher {
                reload_time_remaining: (l.reload_time_remaining + l.reload_time) as u32,
                ..l
            },
        ),
        ..d
    };
    SimView { ship_data: s.ship_data.update(h.index as int, Some(d2)), ..s }
}

/// One tick of reload decay on a gun: the countdown falls by one tick,
/// stopping at zero.
pub open spec fn spec_cool_gun(g: Gun) -> Gun {
    Gun {
        reload_time_remaining: if g.reload_time_remaining >= 1 {
            (g.reload_time_remaining - 1) as u32
        } else {
            0u32
        },
        ..g
    }
}

/// One tick of reload decay on a launcher.
pub open spec fn spec_cool_launcher(l: MissileLauncher) -> MissileLauncher {
    MissileLauncher {
        reload_time_remaining: if l.reload_time_remaining >= 1 {
            (l.reload_time_remaining - 1) as u32
        } else {
            0u32
        },
        ..l
    }
}

/// The world-frame force the integrator hands the physics world: the
/// pending body-frame acceleration rotated into the world frame and
/// scaled by the body mass.
pub open spec fn spec_tick_force(b: Body, accel: Vec2) -> Vec2 {
    Vec2 {
        x: spec_div_trunc(spec_rot_x(b.rotation as int, accel) * b.mass, 1000) as i64,
        y: spec_div_trunc(spec_rot_y(b.rotation as int, accel) * b.mass, 1000) as i64,
    }
}

/// The torque the integrator hands the physics world: the pending angular
/// acceleration scaled by the principal inertia.
pub open spec fn spec_tick_torque(b: Body, ang: i64) -> i64 {
    spec_div_trunc(ang * b.inertia, 1000) as i64
}

/// A sequence with the first occurrence of `h` removed, the registry
/// after a destruction sweep.
pub open spec fn spec_remove_first(s: Seq<ShipHandle>, h: ShipHandle) -> Seq<ShipHandle>
    decreases s.len(),
{
    if s.len() == 0 {
        s
    } else if s[0] == h {
        s.drop_first()
    } else {
        seq![s[0]] + spec_remove_first(s.drop_first(), h)
    }
}

/// When `h` first occurs at `i`, removing its first occurrence is
/// removing index `i`.
proof fn lemma_remove_first_at(s: Seq<ShipHandle>, h: ShipHandle, i: int)
    requires
        0 <= i < s.len(),
        s[i] == h,
        forall|j: int| 0 <= j < i ==> s[j] != h,
    ensures
        spec_remove_first(s, h) == s.remove(i),
    decreases i,
{
    if i == 0 {
        assert(spec_remove_first(s, h) =~= s.remove(0));
    } else {
        lemma_remove_first_at(s.drop_first(), h, i - 1);
        assert(spec_remove_first(s, h) =~= s.remove(i));
    }
}

/// When `h` does not occur, removing it changes nothing.
proof fn lemma_remove_first_absent(s: Seq<ShipHandle>, h: ShipHandle)
    requires
        forall|j: int| 0 <= j < s.len() ==> s[j] != h,
    ensures
        spec_remove_first(s, h) == s,
    decreases s.len(),
{
    if s.len() > 0 {
        lemma_remove_first_absent(s.drop_first(), h);
        assert(spec_remove_first(s, h) =~= s);
    }
}

/// The state after one integrator pass over ship `h`, in this order:
/// reload decay, force and torque application with the pending intents
/// cleared, time-to-live decay with self-destruct at zero, and the
/// destruction sweep that evicts a destroyed ship from the registry and
/// both stores.
pub open spec fn spec_tick_ship(s: SimView, h: ShipHandle) -> SimView {
    let d = sim_data(s, h);
    let b = sim_body(s, h);
    let d1 = ShipDataView {
        guns: d.guns.map_values(|g: Gun| spec_cool_gun(g)),
        missile_launchers: d.missile_launchers.map_values(
            |l: MissileLauncher| spec_cool_launcher(l),
        ),
        ..d
    };
    let b2 = Body {
        force: spec_tick_force(b, d.acceleration),
        torque: spec_tick_torque(b, d.angular_acceleration),
        ..b
    };
    let d2 = ShipDataView { acceleration: Vec2 { x: 0, y: 0 }, angular_acceleration: 0, ..d1 };
    let d3 = if d2.ttl is Some {
        ShipDataView {
            ttl: Some(
                if d2.ttl.unwrap() >= 1 {
                    (d2.ttl.unwrap() - 1) as u64
                } else {
                    0u64
                },
            ),
            ..d2
        }
    } else {
        d2
    };
    let s3 = SimView {
        ship_data: s.ship_data.update(h.index as int, Some(d3)),
        bodies: s.bodies.update(h.index as int, Some(b2)),
        ..s
    };
    let s4 = if d3.ttl == Some(0u64) {
        spec_explode(s3, h)
    } else {
        s3
    };
    if sim_data(s4, h).destroyed {
        SimView {
            ships: spec_remove_first(s4.ships, h),
            ship_data: s4.ship_data.update(h.index as int, None),
            bodies: s4.bodies.update(h.index as int, None),
            ..s4
        }
    } else {
        s4
    }
}

/// Multiplies and rescales a milli-unit quantity, truncating toward zero.
fn mul_div_1000(a: i64, m: i64) -> (r: i64)
    requires
        -4_000_000_000 <= a <= 4_000_000_000,
        0 <= m <= crate::geom::INERTIA_LIMIT,
    ensures
        r == spec_div_trunc(a as int * m as int, 1000),
{
    proof {
        assert(-(4_000_000_000int * 1_000_000_000_000int) <= (a as int) * (m as int) <= (
        4_000_000_000int * 1_000_000_000_000int)) by (nonlinear_arith)
            requires
                -4_000_000_000 <= a as int <= 4_000_000_000,
                0 <= m as int <= 1_000_000_000_000,
        ;
    }
    let n = (a as i128) * (m as i128);
    if n >= 0 {
        proof {
            lemma_div_is_ordered(n as int, 4_000_000_000_000_000_000_000int, 1000);
            lemma_div_pos_is_pos(n as int, 1000);
        }
        let q = (n as u128) / 1000;
        q as i64
    } else {
        proof {
            lemma_div_is_ordered(-(n as int), 4_000_000_000_000_000_000_000int, 1000);
            lemma_div_pos_is_pos(-(n as int), 1000);
        }
        let q = ((-n) as u128) / 1000;
        -(q as i64)
    }
}

impl Simulation {
    /// One integrator pass over ship `handle`: decay every reload
    /// countdown by one tick, turn the pending acceleration and angular
    /// acceleration into the body's force and torque accumulators and
    /// clear them, decay the time-to-live and self-destruct at zero, and
    /// finally evict the ship from the registry and both stores if it is
    /// destroyed.
    #[verifier::rlimit(60)]
    pub fn tick(&mut self, handle: ShipHandle)
        requires
            sim_wf(old(self)@),
            sim_live(old(self)@, handle),
        ensures
            final(self)@ == spec_tick_ship(old(self)@, handle),
            sim_wf(final(self)@),
            forall|h2: ShipHandle|
                sim_live(old(self)@, h2) && h2.index != handle.index ==> sim_live(
                    final(self)@,
                    h2,
                ),
    {
        let ghost s0 = self@;
        let idx = handle.index() as usize;
        let mut d = self.ship_data[idx].take().unwrap();

        let ghost guns0 = d.guns@;
        let mut new_guns: Vec<Gun> = Vec::new();
        let mut i: usize = 0;
        while i < d.guns.len()
            invariant
                0 <= i <= d.guns.len(),
                d.guns@ == guns0,
                new_guns@.len() == i,
                forall|j: int| 0 <= j < i ==> new_guns@[j] == spec_cool_gun(guns0[j]),
            decreases d.guns.len() - i,
        {
            let mut g = d.guns[i];
            if g.reload_time_remaining >= 1 {
                g.reload_time_remaining = g.reload_time_remaining - 1;
            }
            new_guns.push(g);
            i = i + 1;
        }
        d.guns = new_guns;
        proof {
            assert(d.guns@ =~= guns0.map_values(|g: Gun| spec_cool_gun(g)));
        }

        let ghost launchers0 = d.missile_launchers@;
        let mut new_launchers: Vec<MissileLauncher> = Vec::new();
        let mut i2: usize = 0;
        while i2 < d.missile_launchers.len()
            invariant
                0 <= i2 <= d.missile_launchers.len(),
                d.missile_launchers@ == launchers0,
                new_launchers@.len() == i2,
                forall|j: int|
                    0 <= j < i2 ==> new_launchers@[j] == spec_cool_launcher(launchers0[j]),
            decreases d.missile_launchers.len() - i2,
        {
            let mut l = d.missile_launchers[i2];
            if l.reload_time_remaining >= 1 {
                l.reload_time_remaining = l.reload_time_remaining - 1;
            }
            new_launchers.push(l);
            i2 = i2 + 1;
        }
        d.missile_launchers = new_launchers;
        proof {
            assert(d.missile_launchers@ =~= launchers0.map_values(
                |l: MissileLauncher| spec_cool_launcher(l),
            ));
        }

        let mut b = self.bodies[idx].take().unwrap();
        proof {
            assert(data_wf(sim_data(s0, handle)));
            assert(d.acceleration == sim_data(s0, handle).acceleration);
            assert(d.angular_acceleration == sim_data(s0, handle).angular_acceleration);
            assert(body_wf(sim_body(s0, handle)));
            assert(b == sim_body(s0, handle));
        }
        let accel_rot = rot_vec(b.rotation, d.acceleration);
        b.force = Vec2 { x: mul_div_1000(accel_rot.x, b.mass), y: mul_div_1000(accel_rot.y, b.mass) };
        b.torque = mul_div_1000(d.angular_acceleration, b.inertia);
        self.bodies[idx] = Some(b);
        d.acceleration = Vec2 { x: 0, y: 0 };
        d.angular_acceleration = 0;

        let mut ttl_hit = false;
        match d.ttl {
            Some(t) => {
                let nt: u64 = if t >= 1 {
                    t - 1
                } else {
                    0
                };
                d.ttl = Some(nt);
                ttl_hit = nt == 0;
            },
            None => {},
        }
        self.ship_data[idx] = Some(d);

        let ghost s3 = self@;
        proof {
            let d0 = sim_data(s0, handle);
            let dv = sim_data(self@, handle);
            assert forall|j: int| 0 <= j < dv.guns.len() implies gun_wf(#[trigger] dv.guns[j]) by {
                assert(gun_wf(d0.guns[j]));
                assert(dv.guns[j] == spec_cool_gun(d0.guns[j]));
            }
            assert forall|j: int| 0 <= j < dv.missile_launchers.len() implies launcher_wf(
                #[trigger] dv.missile_launchers[j],
            ) by {
                assert(launcher_wf(d0.missile_launchers[j]));
                assert(dv.missile_launchers[j] == spec_cool_launcher(d0.missile_launchers[j]));
            }
            assert(data_wf(dv));
            lemma_wf_with_data(s0, handle, dv);
            lemma_wf_with_body(with_data(s0, handle, dv), handle, sim_body(self@, handle));
            assert(s3 =~~= with_body(with_data(s0, handle, dv), handle, sim_body(self@, handle)));
            assert(sim_wf(s3));
            assert(sim_live(s3, handle));
        }

        if ttl_hit {
            self.explode(handle);
        }
        let ghost s4 = self@;
        proof {
            assert(sim_wf(s4));
            assert(sim_live(s4, handle));
        }

        let destroyed = self.ship_data[idx].as_ref().unwrap().destroyed;
        if destroyed {
            let n = self.ships.len();
            let mut pos: usize = 0;
            while pos < n && !(self.ships[pos] == handle)
                invariant
                    n == self.ships.len(),
                    0 <= pos <= n,
                    forall|j: int| 0 <= j < pos ==> self.ships@[j] != handle,
                decreases n - pos,
            {
                pos = pos + 1;
            }
            proof {
                if pos < self.ships@.len() {
                    lemma_remove_first_at(s4.ships, handle, pos as int);
                } else {
                    lemma_remove_first_absent(s4.ships, handle);
                }
            }
            if pos < self.ships.len() {
                self.ships.remove(pos);
            }
            self.bodies[idx] = None;
            self.ship_data[idx] = None;
            proof {
                assert(self@ =~~= spec_tick_ship(s0, handle));
                assert forall|i3: int| 0 <= i3 < self@.ships.len() implies sim_live(
                    self@,
                    #[trigger] self@.ships[i3],
                ) by {
                    if pos < s4.ships.len() {
                        assert(self@.ships == s4.ships.remove(pos as int));
                        let orig = if i3 < pos {
                            i3
                        } else {
                            i3 + 1
                        };
                        assert(self@.ships[i3] == s4.ships[orig]);
                        assert(sim_live(s4, s4.ships[orig]));
                        assert(s4.ships[orig].index != handle.index) by {
                            if s4.ships[orig].index == handle.index {
                                assert(s4.ships[orig] == handle);
                                assert(s4.ships[pos as int] == handle);
                            }
                        }
                    } else {
                        assert(sim_live(s4, s4.ships[i3]));
                        assert(s4.ships[i3] != handle);
                        assert(s4.ships[i3].index != handle.index) by {
                            if s4.ships[i3].index == handle.index {
                                assert(s4.ships[i3].generation == 0);
                                assert(s4.ships[i3] == handle);
                            }
                        }
                    }
                }
                assert forall|i3: int, j3: int| 0 <= i3 < j3 < self@.ships.len() implies (
                #[trigger] self@.ships[i3]).index != (#[trigger] self@.ships[j3]).index by {
                    if pos < s4.ships.len() {
                        let oi = if i3 < pos {
                            i3
                        } else {
                            i3 + 1
                        };
                        let oj = if j3 < pos {
                            j3
                        } else {
                            j3 + 1
                        };
                        assert(self@.ships[i3] == s4.ships[oi]);
                        assert(self@.ships[j3] == s4.ships[oj]);
                    }
                }
                assert(sim_wf(self@));
            }
        } else {
            proof {
                assert(self@ =~~= spec_tick_ship(s0, handle));
            }
        }
    }
}

/// Integrator passes over a list of ships, front first.
pub open spec fn spec_tick_list(s: SimView, hs: Seq<ShipHandle>) -> SimView
    decreases hs.len(),
{
    if hs.len() == 0 {
        s
    } else {
        spec_tick_list(spec_tick_ship(s, hs[0]), hs.drop_first())
    }
}

/// The state after an integrator walk over a snapshot of handles: one
/// pass per handle, front first, then the tick counter advances.
pub open spec fn spec_tick_ships(s: SimView, hs: Seq<ShipHandle>) -> SimView {
    let s2 = spec_tick_list(s, hs);
    SimView {
        tick_number: if s2.tick_number == u32::MAX {
            0u32
        } else {
            (s2.tick_number + 1) as u32
        },
        ..s2
    }
}

/// The state after one whole simulation tick over the registry as it
/// stands: an integrator pass over every ship in registry order, then
/// the tick counter advances.
pub open spec fn spec_tick_all(s: SimView) -> SimView {
    spec_tick_ships(s, s.ships)
}

impl Simulation {
    /// The registry membership at this moment, in stable insertion
    /// order. An embedder takes this snapshot before the tick's actuator
    /// phase and hands it to `tick_ships`, so that ships spawned during
    /// the tick are not integrated until the next one.
    pub fn snapshot_ships(&self) -> (r: Vec<ShipHandle>)
        ensures
            r@ == self@.ships,
    {
        let mut snapshot: Vec<ShipHandle> = Vec::new();
        let mut i: usize = 0;
        while i < self.ships.len()
            invariant
                0 <= i <= self.ships.len(),
                snapshot@ == self.ships@.take(i as int),
            decreases self.ships.len() - i,
        {
            snapshot.push(self.ships[i]);
            i = i + 1;
        }
        proof {
            assert(snapshot@ =~= self@.ships);
        }
        snapshot
    }

    /// Runs one integrator pass over each handle of `snapshot`, in
    /// order, and advances the tick counter. The snapshot is the
    /// pre-tick registry membership the embedder captured with
    /// `snapshot_ships` before running the control programs: ships
    /// spawned during the tick's actuator phase are absent from it and
    /// so are integrated only from the next tick.
    pub fn tick_ships(&mut self, snapshot: &Vec<ShipHandle>)
        requires
            sim_wf(old(self)@),
            forall|j: int|
                0 <= j < snapshot@.len() ==> sim_live(old(self)@, #[trigger] snapshot@[j]),
            forall|j1: int, j2: int|
                0 <= j1 < j2 < snapshot@.len() ==> (#[trigger] snapshot@[j1]).index != (
                #[trigger] snapshot@[j2]).index,
        ensures
            final(self)@ == spec_tick_ships(old(self)@, snapshot@),
            sim_wf(final(self)@),
    {
        let ghost s0 = self@;
        proof {
            assert(snapshot@.skip(0) =~= snapshot@);
        }
        let n = snapshot.len();
        let mut k: usize = 0;
        while k < n
            invariant
                0 <= k <= n,
                n == snapshot@.len(),
                sim_wf(self@),
                spec_tick_list(s0, snapshot@) == spec_tick_list(
                    self@,
                    snapshot@.skip(k as int),
                ),
                forall|j: int| k <= j < n ==> sim_live(self@, #[trigger] snapshot@[j]),
                forall|j1: int, j2: int|
                    k <= j1 < j2 < n ==> (#[trigger] snapshot@[j1]).index != (
                    #[trigger] snapshot@[j2]).index,
            decreases n - k,
        {
            let h = snapshot[k];
            let ghost before = self@;
            proof {
                assert(snapshot@.skip(k as int)[0] == h);
                assert(snapshot@.skip(k as int).drop_first() =~= snapshot@.skip(k as int + 1));
            }
            self.tick(h);
            k = k + 1;
            proof {
                assert(spec_tick_list(before, snapshot@.skip(k as int - 1)) == spec_tick_list(
                    self@,
                    snapshot@.skip(k as int),
                ));
                assert forall|j: int| k <= j < n implies sim_live(
                    self@,
                    #[trigger] snapshot@[j],
                ) by {
                    assert(sim_live(before, snapshot@[j]));
                    assert(snapshot@[j].index != h.index);
                }
            }
        }
        proof {
            assert(snapshot@.skip(n as int) =~= Seq::<ShipHandle>::empty());
            assert(spec_tick_list(self@, snapshot@.skip(n as int)) == self@);
        }
        let ghost s2 = self@;
        if self.tick_number == u32::MAX {
            self.tick_number = 0;
        } else {
            self.tick_number = self.tick_number + 1;
        }
        proof {
            assert(self@ =~~= spec_tick_ships(s0, snapshot@));
            assert(sim_wf(self@)) by {
                assert(self@.bodies == s2.bodies);
                assert(self@.ships == s2.ships);
                assert(self@.ship_data == s2.ship_data);
                assert forall|i3: int| 0 <= i3 < self@.ships.len() implies sim_live(
                    self@,
                    #[trigger] self@.ships[i3],
                ) by {
                    assert(sim_live(s2, s2.ships[i3]));
                }
            }
        }
    }

    /// Runs one integrator pass over every ship now in the registry and
    /// advances the tick counter. This is `tick_ships` over a snapshot
    /// taken at the call itself, so it is the whole-tick entry point
    /// only when nothing spawned since the last counter advance; an
    /// embedder whose actuator phase can launch ships must capture the
    /// snapshot with `snapshot_ships` before that phase and call
    /// `tick_ships`.
    pub fn tick_all(&mut self)
        requires
            sim_wf(old(self)@),
        ensures
            final(self)@ == spec_tick_all(old(self)@),
            sim_wf(final(self)@),
    {
        let snapshot = self.snapshot_ships();
        proof {
            assert forall|j: int| 0 <= j < snapshot@.len() implies sim_live(
                self@,
                #[trigger] snapshot@[j],
            ) by {
                assert(sim_live(self@, self@.ships[j]));
            }
        }
        self.tick_ships(&snapshot);
    }
}

} // verus!
