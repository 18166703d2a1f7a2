//! Engine-wide laws: properties of the step functions that hold for every
//! well-formed simulation state.
//!
//! Each mutating operation of [`crate::sim::Simulation`] ensures that its
//! post-state equals a pure step function of the pre-state, so the laws
//! proved here about those step functions carry over to the executable
//! engine.

use vstd::prelude::*;
use crate::geom::Vec2;
use crate::ship::ShipHandle;
use crate::sim::{
    Body,
    SimView,
    in_registry,
    sim_data,
    sim_live,
    sim_wf,
    spec_accelerate,
    spec_debris,
    spec_debris_count,
    spec_explode,
    spec_fire_gun,
    spec_tick_all,
    spec_tick_ship,
    spec_tick_ships,
};

verus! {

/// A debris fan of `n` projectiles has exactly `n` projectiles.
pub proof fn lemma_debris_len(b: Body, damage: i64, team: i32, state: u64, n: nat)
    ensures
        spec_debris(b, damage, team, state, n).0.len() == n,
    decreases n,
{
    if n > 0 {
        lemma_debris_len(b, damage, team, crate::rng::spec_rng_step(state), (n - 1) as nat);
    }
}

/// After an integrator pass, a surviving ship's pending intents are
/// cleared: its stored acceleration and angular acceleration are zero.
/// User programs must re-issue thrust every tick to sustain it.
pub proof fn lemma_tick_clears_intents(s: SimView, h: ShipHandle)
    requires
        sim_wf(s),
        sim_live(s, h),
    ensures
        sim_live(spec_tick_ship(s, h), h) ==> sim_data(spec_tick_ship(s, h), h).acceleration
            == (Vec2 { x: 0, y: 0 }),
        sim_live(spec_tick_ship(s, h), h) ==> sim_data(spec_tick_ship(s, h), h)
            .angular_acceleration == 0,
{
}

/// Reload countdowns never leave the band `[0, reload_time]`; in
/// particular, immediately after a firing tick every countdown is at most
/// one reload time plus one physics tick.
pub proof fn lemma_reload_within_bounds(s: SimView, h: ShipHandle, i: int)
    requires
        sim_wf(s),
        sim_live(s, h),
        0 <= i < sim_data(s, h).guns.len(),
    ensures
        0 <= sim_data(s, h).guns[i].reload_time_remaining <= sim_data(s, h).guns[i].reload_time,
        sim_data(s, h).guns[i].reload_time_remaining <= sim_data(s, h).guns[i].reload_time + 1,
{
    assert(data_wf_of(s, h));
}

/// Helper naming the well-formedness of one ship's data inside a
/// well-formed simulation.
spec fn data_wf_of(s: SimView, h: ShipHandle) -> bool {
    crate::ship::data_wf(sim_data(s, h))
}

/// Immediately after a firing tick — a ready gun fires and the
/// integrator then passes over the ship — the gun's countdown sits one
/// physics tick under its reload time, inside `[0, reload_time + 1]`.
pub proof fn lemma_reload_after_firing_tick(s: SimView, h: ShipHandle, i: int)
    requires
        sim_wf(s),
        sim_live(s, h),
        0 <= i < sim_data(s, h).guns.len(),
        sim_data(s, h).guns[i].reload_time_remaining == 0,
    ensures
        sim_live(spec_tick_ship(spec_fire_gun(s, h, i), h), h) ==> sim_data(
            spec_tick_ship(spec_fire_gun(s, h, i), h),
            h,
        ).guns[i].reload_time_remaining == sim_data(s, h).guns[i].reload_time - 1,
        sim_live(spec_tick_ship(spec_fire_gun(s, h, i), h), h) ==> 0 <= sim_data(
            spec_tick_ship(spec_fire_gun(s, h, i), h),
            h,
        ).guns[i].reload_time_remaining <= sim_data(s, h).guns[i].reload_time + 1,
{
    let s1 = spec_fire_gun(s, h, i);
    let s2 = spec_tick_ship(s1, h);
    if sim_live(s2, h) {
        assert(sim_data(s2, h).guns[i] == crate::sim::spec_cool_gun(sim_data(s1, h).guns[i]));
    }
}

/// A ready gun that fires leaves its countdown at exactly its reload
/// time: the advance is additive from zero.
pub proof fn lemma_fire_sets_reload(s: SimView, h: ShipHandle, i: int)
    requires
        sim_wf(s),
        sim_live(s, h),
        0 <= i < sim_data(s, h).guns.len(),
        sim_data(s, h).guns[i].reload_time_remaining == 0,
    ensures
        sim_data(spec_fire_gun(s, h, i), h).guns[i].reload_time_remaining == sim_data(
            s,
            h,
        ).guns[i].reload_time,
{
}

/// Every registry entry of a well-formed simulation names exactly one
/// occupied body slot and exactly one occupied data slot, and the two
/// stores pair slot for slot.
pub proof fn lemma_registry_consistent(s: SimView, i: int)
    requires
        sim_wf(s),
        0 <= i < s.ships.len(),
    ensures
        in_registry(s, s.ships[i]),
        sim_live(s, s.ships[i]),
        s.bodies[s.ships[i].index as int] is Some,
        s.ship_data[s.ships[i].index as int] is Some,
        forall|j: int| 0 <= j < s.ships.len() && j != i ==> (#[trigger] s.ships[j]).index
            != s.ships[i].index,
{
    assert forall|j: int| 0 <= j < s.ships.len() && j != i implies (#[trigger] s.ships[j]).index
        != s.ships[i].index by {
        if j < i {
            assert(s.ships[j].index != s.ships[i].index);
        }
    }
}

/// A ship whose time-to-live has not yet run out survives the integrator
/// pass with the counter lowered by exactly one.
pub proof fn lemma_ttl_decrements(s: SimView, h: ShipHandle, t: u64)
    requires
        sim_wf(s),
        sim_live(s, h),
        sim_data(s, h).ttl == Some(t),
        t >= 2,
        !sim_data(s, h).destroyed,
    ensures
        sim_live(spec_tick_ship(s, h), h),
        sim_data(spec_tick_ship(s, h), h).ttl == Some((t - 1) as u64),
{
}

/// On the tick where a live ship's time-to-live reaches zero, the ship is
/// destroyed — both its slots are vacated — and its class's whole debris
/// fan is emitted.
pub proof fn lemma_ttl_expiry(s: SimView, h: ShipHandle)
    requires
        sim_wf(s),
        sim_live(s, h),
        sim_data(s, h).ttl == Some(1u64),
        !sim_data(s, h).destroyed,
    ensures
        !sim_live(spec_tick_ship(s, h), h),
        spec_tick_ship(s, h).projectiles.len() == s.projectiles.len() + spec_debris_count(
            sim_data(s, h).class,
        ),
{
    let d = sim_data(s, h);
    let b = crate::sim::sim_body(s, h);
    let b2 = Body {
        force: crate::sim::spec_tick_force(b, d.acceleration),
        torque: crate::sim::spec_tick_torque(b, d.angular_acceleration),
        ..b
    };
    lemma_debris_len(
        b2,
        crate::sim::spec_debris_damage(d.class),
        d.team,
        crate::rng::spec_rng_init(0),
        spec_debris_count(d.class),
    );
}

/// Determinism: the step functions are pure, so equal pre-states under
/// the same inputs give equal post-states. Together with the engine's
/// contracts — every mutator ensures its post-state equals the step
/// function of its pre-state — two runs of the same actuator sequence
/// from the same initial state stay identical, tick for tick.
pub proof fn lemma_step_deterministic(
    s1: SimView,
    s2: SimView,
    h: ShipHandle,
    index: int,
    hs: Seq<ShipHandle>,
)
    requires
        s1 == s2,
    ensures
        spec_fire_gun(s1, h, index) == spec_fire_gun(s2, h, index),
        spec_explode(s1, h) == spec_explode(s2, h),
        spec_tick_ship(s1, h) == spec_tick_ship(s2, h),
        spec_tick_ships(s1, hs) == spec_tick_ships(s2, hs),
        spec_tick_all(s1) == spec_tick_all(s2),
{
}

/// Exploding twice in one tick emits debris once: a second `explode` on
/// an already destroyed ship changes nothing.
pub proof fn lemma_explode_idempotent(s: SimView, h: ShipHandle)
    requires
        sim_wf(s),
        sim_live(s, h),
    ensures
        spec_explode(spec_explode(s, h), h) == spec_explode(s, h),
{
    let s1 = spec_explode(s, h);
    if !sim_data(s, h).destroyed {
        assert(sim_data(s1, h).destroyed);
    }
}

/// Firing while the gun is reloading leaves the whole simulation
/// unchanged and emits no projectiles.
pub proof fn lemma_fire_reloading_noop(s: SimView, h: ShipHandle, i: int)
    requires
        sim_wf(s),
        sim_live(s, h),
        0 <= i < sim_data(s, h).guns.len(),
        sim_data(s, h).guns[i].reload_time_remaining > 0,
    ensures
        spec_fire_gun(s, h, i) == s,
{
}

/// Two acceleration requests in one tick: the last writer wins, and the
/// stored intent is the clamp of the later request alone.
pub proof fn lemma_accelerate_last_wins(s: SimView, h: ShipHandle, v: Vec2, w: Vec2)
    requires
        sim_wf(s),
        sim_live(s, h),
    ensures
        spec_accelerate(spec_accelerate(s, h, v), h, w) == spec_accelerate(s, h, w),
{
    assert(spec_accelerate(spec_accelerate(s, h, v), h, w) =~~= spec_accelerate(s, h, w));
}

} // verus!
