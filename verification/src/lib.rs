//! Ship lifecycle and actuation engine for a deterministic 2D space-combat
//! simulation.
//!
//! The library owns the per-tick loop that turns queued actuator intents
//! (acceleration, torque, gun fire, missile launch, explode) into physics
//! forces, projectile emissions and new-ship spawns, while enforcing
//! per-class limits, reload timers, time-to-live decay and destruction
//! cleanup.
//!
//! All quantities are fixed-point integers so that every simulation step is
//! bit-reproducible:
//! - distances, speeds, masses, damage and health carry milli-units
//!   (1000 = 1.0),
//! - angles carry micro-radians, with a full turn of `TAU_URAD`,
//! - time is counted in whole physics ticks.
//!
//! The rigid-body engine, the projectile subsystem, the radar model and the
//! per-team control programs are external collaborators: the library keeps
//! an integer-valued mirror of the body state, queues projectile emissions
//! and controller-construction requests, and the embedding program performs
//! the actual physics stepping, rendering and control-program calls.

pub mod geom;
pub mod rng;
pub mod trig;
pub mod ship;
pub mod sim;
pub mod laws;
