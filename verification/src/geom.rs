//! Plain 2D vectors and the fixed-point unit system.
//!
//! Distances, speeds, accelerations, masses, damage and health are stored
//! as `i64` milli-units (1000 = 1.0). Angles are stored as `i64`
//! micro-radians. The `*_LIMIT` constants bound every stored quantity so
//! that all arithmetic in the engine stays inside `i64`/`i128` ranges.

use vstd::prelude::*;

verus! {

/// Largest magnitude of a stored world coordinate, in milli-units.
pub const COORD_LIMIT: i64 = 1_000_000_000_000_000;

/// Largest magnitude of a stored linear velocity, in milli-units per second.
pub const VEL_LIMIT: i64 = 1_000_000_000_000;

/// Largest magnitude of a stored rotation angle, in micro-radians.
pub const ANGLE_LIMIT: i64 = 1_000_000_000_000;

/// Largest magnitude of an armament mount offset, in milli-units.
pub const OFFSET_LIMIT: i64 = 1_000_000_000;

/// Largest magnitude of a linear acceleration bound, in milli-units per
/// second squared.
pub const ACCEL_LIMIT: i64 = 1_000_000_000;

/// Largest magnitude of an angular acceleration bound, in micro-radians per
/// second squared.
pub const ANG_ACCEL_LIMIT: i64 = 1_000_000_000;

/// Largest magnitude of a muzzle or launch speed, in milli-units per second.
pub const SPEED_LIMIT: i64 = 1_000_000_000;

/// Largest stored body mass, in milli-units.
pub const MASS_LIMIT: i64 = 1_000_000_000;

/// Largest stored principal inertia, in milli-units.
pub const INERTIA_LIMIT: i64 = 1_000_000_000_000;

/// A 2D vector of fixed-point milli-unit coordinates.
#[derive(Clone, Copy, PartialEq, Eq, Structural, Debug)]
pub struct Vec2 {
    pub x: i64,
    pub y: i64,
}

/// Absolute value of a mathematical integer.
pub open spec fn abs_i(x: int) -> int {
    if x >= 0 {
        x
    } else {
        -x
    }
}

/// `v` pulled into the band `[-limit, limit]`.
pub open spec fn spec_clamp(v: int, limit: int) -> int {
    if v > limit {
        limit
    } else if v < -limit {
        -limit
    } else {
        v
    }
}

/// Clamps `v` to the symmetric band `[-limit, limit]`.
pub fn clamp_i64(v: i64, limit: i64) -> (r: i64)
    requires
        0 <= limit,
    ensures
        r == spec_clamp(v as int, limit as int),
        -limit <= r <= limit,
{
    if v > limit {
        limit
    } else if v < -limit {
        -limit
    } else {
        v
    }
}

/// Componentwise clamp of a vector to the box `[-limit.x, limit.x] x
/// [-limit.y, limit.y]`.
pub open spec fn spec_clamp_vec(v: Vec2, limit: Vec2) -> Vec2 {
    Vec2 { x: spec_clamp(v.x as int, limit.x as int) as i64, y: spec_clamp(
        v.y as int,
        limit.y as int,
    ) as i64 }
}

/// Clamps each component of `v` to the matching component of `limit`.
pub fn clamp_vec(v: Vec2, limit: Vec2) -> (r: Vec2)
    requires
        0 <= limit.x,
        0 <= limit.y,
    ensures
        r == spec_clamp_vec(v, limit),
        -limit.x <= r.x <= limit.x,
        -limit.y <= r.y <= limit.y,
{
    Vec2 { x: clamp_i64(v.x, limit.x), y: clamp_i64(v.y, limit.y) }
}

} // verus!
