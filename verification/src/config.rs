//! The immutable service configuration, parsed once at startup and shared
//! by reference with the ingress side and the session factory.

use vstd::prelude::*;

verus! {

/// How many thousandths the target angle may be away from zero for the
/// pitch derivation to stay exact in 64-bit arithmetic.
pub const ANGLE_LIMIT_MILLI: i64 = 1_000_000_000;

/// Service configuration: where to bind, how often sessions re-poll the
/// cell, and the target angle (in thousandths of a degree) that the pitch
/// derivation subtracts from.
pub struct Config {
    pub bind_address: String,
    pub update_interval_ms: u64,
    pub target_angle_milli: i64,
}

impl Config {
    /// The target angle is small enough that the derivation cannot
    /// overflow.
    pub open spec fn valid(self) -> bool {
        -ANGLE_LIMIT_MILLI <= self.target_angle_milli <= ANGLE_LIMIT_MILLI
    }

    /// A configuration from explicit parts.
    pub fn new(bind_address: String, update_interval_ms: u64, target_angle_milli: i64) -> (c:
        Config)
        requires
            -ANGLE_LIMIT_MILLI <= target_angle_milli <= ANGLE_LIMIT_MILLI,
        ensures
            c.bind_address@ == bind_address@,
            c.update_interval_ms == update_interval_ms,
            c.target_angle_milli == target_angle_milli,
            c.valid(),
    {
        Config { bind_address, update_interval_ms, target_angle_milli }
    }
}

impl Default for Config {
    /// The stock configuration: local bind address, a 50 ms update
    /// interval, and a target angle of 80 degrees.
    fn default() -> (c: Config)
        ensures
            c.bind_address@ == "127.0.0.1:3030"@,
            c.update_interval_ms == 50,
            c.target_angle_milli == 80_000,
            c.valid(),
    {
        Config {
            bind_address: String::from_str("127.0.0.1:3030"),
            update_interval_ms: 50,
            target_angle_milli: 80_000,
        }
    }
}

} // verus!
