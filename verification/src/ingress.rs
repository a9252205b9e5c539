//! The ingress side: one long-lived writer that turns each raw orientation
//! sample into a [`Reading`] and stores it in the shared cell.
//!
//! Angles are fixed point, in thousandths of a degree; the transport's
//! floating-point field is scaled to that at the process edge, outside this
//! crate. Per sample the writer computes
//! `pitch = target_angle - raw / 180 * pi`, renders the label
//! `Pitch = <pitch>°`, and overwrites the cell. The writer never waits on
//! any session.

use vstd::prelude::*;

use crate::cell::LatestValueCell;
use crate::cell::write_spec;
use crate::config::ANGLE_LIMIT_MILLI;
use crate::config::Config;
use crate::fmt::signed_fixed3_rep;
use crate::fmt::fixed3_to_dec;
use crate::reading::Reading;
use crate::reading::ReadingView;

verus! {

/// `pi / 180`, in millionths: the factor that takes a raw angle to its
/// radian measure at this crate's precision.
pub const RAD_PER_DEG_MICRO: i64 = 17_453;

/// `raw / 180 * pi` in fixed point, rounded toward zero: the raw sample,
/// in thousandths, scaled by `RAD_PER_DEG_MICRO` millionths.
pub open spec fn rad_scaled(raw: int) -> int {
    if raw >= 0 {
        (raw * RAD_PER_DEG_MICRO) / 1_000_000
    } else {
        -(((-raw) * RAD_PER_DEG_MICRO) / 1_000_000)
    }
}

/// The derived pitch, in thousandths: `target - raw / 180 * pi`.
pub open spec fn pitch_of(target: int, raw: int) -> int {
    target - rad_scaled(raw)
}

/// The display label for a pitch value: `Pitch = <value>°`.
pub open spec fn label_of(pitch: int) -> Seq<char> {
    "Pitch = "@ + signed_fixed3_rep(pitch) + "\u{00b0}"@
}

/// The reading derived from one raw sample under a target angle.
pub open spec fn derived_reading(target: int, raw: int) -> ReadingView {
    ReadingView { value: pitch_of(target, raw), label: label_of(pitch_of(target, raw)) }
}

/// Computes the pitch, in thousandths, for one raw sample.
pub fn compute_pitch(target_milli: i64, raw_milli: i64) -> (p: i64)
    requires
        -ANGLE_LIMIT_MILLI <= target_milli <= ANGLE_LIMIT_MILLI,
        -ANGLE_LIMIT_MILLI <= raw_milli <= ANGLE_LIMIT_MILLI,
    ensures
        p == pitch_of(target_milli as int, raw_milli as int),
        -2 * ANGLE_LIMIT_MILLI <= p <= 2 * ANGLE_LIMIT_MILLI,
{
    let rad: i64 = if raw_milli >= 0 {
        let m: u64 = raw_milli as u64;
        ((m * 17_453) / 1_000_000) as i64
    } else {
        let m: u64 = (-raw_milli) as u64;
        -(((m * 17_453) / 1_000_000) as i64)
    };
    proof {
        assert(rad == rad_scaled(raw_milli as int));
        assert(-ANGLE_LIMIT_MILLI <= rad <= ANGLE_LIMIT_MILLI);
    }
    target_milli - rad
}

/// Builds the full reading — pitch value and rendered label — for one raw
/// sample.
pub fn derive_reading(target_milli: i64, raw_milli: i64) -> (r: Reading)
    requires
        -ANGLE_LIMIT_MILLI <= target_milli <= ANGLE_LIMIT_MILLI,
        -ANGLE_LIMIT_MILLI <= raw_milli <= ANGLE_LIMIT_MILLI,
    ensures
        r@ == derived_reading(target_milli as int, raw_milli as int),
{
    let pitch = compute_pitch(target_milli, raw_milli);
    let mut label = String::from_str("Pitch = ");
    let num = fixed3_to_dec(pitch);
    label.append(num.as_str());
    label.append("\u{00b0}");
    proof {
        assert(label@ =~= label_of(pitch as int));
    }
    Reading { value: pitch, label }
}

/// The single writer. Holds the target angle; everything else it needs
/// arrives with each sample.
pub struct IngressAdapter {
    pub target_angle_milli: i64,
}

impl IngressAdapter {
    /// The writer for a configuration.
    pub fn new(config: &Config) -> (a: IngressAdapter)
        requires
            config.valid(),
        ensures
            a.target_angle_milli == config.target_angle_milli,
            a.valid(),
    {
        IngressAdapter { target_angle_milli: config.target_angle_milli }
    }

    /// The held target angle stays inside the range the derivation needs.
    pub open spec fn valid(self) -> bool {
        -ANGLE_LIMIT_MILLI <= self.target_angle_milli <= ANGLE_LIMIT_MILLI
    }

    /// One step of the ingress loop: derive the reading for `raw_milli` and
    /// overwrite the cell with it. Touches nothing but the cell; sessions
    /// are never consulted.
    pub fn on_message(&self, cell: &mut LatestValueCell, raw_milli: i64)
        requires
            self.valid(),
            -ANGLE_LIMIT_MILLI <= raw_milli <= ANGLE_LIMIT_MILLI,
        ensures
            final(cell)@ == write_spec(
                old(cell)@,
                derived_reading(self.target_angle_milli as int, raw_milli as int),
            ),
            final(cell)@.wf(),
    {
        let reading = derive_reading(self.target_angle_milli, raw_milli);
        cell.write(reading);
    }
}

} // verus!
