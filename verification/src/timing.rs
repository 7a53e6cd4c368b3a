//! The timing scheduler: jittered, staggered attestation timestamps.

use vstd::prelude::*;
use crate::arith::{sat_add, sat_mul, sat_add_u64, sat_mul_u64};

verus! {

/// Fixed delay between the schedules of neighbouring nodes in one batch.
pub const STAGGER_UNIT_MS: u64 = 200;

/// The timing state of one node.
#[derive(Clone, Copy, PartialEq, Eq, Structural, Debug)]
pub struct TimingProfile {
    /// Base delay between two attestations of the node.
    pub base_interval_ms: u64,
    /// Amplitude of the uniform jitter.
    pub max_jitter_ms: u64,
    /// When the next attestation is due, in milliseconds of simulation time.
    pub next_attestation_ms: u64,
}

/// The delay a jitter draw adds: the draw is taken from `[0, 2 * amplitude]`
/// and stands for `draw - amplitude`, clamped to be non-negative.
pub open spec fn jitter_delay(draw: nat, amplitude: nat) -> nat {
    if draw > amplitude {
        (draw - amplitude) as nat
    } else {
        0
    }
}

/// When the attestation of the node at `position` in the batch goes out:
/// its due time, plus the jitter delay, plus the position stagger.
pub open spec fn scheduled_time(due: nat, delay: nat, position: nat) -> nat {
    sat_add(sat_add(due, delay), sat_mul(position, STAGGER_UNIT_MS as nat))
}

/// Compute one scheduled timestamp from a jitter draw.
pub fn schedule_attestation(due: u64, draw: u64, amplitude: u64, position: u64) -> (r: u64)
    ensures
        r == scheduled_time(due as nat, jitter_delay(draw as nat, amplitude as nat), position as nat),
{
    let delay = if draw > amplitude {
        draw - amplitude
    } else {
        0
    };
    let stagger = sat_mul_u64(position, STAGGER_UNIT_MS);
    sat_add_u64(sat_add_u64(due, delay), stagger)
}

} // verus!
