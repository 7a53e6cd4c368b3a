//! Simulation parameters and their construction-time validation.

use vstd::prelude::*;

verus! {

/// One unit of score: sub-scores and the composite live in `[0, SCORE_SCALE]`
/// thousandths.
pub const SCORE_SCALE: u64 = 1000;

/// Largest admitted timing jitter, so that the draw over
/// `[-jitter, +jitter]` has a width that fits in a machine word.
pub const MAX_JITTER_LIMIT_MS: u64 = 0x7fffffffffffffff;

/// Immutable parameters of one simulation run.
#[derive(Clone, Copy, PartialEq, Eq, Structural, Debug)]
pub struct EvasionConfig {
    /// Number of synthetic identities in the fleet.
    pub fleet_size: usize,
    /// Detection threshold in thousandths: the fleet survives an epoch only
    /// while the composite score stays below it.
    pub target_score: u64,
    /// Largest timing jitter, in milliseconds.
    pub max_timing_jitter_ms: u64,
    /// Size of the virtual address pool.
    pub ip_pool_size: u64,
    /// Fingerprint drift step per epoch, in millionths.
    pub fingerprint_variance: u64,
    /// Epochs the fleet must survive.
    pub min_epochs: u32,
}

/// Why a configuration was rejected.
#[derive(Clone, Copy, PartialEq, Eq, Structural, Debug)]
pub enum ConfigError {
    /// The fleet is empty.
    InvalidFleetSize,
    /// The target score lies outside `(0, SCORE_SCALE]`.
    InvalidTargetScore,
    /// The address pool is empty.
    InvalidIpPoolSize,
    /// No epoch to survive.
    InvalidMinEpochs,
    /// The jitter bound is too large for the sampling range.
    JitterTooLarge,
}

/// A configuration the simulator accepts.
pub open spec fn config_valid(c: EvasionConfig) -> bool {
    &&& 1 <= c.fleet_size <= u32::MAX as usize
    &&& 0 < c.target_score <= SCORE_SCALE
    &&& c.ip_pool_size >= 1
    &&& c.min_epochs >= 1
    &&& c.max_timing_jitter_ms <= MAX_JITTER_LIMIT_MS
}

impl EvasionConfig {
    /// Check every bound; the first broken rule names the error.
    pub fn validate(&self) -> (r: Result<(), ConfigError>)
        ensures
            r is Ok <==> config_valid(*self),
            !(1 <= self.fleet_size <= u32::MAX as usize) ==> r == Result::<(), ConfigError>::Err(
                ConfigError::InvalidFleetSize,
            ),
            1 <= self.fleet_size <= u32::MAX as usize && !(0 < self.target_score <= SCORE_SCALE) ==> r
                == Result::<(), ConfigError>::Err(ConfigError::InvalidTargetScore),
            1 <= self.fleet_size <= u32::MAX as usize && 0 < self.target_score <= SCORE_SCALE && self.ip_pool_size < 1
                ==> r == Result::<(), ConfigError>::Err(ConfigError::InvalidIpPoolSize),
            1 <= self.fleet_size <= u32::MAX as usize && 0 < self.target_score <= SCORE_SCALE && self.ip_pool_size >= 1
                && self.min_epochs < 1 ==> r == Result::<(), ConfigError>::Err(
                ConfigError::InvalidMinEpochs,
            ),
            1 <= self.fleet_size <= u32::MAX as usize && 0 < self.target_score <= SCORE_SCALE && self.ip_pool_size >= 1
                && self.min_epochs >= 1 && self.max_timing_jitter_ms > MAX_JITTER_LIMIT_MS ==> r
                == Result::<(), ConfigError>::Err(ConfigError::JitterTooLarge),
    {
        if self.fleet_size < 1 || self.fleet_size > u32::MAX as usize {
            return Err(ConfigError::InvalidFleetSize);
        }
        if self.target_score == 0 || self.target_score > SCORE_SCALE {
            return Err(ConfigError::InvalidTargetScore);
        }
        if self.ip_pool_size < 1 {
            return Err(ConfigError::InvalidIpPoolSize);
        }
        if self.min_epochs < 1 {
            return Err(ConfigError::InvalidMinEpochs);
        }
        if self.max_timing_jitter_ms > MAX_JITTER_LIMIT_MS {
            return Err(ConfigError::JitterTooLarge);
        }
        Ok(())
    }
}

impl Default for EvasionConfig {
    /// The stock configuration: five nodes, a 0.25 target, a pool of 50
    /// addresses, 15 seconds of jitter, a 0.05 drift step, three epochs.
    fn default() -> (r: Self)
        ensures
            r.fleet_size == 5,
            r.target_score == 250,
            r.max_timing_jitter_ms == 15000,
            r.ip_pool_size == 50,
            r.fingerprint_variance == 50000,
            r.min_epochs == 3,
            config_valid(r),
    {
        EvasionConfig {
            fleet_size: 5,
            target_score: 250,
            max_timing_jitter_ms: 15000,
            ip_pool_size: 50,
            fingerprint_variance: 50000,
            min_epochs: 3,
        }
    }
}

} // verus!
