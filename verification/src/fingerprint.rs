//! Synthetic hardware fingerprints: categorical fields drawn from fixed
//! pools, continuous fields that drift a bounded amount per epoch.

use vstd::prelude::*;
use crate::arith::{sat_add, sat_mul, sat_add_u64, sat_mul_u64};
use crate::rng::rand_below;

verus! {

/// Smallest physically plausible clock-drift coefficient, in millionths.
pub const DRIFT_EPS_MICRO: u64 = 1000;

/// Cap on the drift amplitude per epoch, so that the sampling width
/// `2 * amplitude + 1` fits in a machine word.
pub const DRIFT_AMPLITUDE_CAP: u64 = 0x4000000000000000;

/// A snapshot of the synthetic hardware signals of one node.
pub struct HardwareFingerprint {
    pub cpu_vendor: String,
    pub cpu_model: String,
    /// Clock-drift coefficient in millionths.
    pub clock_drift_cv_micro: u64,
    pub cache_timing_ns: u64,
    pub simd_capabilities: Vec<String>,
    pub memory_layout: String,
}

/// The vendor pool.
pub open spec fn vendor_pool(i: int) -> Seq<char> {
    if i == 0 {
        "GenuineIntel"@
    } else {
        "AuthenticAMD"@
    }
}

/// The model pool.
pub open spec fn model_pool(i: int) -> Seq<char> {
    if i == 0 {
        "Intel(R) Core(TM) i9-9900K"@
    } else if i == 1 {
        "AMD Ryzen 9 5900X"@
    } else if i == 2 {
        "Intel(R) Core(TM) i7-10700K"@
    } else {
        "AMD Ryzen 7 5800X"@
    }
}

/// The capability pool; a node reports its first two to four entries.
pub open spec fn simd_pool(i: int) -> Seq<char> {
    if i == 0 {
        "SSE4.2"@
    } else if i == 1 {
        "AVX"@
    } else if i == 2 {
        "AVX2"@
    } else if i == 3 {
        "AVX-512"@
    } else {
        "FMA"@
    }
}

/// The memory-layout pool.
pub open spec fn layout_pool(i: int) -> Seq<char> {
    if i == 0 {
        "standard"@
    } else if i == 1 {
        "performance"@
    } else {
        "balanced"@
    }
}

impl HardwareFingerprint {
    /// The drift coefficient never falls under its epsilon.
    pub open spec fn wf(&self) -> bool {
        self.clock_drift_cv_micro >= DRIFT_EPS_MICRO
    }

    /// The two volatile fields, the signature the scoring engine compares.
    pub open spec fn spec_signature(&self) -> (u64, u64) {
        (self.clock_drift_cv_micro, self.cache_timing_ns)
    }

    /// The signature of the volatile fields.
    pub fn signature(&self) -> (r: (u64, u64))
        ensures
            r == self.spec_signature(),
    {
        (self.clock_drift_cv_micro, self.cache_timing_ns)
    }
}

/// One vendor name.
fn vendor_name(i: u64) -> (r: &'static str)
    requires
        i < 2,
    ensures
        r@ == vendor_pool(i as int),
{
    if i == 0 {
        "GenuineIntel"
    } else {
        "AuthenticAMD"
    }
}

/// One model name.
fn model_name(i: u64) -> (r: &'static str)
    requires
        i < 4,
    ensures
        r@ == model_pool(i as int),
{
    if i == 0 {
        "Intel(R) Core(TM) i9-9900K"
    } else if i == 1 {
        "AMD Ryzen 9 5900X"
    } else if i == 2 {
        "Intel(R) Core(TM) i7-10700K"
    } else {
        "AMD Ryzen 7 5800X"
    }
}

/// One capability name.
fn simd_name(i: u64) -> (r: &'static str)
    requires
        i < 5,
    ensures
        r@ == simd_pool(i as int),
{
    if i == 0 {
        "SSE4.2"
    } else if i == 1 {
        "AVX"
    } else if i == 2 {
        "AVX2"
    } else if i == 3 {
        "AVX-512"
    } else {
        "FMA"
    }
}

/// One memory-layout name.
fn layout_name(i: u64) -> (r: &'static str)
    requires
        i < 3,
    ensures
        r@ == layout_pool(i as int),
{
    if i == 0 {
        "standard"
    } else if i == 1 {
        "performance"
    } else {
        "balanced"
    }
}

/// Sample a fresh base fingerprint: vendor, model, capability count and
/// layout uniform over their pools; drift in `[0.01, 0.05)`; cache latency
/// in `[800, 1200)` nanoseconds.
pub fn sample_fingerprint(rng: &mut rand::rngs::StdRng) -> (r: HardwareFingerprint)
    ensures
        r.wf(),
        10000 <= r.clock_drift_cv_micro < 50000,
        800 <= r.cache_timing_ns < 1200,
        exists|i: int| 0 <= i < 2 && r.cpu_vendor@ == vendor_pool(i),
        exists|i: int| 0 <= i < 4 && r.cpu_model@ == model_pool(i),
        2 <= r.simd_capabilities@.len() <= 4,
        forall|j: int|
            0 <= j < r.simd_capabilities@.len() ==> (#[trigger] r.simd_capabilities@[j])@
                == simd_pool(j),
        exists|i: int| 0 <= i < 3 && r.memory_layout@ == layout_pool(i),
{
    let vendor_idx = rand_below(rng, 2);
    let model_idx = rand_below(rng, 4);
    let drift = 10000 + rand_below(rng, 40000);
    let cache = 800 + rand_below(rng, 400);
    let simd_count = 2 + rand_below(rng, 3);
    let layout_idx = rand_below(rng, 3);
    let mut simd: Vec<String> = Vec::new();
    let mut j: u64 = 0;
    while j < simd_count
        invariant
            simd_count <= 4,
            j <= simd_count,
            simd@.len() == j,
            forall|k: int| 0 <= k < j ==> (#[trigger] simd@[k])@ == simd_pool(k),
        decreases simd_count - j,
    {
        simd.push(String::from_str(simd_name(j)));
        j = j + 1;
    }
    let r = HardwareFingerprint {
        cpu_vendor: String::from_str(vendor_name(vendor_idx)),
        cpu_model: String::from_str(model_name(model_idx)),
        clock_drift_cv_micro: drift,
        cache_timing_ns: cache,
        simd_capabilities: simd,
        memory_layout: String::from_str(layout_name(layout_idx)),
    };
    proof {
        assert(r.cpu_vendor@ == vendor_pool(vendor_idx as int));
        assert(r.cpu_model@ == model_pool(model_idx as int));
        assert(r.memory_layout@ == layout_pool(layout_idx as int));
    }
    r
}

/// The drift amplitude of one epoch: the variance step scaled by the epoch
/// number, capped so a sampling range fits in a machine word.
pub open spec fn diversity_factor(variance: nat, epoch: nat) -> nat {
    if sat_mul(variance, epoch + 1) > DRIFT_AMPLITUDE_CAP {
        DRIFT_AMPLITUDE_CAP as nat
    } else {
        sat_mul(variance, epoch + 1)
    }
}

/// Where a drift coefficient lands after one perturbation: the draw is taken
/// from `[0, 2 * amplitude]` and stands for `draw - amplitude`; the result is
/// floored at the epsilon.
pub open spec fn drift_step(prior: nat, amplitude: nat, draw: nat) -> nat {
    if sat_add(prior, draw) < amplitude + DRIFT_EPS_MICRO {
        DRIFT_EPS_MICRO as nat
    } else {
        (sat_add(prior, draw) - amplitude) as nat
    }
}

/// Where a cache latency lands after one perturbation: the draw is taken
/// from `[0, 100)` and stands for `draw - 50`; the result is floored at zero.
pub open spec fn cache_step(prior: nat, draw: nat) -> nat {
    if sat_add(prior, draw) < 50 {
        0
    } else {
        (sat_add(prior, draw) - 50) as nat
    }
}

/// Apply one drift perturbation.
pub fn apply_drift(prior: u64, amplitude: u64, draw: u64) -> (r: u64)
    requires
        amplitude <= DRIFT_AMPLITUDE_CAP,
        draw <= 2 * amplitude,
    ensures
        r == drift_step(prior as nat, amplitude as nat, draw as nat),
        r >= DRIFT_EPS_MICRO,
{
    let shifted = sat_add_u64(prior, draw);
    if shifted <= amplitude {
        DRIFT_EPS_MICRO
    } else if shifted - amplitude < DRIFT_EPS_MICRO {
        DRIFT_EPS_MICRO
    } else {
        shifted - amplitude
    }
}

/// Apply one cache-latency perturbation.
pub fn apply_cache_step(prior: u64, draw: u64) -> (r: u64)
    requires
        draw < 100,
    ensures
        r == cache_step(prior as nat, draw as nat),
{
    let shifted = sat_add_u64(prior, draw);
    if shifted < 50 {
        0
    } else {
        shifted - 50
    }
}

/// Copy a fingerprint field for field.
pub fn copy_fingerprint(fp: &HardwareFingerprint) -> (r: HardwareFingerprint)
    ensures
        r.cpu_vendor@ == fp.cpu_vendor@,
        r.cpu_model@ == fp.cpu_model@,
        r.clock_drift_cv_micro == fp.clock_drift_cv_micro,
        r.cache_timing_ns == fp.cache_timing_ns,
        r.simd_capabilities@.len() == fp.simd_capabilities@.len(),
        forall|j: int|
            0 <= j < fp.simd_capabilities@.len() ==> (#[trigger] r.simd_capabilities@[j])@
                == fp.simd_capabilities@[j]@,
        r.memory_layout@ == fp.memory_layout@,
{
    let mut simd: Vec<String> = Vec::new();
    let n = fp.simd_capabilities.len();
    let mut j: usize = 0;
    while j < n
        invariant
            n == fp.simd_capabilities@.len(),
            j <= n,
            simd@.len() == j,
            forall|k: int|
                0 <= k < j ==> (#[trigger] simd@[k])@ == fp.simd_capabilities@[k]@,
        decreases n - j,
    {
        simd.push(fp.simd_capabilities[j].clone());
        j = j + 1;
    }
    HardwareFingerprint {
        cpu_vendor: fp.cpu_vendor.clone(),
        cpu_model: fp.cpu_model.clone(),
        clock_drift_cv_micro: fp.clock_drift_cv_micro,
        cache_timing_ns: fp.cache_timing_ns,
        simd_capabilities: simd,
        memory_layout: fp.memory_layout.clone(),
    }
}

/// One epoch of drift: the categorical fields stay as they are; the two
/// volatile fields take one bounded perturbation whose amplitude grows with
/// the epoch number.
pub fn diversify_fingerprint(
    fp: &HardwareFingerprint,
    epoch: u32,
    variance: u64,
    rng: &mut rand::rngs::StdRng,
) -> (r: HardwareFingerprint)
    ensures
        r.wf(),
        r.cpu_vendor@ == fp.cpu_vendor@,
        r.cpu_model@ == fp.cpu_model@,
        r.simd_capabilities@.len() == fp.simd_capabilities@.len(),
        forall|j: int|
            0 <= j < fp.simd_capabilities@.len() ==> (#[trigger] r.simd_capabilities@[j])@
                == fp.simd_capabilities@[j]@,
        r.memory_layout@ == fp.memory_layout@,
        exists|d: nat|
            d <= 2 * diversity_factor(variance as nat, epoch as nat) && r.clock_drift_cv_micro
                == drift_step(
                fp.clock_drift_cv_micro as nat,
                diversity_factor(variance as nat, epoch as nat),
                d,
            ),
        exists|d: nat| d < 100 && r.cache_timing_ns == cache_step(fp.cache_timing_ns as nat, d),
{
    let step = sat_mul_u64(variance, (epoch as u64) + 1);
    let amplitude = if step > DRIFT_AMPLITUDE_CAP {
        DRIFT_AMPLITUDE_CAP
    } else {
        step
    };
    proof {
        assert(amplitude == diversity_factor(variance as nat, epoch as nat));
    }
    let drift_draw = rand_below(rng, 2 * amplitude + 1);
    let cache_draw = rand_below(rng, 100);
    let mut r = copy_fingerprint(fp);
    r.clock_drift_cv_micro = apply_drift(fp.clock_drift_cv_micro, amplitude, drift_draw);
    r.cache_timing_ns = apply_cache_step(fp.cache_timing_ns, cache_draw);
    proof {
        assert(r.clock_drift_cv_micro == drift_step(
            fp.clock_drift_cv_micro as nat,
            diversity_factor(variance as nat, epoch as nat),
            drift_draw as nat,
        ));
        assert(r.cache_timing_ns == cache_step(fp.cache_timing_ns as nat, cache_draw as nat));
    }
    r
}

} // verus!
