//! Synthetic identities and the attestations they emit.

use vstd::prelude::*;
use crate::arith::{sat_add, sat_add_u64};
use crate::config::{config_valid, EvasionConfig};
use crate::fingerprint::{
    cache_step, copy_fingerprint, diversify_fingerprint, diversity_factor, drift_step,
    layout_pool, model_pool, sample_fingerprint, simd_pool, vendor_pool, HardwareFingerprint,
};
use crate::ip::{allocate_ip, ip_of_slot, slot_of, IpV4};
use crate::rng::{rand_below, rand_in_range};
use crate::text::{dec_str, decimal_string, hex_str, push_hex};
use crate::timing::{jitter_delay, scheduled_time, schedule_attestation, TimingProfile};

verus! {

/// Hexadecimal rendering of a node number, zero-padded to four digits.
pub open spec fn hex4(n: nat) -> Seq<char> {
    if n < 0x10 {
        "000"@ + hex_str(n)
    } else if n < 0x100 {
        "00"@ + hex_str(n)
    } else if n < 0x1000 {
        "0"@ + hex_str(n)
    } else {
        hex_str(n)
    }
}

/// The stable identifier of a node.
pub open spec fn node_id_str(n: nat) -> Seq<char> {
    "node_"@ + hex4(n)
}

/// Render a node identifier.
pub fn render_node_id(n: u32) -> (r: String)
    ensures
        r@ == node_id_str(n as nat),
{
    let mut s = String::from_str("node_");
    if n < 0x10 {
        s.append("000");
    } else if n < 0x100 {
        s.append("00");
    } else if n < 0x1000 {
        s.append("0");
    }
    push_hex(&mut s, n as u128);
    proof {
        assert(s@ =~= node_id_str(n as nat));
    }
    s
}

/// One node's report for one epoch.
pub struct Attestation {
    pub node_id: String,
    pub epoch: u32,
    pub timestamp_ms: u64,
    pub ip: IpV4,
    pub fingerprint: HardwareFingerprint,
    pub signals: Vec<(String, String)>,
}

/// Zero padding of a decimal rendering to six digits.
pub open spec fn pad6(n: nat) -> Seq<char> {
    if n < 10 {
        "00000"@ + dec_str(n)
    } else if n < 100 {
        "0000"@ + dec_str(n)
    } else if n < 1000 {
        "000"@ + dec_str(n)
    } else if n < 10000 {
        "00"@ + dec_str(n)
    } else if n < 100000 {
        "0"@ + dec_str(n)
    } else {
        dec_str(n)
    }
}

/// A utilization value under one, shown with two decimals.
pub open spec fn util_str(d: nat) -> Seq<char> {
    "0."@ + dec_str(d)
}

/// A noise value under one, shown with six decimals.
pub open spec fn noise_str(d: nat) -> Seq<char> {
    "0."@ + pad6(d)
}

/// The display-only signal map of one attestation: synthetic metrics that
/// the scoring engine never reads.
pub fn generate_signals(rng: &mut rand::rngs::StdRng) -> (r: Vec<(String, String)>)
    ensures
        r@.len() == 4,
        r@[0].0@ == "processing_time_ms"@,
        r@[1].0@ == "memory_usage_mb"@,
        r@[2].0@ == "cpu_utilization"@,
        r@[3].0@ == "noise_factor"@,
        exists|d: nat| 50 <= d < 500 && r@[0].1@ == dec_str(d),
        exists|d: nat| 1024 <= d < 8192 && r@[1].1@ == dec_str(d),
        exists|d: nat| 10 <= d < 90 && r@[2].1@ == util_str(d),
        exists|d: nat| d < 1000000 && r@[3].1@ == noise_str(d),
{
    let mut r: Vec<(String, String)> = Vec::new();
    let processing = rand_in_range(rng, 50, 500);
    r.push((String::from_str("processing_time_ms"), decimal_string(processing as u128)));
    let memory = rand_in_range(rng, 1024, 8192);
    r.push((String::from_str("memory_usage_mb"), decimal_string(memory as u128)));
    let util = rand_in_range(rng, 10, 90);
    let mut util_s = String::from_str("0.");
    let util_digits = decimal_string(util as u128);
    util_s.append(util_digits.as_str());
    r.push((String::from_str("cpu_utilization"), util_s));
    let noise = rand_below(rng, 1000000);
    let mut noise_s = String::from_str("0.");
    if noise < 10 {
        noise_s.append("00000");
    } else if noise < 100 {
        noise_s.append("0000");
    } else if noise < 1000 {
        noise_s.append("000");
    } else if noise < 10000 {
        noise_s.append("00");
    } else if noise < 100000 {
        noise_s.append("0");
    }
    let noise_digits = decimal_string(noise as u128);
    noise_s.append(noise_digits.as_str());
    proof {
        assert(noise_s@ =~= noise_str(noise as nat));
        assert(util_s@ =~= util_str(util as nat));
    }
    r.push((String::from_str("noise_factor"), noise_s));
    r
}

/// One synthetic identity, persisting across epochs.
pub struct EvasiveNode {
    pub node_id: String,
    pub node_index: u32,
    pub synthetic_fingerprint: HardwareFingerprint,
    pub timing_profile: TimingProfile,
    pub virtual_ip: IpV4,
    pub epoch_survived: u32,
}

impl EvasiveNode {
    /// The fingerprint keeps its invariant.
    pub open spec fn wf(&self) -> bool {
        self.synthetic_fingerprint.wf()
    }

    /// `nd` is a freshly created identity for node number `id`: the
    /// documented id format, a base fingerprint drawn from the fixed pools
    /// and ranges, the node's initial pool address, a fresh timing profile,
    /// and no epoch survived yet.
    pub open spec fn fresh_for(nd: EvasiveNode, id: u32, config: EvasionConfig) -> bool {
        &&& nd.wf()
        &&& nd.node_index == id
        &&& nd.node_id@ == node_id_str(id as nat)
        &&& nd.virtual_ip == ip_of_slot(slot_of(id as nat, 0, config.ip_pool_size as nat))
        &&& 10000 <= nd.synthetic_fingerprint.clock_drift_cv_micro < 50000
        &&& 800 <= nd.synthetic_fingerprint.cache_timing_ns < 1200
        &&& exists|i: int| 0 <= i < 2 && nd.synthetic_fingerprint.cpu_vendor@ == vendor_pool(i)
        &&& exists|i: int| 0 <= i < 4 && nd.synthetic_fingerprint.cpu_model@ == model_pool(i)
        &&& 2 <= nd.synthetic_fingerprint.simd_capabilities@.len() <= 4
        &&& forall|j: int|
            0 <= j < nd.synthetic_fingerprint.simd_capabilities@.len() ==> (
            #[trigger] nd.synthetic_fingerprint.simd_capabilities@[j])@ == simd_pool(j)
        &&& exists|i: int| 0 <= i < 3 && nd.synthetic_fingerprint.memory_layout@ == layout_pool(i)
        &&& 300000 <= nd.timing_profile.base_interval_ms < 360000
        &&& nd.timing_profile.max_jitter_ms == config.max_timing_jitter_ms
        &&& nd.timing_profile.next_attestation_ms < 30000
        &&& nd.epoch_survived == 0
    }

    /// Create one identity: a stable id from the node number, a sampled base
    /// fingerprint, the initial pool address, and a fresh timing profile.
    pub fn new(id: u32, config: &EvasionConfig, rng: &mut rand::rngs::StdRng) -> (r: Self)
        requires
            config_valid(*config),
        ensures
            EvasiveNode::fresh_for(r, id, *config),
            r.wf(),
            r.node_index == id,
            r.node_id@ == node_id_str(id as nat),
            r.virtual_ip == ip_of_slot(
                slot_of(id as nat, 0, config.ip_pool_size as nat),
            ),
            10000 <= r.synthetic_fingerprint.clock_drift_cv_micro < 50000,
            800 <= r.synthetic_fingerprint.cache_timing_ns < 1200,
            exists|i: int| 0 <= i < 2 && r.synthetic_fingerprint.cpu_vendor@ == vendor_pool(i),
            exists|i: int| 0 <= i < 4 && r.synthetic_fingerprint.cpu_model@ == model_pool(i),
            2 <= r.synthetic_fingerprint.simd_capabilities@.len() <= 4,
            forall|j: int|
                0 <= j < r.synthetic_fingerprint.simd_capabilities@.len() ==> (
                #[trigger] r.synthetic_fingerprint.simd_capabilities@[j])@ == simd_pool(j),
            exists|i: int| 0 <= i < 3 && r.synthetic_fingerprint.memory_layout@ == layout_pool(i),
            300000 <= r.timing_profile.base_interval_ms < 360000,
            r.timing_profile.max_jitter_ms == config.max_timing_jitter_ms,
            r.timing_profile.next_attestation_ms < 30000,
            r.epoch_survived == 0,
    {
        let fingerprint = sample_fingerprint(rng);
        let base_interval = rand_in_range(rng, 300000, 360000);
        let initial_offset = rand_below(rng, 30000);
        EvasiveNode {
            node_id: render_node_id(id),
            node_index: id,
            synthetic_fingerprint: fingerprint,
            timing_profile: TimingProfile {
                base_interval_ms: base_interval,
                max_jitter_ms: config.max_timing_jitter_ms,
                next_attestation_ms: initial_offset,
            },
            virtual_ip: allocate_ip(id as u64, 0, config.ip_pool_size),
            epoch_survived: 0,
        }
    }

    /// The address the node reports in `epoch`: rotated to a new pool slot on
    /// every second epoch, kept otherwise.
    pub open spec fn ip_after_epoch(self, epoch: nat, pool_size: nat) -> IpV4 {
        if epoch > 0 && epoch % 2 == 0 {
            ip_of_slot(slot_of(self.node_index as nat, epoch / 2, pool_size))
        } else {
            self.virtual_ip
        }
    }

    /// The attestation `a` is one the node `nd` can emit for `epoch` at
    /// `position` in the batch: the node's id, the rotated address, a
    /// timestamp scheduled from the node's due time under some jitter draw,
    /// the stable categorical fields, and volatile fields one bounded
    /// perturbation away from the node's.
    pub open spec fn attests_for(
        a: Attestation,
        nd: EvasiveNode,
        epoch: u32,
        config: EvasionConfig,
        position: int,
    ) -> bool {
        &&& a.node_id@ == nd.node_id@
        &&& a.epoch == epoch
        &&& a.ip == nd.ip_after_epoch(epoch as nat, config.ip_pool_size as nat)
        &&& exists|draw: nat|
            draw <= 2 * (config.max_timing_jitter_ms as nat) && a.timestamp_ms == scheduled_time(
                nd.timing_profile.next_attestation_ms as nat,
                jitter_delay(draw, config.max_timing_jitter_ms as nat),
                position as nat,
            )
        &&& a.fingerprint.cpu_vendor@ == nd.synthetic_fingerprint.cpu_vendor@
        &&& a.fingerprint.cpu_model@ == nd.synthetic_fingerprint.cpu_model@
        &&& a.fingerprint.memory_layout@ == nd.synthetic_fingerprint.memory_layout@
        &&& exists|d: nat|
            d <= 2 * diversity_factor(config.fingerprint_variance as nat, epoch as nat)
                && a.fingerprint.clock_drift_cv_micro == drift_step(
                nd.synthetic_fingerprint.clock_drift_cv_micro as nat,
                diversity_factor(config.fingerprint_variance as nat, epoch as nat),
                d,
            )
        &&& exists|d: nat|
            d < 100 && a.fingerprint.cache_timing_ns == cache_step(
                nd.synthetic_fingerprint.cache_timing_ns as nat,
                d,
            )
    }

    /// Emitting the attestation `a` for `epoch` carried the node from `pre`
    /// to `post`: identity kept, stored address and volatile fingerprint
    /// fields now those of `a`, the next due time pushed one base interval
    /// past `a`'s timestamp, the survival counter at `epoch`.
    pub open spec fn node_advanced(
        pre: EvasiveNode,
        post: EvasiveNode,
        a: Attestation,
        epoch: u32,
    ) -> bool {
        &&& post.node_id@ == pre.node_id@
        &&& post.node_index == pre.node_index
        &&& post.virtual_ip == a.ip
        &&& post.synthetic_fingerprint.clock_drift_cv_micro
            == a.fingerprint.clock_drift_cv_micro
        &&& post.synthetic_fingerprint.cache_timing_ns == a.fingerprint.cache_timing_ns
        &&& post.synthetic_fingerprint.cpu_vendor@ == pre.synthetic_fingerprint.cpu_vendor@
        &&& post.synthetic_fingerprint.cpu_model@ == pre.synthetic_fingerprint.cpu_model@
        &&& post.synthetic_fingerprint.memory_layout@
            == pre.synthetic_fingerprint.memory_layout@
        &&& post.timing_profile.base_interval_ms == pre.timing_profile.base_interval_ms
        &&& post.timing_profile.max_jitter_ms == pre.timing_profile.max_jitter_ms
        &&& post.timing_profile.next_attestation_ms == sat_add(
            a.timestamp_ms as nat,
            pre.timing_profile.base_interval_ms as nat,
        )
        &&& post.epoch_survived == epoch
    }

    /// Build the node's attestation for one epoch, at `position` within the
    /// batch: rotate the address when due, drift the volatile fingerprint
    /// fields, schedule the timestamp, and advance the node's state.
    pub fn generate_attestation(
        &mut self,
        epoch: u32,
        config: &EvasionConfig,
        position: usize,
        rng: &mut rand::rngs::StdRng,
    ) -> (r: Attestation)
        requires
            old(self).wf(),
            config_valid(*config),
        ensures
            final(self).wf(),
            r.fingerprint.wf(),
            final(self).node_id@ == old(self).node_id@,
            final(self).node_index == old(self).node_index,
            r.node_id@ == old(self).node_id@,
            r.epoch == epoch,
            final(self).virtual_ip == old(self).ip_after_epoch(
                epoch as nat,
                config.ip_pool_size as nat,
            ),
            r.ip == final(self).virtual_ip,
            exists|draw: nat|
                draw <= 2 * (config.max_timing_jitter_ms as nat) && r.timestamp_ms
                    == scheduled_time(
                    old(self).timing_profile.next_attestation_ms as nat,
                    jitter_delay(draw, config.max_timing_jitter_ms as nat),
                    position as nat,
                ),
            final(self).timing_profile.base_interval_ms == old(
                self,
            ).timing_profile.base_interval_ms,
            final(self).timing_profile.max_jitter_ms == old(self).timing_profile.max_jitter_ms,
            final(self).timing_profile.next_attestation_ms == sat_add(
                r.timestamp_ms as nat,
                old(self).timing_profile.base_interval_ms as nat,
            ),
            r.fingerprint.cpu_vendor@ == old(self).synthetic_fingerprint.cpu_vendor@,
            r.fingerprint.cpu_model@ == old(self).synthetic_fingerprint.cpu_model@,
            r.fingerprint.memory_layout@ == old(self).synthetic_fingerprint.memory_layout@,
            r.fingerprint.simd_capabilities@.len() == old(
                self,
            ).synthetic_fingerprint.simd_capabilities@.len(),
            forall|j: int|
                0 <= j < r.fingerprint.simd_capabilities@.len() ==> (
                #[trigger] r.fingerprint.simd_capabilities@[j])@ == old(
                    self,
                ).synthetic_fingerprint.simd_capabilities@[j]@,
            final(self).synthetic_fingerprint.cpu_vendor@ == old(
                self,
            ).synthetic_fingerprint.cpu_vendor@,
            final(self).synthetic_fingerprint.cpu_model@ == old(
                self,
            ).synthetic_fingerprint.cpu_model@,
            final(self).synthetic_fingerprint.memory_layout@ == old(
                self,
            ).synthetic_fingerprint.memory_layout@,
            exists|d: nat|
                d <= 2 * diversity_factor(config.fingerprint_variance as nat, epoch as nat)
                    && r.fingerprint.clock_drift_cv_micro == drift_step(
                    old(self).synthetic_fingerprint.clock_drift_cv_micro as nat,
                    diversity_factor(config.fingerprint_variance as nat, epoch as nat),
                    d,
                ),
            exists|d: nat|
                d < 100 && r.fingerprint.cache_timing_ns == cache_step(
                    old(self).synthetic_fingerprint.cache_timing_ns as nat,
                    d,
                ),
            final(self).synthetic_fingerprint.clock_drift_cv_micro
                == r.fingerprint.clock_drift_cv_micro,
            final(self).synthetic_fingerprint.cache_timing_ns == r.fingerprint.cache_timing_ns,
            final(self).epoch_survived == epoch,
            r.signals@.len() == 4,
            r.signals@[0].0@ == "processing_time_ms"@,
            r.signals@[1].0@ == "memory_usage_mb"@,
            r.signals@[2].0@ == "cpu_utilization"@,
            r.signals@[3].0@ == "noise_factor"@,
            exists|d: nat| 50 <= d < 500 && r.signals@[0].1@ == dec_str(d),
            exists|d: nat| 1024 <= d < 8192 && r.signals@[1].1@ == dec_str(d),
            exists|d: nat| 10 <= d < 90 && r.signals@[2].1@ == util_str(d),
            exists|d: nat| d < 1000000 && r.signals@[3].1@ == noise_str(d),
            EvasiveNode::attests_for(r, *old(self), epoch, *config, position as int),
            EvasiveNode::node_advanced(*old(self), *final(self), r, epoch),
    {
        let jitter_bound = 2 * config.max_timing_jitter_ms + 1;
        let draw = rand_below(rng, jitter_bound);
        let timestamp = schedule_attestation(
            self.timing_profile.next_attestation_ms,
            draw,
            config.max_timing_jitter_ms,
            position as u64,
        );
        self.timing_profile.next_attestation_ms = sat_add_u64(
            timestamp,
            self.timing_profile.base_interval_ms,
        );
        let diversified = diversify_fingerprint(
            &self.synthetic_fingerprint,
            epoch,
            config.fingerprint_variance,
            rng,
        );
        if epoch > 0 && epoch % 2 == 0 {
            self.virtual_ip = allocate_ip(
                self.node_index as u64,
                (epoch / 2) as u64,
                config.ip_pool_size,
            );
        }
        let snapshot = copy_fingerprint(&diversified);
        self.synthetic_fingerprint = diversified;
        self.epoch_survived = epoch;
        let signals = generate_signals(rng);
        Attestation {
            node_id: self.node_id.clone(),
            epoch,
            timestamp_ms: timestamp,
            ip: self.virtual_ip,
            fingerprint: snapshot,
            signals,
        }
    }
}

} // verus!
