//! The scoring engine: three diversity sub-scores over one epoch's batch of
//! attestations and their weighted composite, all in thousandths.

use vstd::prelude::*;
use crate::config::SCORE_SCALE;
use crate::node::Attestation;

verus! {

/// Reference spread for the timing score: a batch spread over ten seconds or
/// more scores the full scale.
pub const TIMING_REFERENCE_MS: u64 = 10000;

/// The key the IP sub-score compares: the first two octets of the address.
pub open spec fn prefix_key(a: Attestation) -> u128 {
    ((a.ip.a as u128) * 256 + (a.ip.b as u128)) as u128
}

/// The key the fingerprint sub-score compares: a stable encoding of the two
/// volatile fingerprint fields.
pub open spec fn sig_key(a: Attestation) -> u128 {
    ((a.fingerprint.clock_drift_cv_micro as u128) * 0x10000000000000000 + (
    a.fingerprint.cache_timing_ns as u128)) as u128
}

/// How many distinct values a sequence holds.
pub open spec fn num_distinct(s: Seq<u128>) -> nat
    decreases s.len(),
{
    if s.len() == 0 {
        0
    } else if s.drop_last().contains(s.last()) {
        num_distinct(s.drop_last())
    } else {
        num_distinct(s.drop_last()) + 1
    }
}

/// No more distinct values than elements.
pub proof fn lemma_num_distinct_le_len(s: Seq<u128>)
    ensures
        num_distinct(s) <= s.len(),
    decreases s.len(),
{
    if s.len() > 0 {
        lemma_num_distinct_le_len(s.drop_last());
    }
}

/// A non-empty sequence holds a value.
pub proof fn lemma_num_distinct_pos(s: Seq<u128>)
    requires
        s.len() >= 1,
    ensures
        num_distinct(s) >= 1,
    decreases s.len(),
{
    if s.len() > 1 {
        lemma_num_distinct_pos(s.drop_last());
    }
}

/// Pairwise distinct values are all counted.
pub proof fn lemma_num_distinct_all_distinct(s: Seq<u128>)
    requires
        forall|i: int, j: int| 0 <= i < j < s.len() ==> s[i] != s[j],
    ensures
        num_distinct(s) == s.len(),
    decreases s.len(),
{
    if s.len() > 0 {
        lemma_num_distinct_all_distinct(s.drop_last());
        if s.drop_last().contains(s.last()) {
            let k = choose|k: int| 0 <= k < s.drop_last().len() && s.drop_last()[k] == s.last();
            assert(s[k] == s[s.len() - 1]);
        }
    }
}

/// Identical values are counted once.
pub proof fn lemma_num_distinct_all_equal(s: Seq<u128>)
    requires
        s.len() >= 1,
        forall|i: int, j: int| 0 <= i < s.len() && 0 <= j < s.len() ==> s[i] == s[j],
    ensures
        num_distinct(s) == 1,
    decreases s.len(),
{
    if s.len() == 1 {
        assert(s.drop_last().len() == 0);
        assert(num_distinct(s.drop_last()) == 0);
        assert(!s.drop_last().contains(s.last()));
    } else {
        lemma_num_distinct_all_equal(s.drop_last());
        assert(s.drop_last()[0] == s.last());
        assert(s.drop_last().contains(s.last()));
    }
}

/// The prefix keys of a batch.
pub open spec fn prefix_keys(batch: Seq<Attestation>) -> Seq<u128> {
    batch.map_values(|a: Attestation| prefix_key(a))
}

/// The signature keys of a batch.
pub open spec fn sig_keys(batch: Seq<Attestation>) -> Seq<u128> {
    batch.map_values(|a: Attestation| sig_key(a))
}

/// A diversity sub-score: the share of duplicate keys, in thousandths,
/// rounded down. All keys distinct gives zero; `d` distinct keys among `n`
/// give `SCORE_SCALE * (n - d) / n`.
pub open spec fn dup_score(n: nat, d: nat) -> nat
    recommends
        1 <= d <= n,
{
    ((SCORE_SCALE as int) * (n - d) / (n as int)) as nat
}

/// The IP diversity sub-score of a batch.
pub open spec fn ip_score_spec(batch: Seq<Attestation>) -> nat {
    dup_score(batch.len(), num_distinct(prefix_keys(batch)))
}

/// The fingerprint diversity sub-score of a batch.
pub open spec fn fingerprint_score_spec(batch: Seq<Attestation>) -> nat {
    dup_score(batch.len(), num_distinct(sig_keys(batch)))
}

/// Largest timestamp of a non-empty batch.
pub open spec fn max_ts(batch: Seq<Attestation>) -> nat
    decreases batch.len(),
{
    if batch.len() <= 1 {
        batch[0].timestamp_ms as nat
    } else if batch.last().timestamp_ms as nat > max_ts(batch.drop_last()) {
        batch.last().timestamp_ms as nat
    } else {
        max_ts(batch.drop_last())
    }
}

/// Smallest timestamp of a non-empty batch.
pub open spec fn min_ts(batch: Seq<Attestation>) -> nat
    decreases batch.len(),
{
    if batch.len() <= 1 {
        batch[0].timestamp_ms as nat
    } else if (batch.last().timestamp_ms as nat) < min_ts(batch.drop_last()) {
        batch.last().timestamp_ms as nat
    } else {
        min_ts(batch.drop_last())
    }
}

/// The timing sub-score: the timestamp spread normalized against the
/// reference spread and capped at the scale; fewer than two attestations
/// score zero.
pub open spec fn timing_score_spec(batch: Seq<Attestation>) -> nat {
    if batch.len() < 2 {
        0
    } else {
        let spread = (max_ts(batch) - min_ts(batch)) as nat;
        if (SCORE_SCALE as nat) * spread / (TIMING_REFERENCE_MS as nat) > (SCORE_SCALE as nat) {
            SCORE_SCALE as nat
        } else {
            (SCORE_SCALE as nat) * spread / (TIMING_REFERENCE_MS as nat)
        }
    }
}

/// The weighted composite: two fifths each for IP and fingerprint, one fifth
/// for timing.
pub open spec fn composite_spec(batch: Seq<Attestation>) -> nat {
    (2 * ip_score_spec(batch) + 2 * fingerprint_score_spec(batch) + timing_score_spec(batch)) / 5
}

/// The result of scoring one batch.
#[derive(Clone, Copy, PartialEq, Eq, Structural, Debug)]
pub struct FleetScore {
    pub ip_score: u64,
    pub fingerprint_score: u64,
    pub timing_score: u64,
    pub total_score: u64,
}

impl FleetScore {
    /// Is the composite under the threshold?
    pub fn is_below_threshold(&self, threshold: u64) -> (r: bool)
        ensures
            r == (self.total_score < threshold),
    {
        self.total_score < threshold
    }
}

/// A duplicate-share score never leaves the scale.
pub proof fn lemma_dup_score_le_scale(n: nat, d: nat)
    requires
        1 <= d <= n,
    ensures
        dup_score(n, d) <= SCORE_SCALE,
        dup_score(n, d) <= (SCORE_SCALE as int) * (n - 1) / (n as int),
{
    let s = SCORE_SCALE as int;
    let ni = n as int;
    let di = d as int;
    assert(s * (ni - di) >= 0) by (nonlinear_arith)
        requires
            s >= 0,
            di <= ni,
    ;
    assert(s * (ni - di) / ni >= 0) by (nonlinear_arith)
        requires
            ni >= 1,
            s * (ni - di) >= 0,
    ;
    assert(dup_score(n, d) == s * (ni - di) / ni);
    assert(s * (ni - di) <= s * (ni - 1)) by (nonlinear_arith)
        requires
            1 <= di <= ni,
            s >= 0,
    ;
    assert(s * (ni - di) / ni <= s * (ni - 1) / ni) by (nonlinear_arith)
        requires
            ni >= 1,
            s * (ni - di) <= s * (ni - 1),
    ;
    assert(s * (ni - 1) <= s * ni) by (nonlinear_arith)
        requires
            ni >= 1,
            s >= 0,
    ;
    assert(s * (ni - 1) / ni <= s * ni / ni) by (nonlinear_arith)
        requires
            ni >= 1,
            s * (ni - 1) <= s * ni,
    ;
    assert(s * ni / ni == s) by (nonlinear_arith)
        requires
            ni >= 1,
    ;
}

/// Every sub-score and the composite stay within the scale: the first
/// testable property, stated over any non-empty batch.
pub proof fn lemma_composite_in_range(batch: Seq<Attestation>)
    requires
        batch.len() >= 1,
    ensures
        ip_score_spec(batch) <= SCORE_SCALE,
        fingerprint_score_spec(batch) <= SCORE_SCALE,
        timing_score_spec(batch) <= SCORE_SCALE,
        composite_spec(batch) <= SCORE_SCALE,
{
    lemma_num_distinct_pos(prefix_keys(batch));
    lemma_num_distinct_le_len(prefix_keys(batch));
    lemma_num_distinct_pos(sig_keys(batch));
    lemma_num_distinct_le_len(sig_keys(batch));
    lemma_dup_score_le_scale(batch.len(), num_distinct(prefix_keys(batch)));
    lemma_dup_score_le_scale(batch.len(), num_distinct(sig_keys(batch)));
}

/// A batch whose subnet prefixes are pairwise distinct has a zero IP score.
pub proof fn lemma_distinct_prefixes_zero_ip_score(batch: Seq<Attestation>)
    requires
        batch.len() >= 1,
        forall|i: int, j: int|
            0 <= i < j < batch.len() ==> prefix_key(batch[i]) != prefix_key(batch[j]),
    ensures
        ip_score_spec(batch) == 0,
{
    let keys = prefix_keys(batch);
    assert(forall|i: int, j: int| 0 <= i < j < keys.len() ==> keys[i] != keys[j]);
    lemma_num_distinct_all_distinct(keys);
    assert((SCORE_SCALE as nat) * 0 == 0);
}

/// A batch that shares one fingerprint signature has the largest fingerprint
/// score a batch of its size can have.
pub proof fn lemma_shared_signature_max_fingerprint_score(batch: Seq<Attestation>)
    requires
        batch.len() >= 1,
        forall|i: int, j: int|
            0 <= i < batch.len() && 0 <= j < batch.len() ==> sig_key(batch[i]) == sig_key(
                batch[j],
            ),
    ensures
        fingerprint_score_spec(batch) == (SCORE_SCALE as int) * (batch.len() - 1) / (
        batch.len() as int),
        forall|other: Seq<Attestation>|
            other.len() == batch.len() ==> #[trigger] fingerprint_score_spec(other)
                <= fingerprint_score_spec(batch),
{
    let keys = sig_keys(batch);
    lemma_num_distinct_all_equal(keys);
    assert forall|other: Seq<Attestation>|
        other.len() == batch.len() implies #[trigger] fingerprint_score_spec(other)
        <= fingerprint_score_spec(batch) by {
        lemma_num_distinct_pos(sig_keys(other));
        lemma_num_distinct_le_len(sig_keys(other));
        lemma_dup_score_le_scale(other.len(), num_distinct(sig_keys(other)));
    }
}

/// A fully diverse batch — prefixes and signatures both pairwise distinct —
/// scores zero on both key sub-scores, so its composite is at most a fifth
/// of the scale, whatever the timing spread: the deterministic core of the
/// survival scenario.
pub proof fn lemma_fully_diverse_batch_composite(batch: Seq<Attestation>)
    requires
        batch.len() >= 1,
        forall|i: int, j: int|
            0 <= i < j < batch.len() ==> prefix_key(batch[i]) != prefix_key(batch[j]),
        forall|i: int, j: int|
            0 <= i < j < batch.len() ==> sig_key(batch[i]) != sig_key(batch[j]),
    ensures
        ip_score_spec(batch) == 0,
        fingerprint_score_spec(batch) == 0,
        composite_spec(batch) <= SCORE_SCALE / 5,
{
    lemma_distinct_prefixes_zero_ip_score(batch);
    let keys = sig_keys(batch);
    assert(forall|i: int, j: int| 0 <= i < j < keys.len() ==> keys[i] != keys[j]);
    lemma_num_distinct_all_distinct(keys);
    assert((SCORE_SCALE as nat) * 0 == 0);
    lemma_composite_in_range(batch);
}

/// A single-attestation batch has a zero timing score.
pub proof fn lemma_single_attestation_zero_timing(batch: Seq<Attestation>)
    requires
        batch.len() == 1,
    ensures
        timing_score_spec(batch) == 0,
{
}

/// Count the distinct values of a vector.
fn count_distinct(v: &Vec<u128>) -> (r: usize)
    ensures
        r == num_distinct(v@),
        r <= v@.len(),
{
    let n = v.len();
    let mut count: usize = 0;
    let mut i: usize = 0;
    while i < n
        invariant
            n == v@.len(),
            i <= n,
            count <= i,
            count == num_distinct(v@.subrange(0, i as int)),
        decreases n - i,
    {
        let mut seen = false;
        let mut j: usize = 0;
        while j < i
            invariant
                n == v@.len(),
                i < n,
                j <= i,
                seen == exists|k: int| 0 <= k < j && v@[k] == v@[i as int],
            decreases i - j,
        {
            if v[j] == v[i] {
                seen = true;
            }
            j = j + 1;
        }
        proof {
            let pre = v@.subrange(0, i as int);
            let ext = v@.subrange(0, i as int + 1);
            assert(ext.drop_last() =~= pre);
            assert(ext.last() == v@[i as int]);
            assert(forall|k: int| 0 <= k < i ==> pre[k] == v@[k]);
            if seen {
                let k = choose|k: int| 0 <= k < i && v@[k] == v@[i as int];
                assert(pre[k] == v@[i as int]);
                assert(pre.contains(v@[i as int]));
            } else if pre.contains(v@[i as int]) {
                let k = choose|k: int| 0 <= k < pre.len() && pre[k] == v@[i as int];
                assert(v@[k] == v@[i as int]);
            }
            assert(seen == pre.contains(v@[i as int]));
        }
        if !seen {
            count = count + 1;
        }
        i = i + 1;
    }
    proof {
        assert(v@.subrange(0, n as int) =~= v@);
        lemma_num_distinct_le_len(v@);
    }
    count
}

/// The prefix keys of a batch, as values.
fn collect_prefix_keys(batch: &Vec<Attestation>) -> (r: Vec<u128>)
    ensures
        r@ == prefix_keys(batch@),
{
    let n = batch.len();
    let mut r: Vec<u128> = Vec::new();
    let mut i: usize = 0;
    while i < n
        invariant
            n == batch@.len(),
            i <= n,
            r@.len() == i,
            forall|k: int| 0 <= k < i ==> r@[k] == prefix_key(batch@[k]),
        decreases n - i,
    {
        let a = &batch[i];
        r.push((a.ip.a as u128) * 256 + (a.ip.b as u128));
        i = i + 1;
    }
    proof {
        assert(r@ =~= prefix_keys(batch@));
    }
    r
}

/// The signature keys of a batch, as values.
fn collect_sig_keys(batch: &Vec<Attestation>) -> (r: Vec<u128>)
    ensures
        r@ == sig_keys(batch@),
{
    let n = batch.len();
    let mut r: Vec<u128> = Vec::new();
    let mut i: usize = 0;
    while i < n
        invariant
            n == batch@.len(),
            i <= n,
            r@.len() == i,
            forall|k: int| 0 <= k < i ==> r@[k] == sig_key(batch@[k]),
        decreases n - i,
    {
        let a = &batch[i];
        r.push(
            (a.fingerprint.clock_drift_cv_micro as u128) * 0x10000000000000000 + (
            a.fingerprint.cache_timing_ns as u128),
        );
        i = i + 1;
    }
    proof {
        assert(r@ =~= sig_keys(batch@));
    }
    r
}

/// One duplicate-share sub-score as a value.
fn dup_score_of(n: usize, d: usize) -> (r: u64)
    requires
        1 <= d <= n,
    ensures
        r == dup_score(n as nat, d as nat),
        r <= SCORE_SCALE,
{
    proof {
        lemma_dup_score_le_scale(n as nat, d as nat);
    }
    let wide = (SCORE_SCALE as u128) * ((n - d) as u128) / (n as u128);
    proof {
        assert((SCORE_SCALE as u128) * ((n - d) as u128) == (SCORE_SCALE as nat) * ((n as nat)
            - (d as nat))) by (nonlinear_arith)
            requires
                d <= n,
        ;
    }
    wide as u64
}

/// The IP diversity sub-score of a batch.
pub fn calculate_ip_diversity_score(batch: &Vec<Attestation>) -> (r: u64)
    requires
        batch@.len() >= 1,
    ensures
        r == ip_score_spec(batch@),
        r <= SCORE_SCALE,
{
    let keys = collect_prefix_keys(batch);
    let d = count_distinct(&keys);
    proof {
        lemma_num_distinct_pos(keys@);
    }
    dup_score_of(batch.len(), d)
}

/// The fingerprint diversity sub-score of a batch.
pub fn calculate_fingerprint_diversity_score(batch: &Vec<Attestation>) -> (r: u64)
    requires
        batch@.len() >= 1,
    ensures
        r == fingerprint_score_spec(batch@),
        r <= SCORE_SCALE,
{
    let keys = collect_sig_keys(batch);
    let d = count_distinct(&keys);
    proof {
        lemma_num_distinct_pos(keys@);
    }
    dup_score_of(batch.len(), d)
}

/// The timing diversity sub-score of a batch.
pub fn calculate_timing_diversity_score(batch: &Vec<Attestation>) -> (r: u64)
    requires
        batch@.len() >= 1,
    ensures
        r == timing_score_spec(batch@),
        r <= SCORE_SCALE,
{
    let n = batch.len();
    if n < 2 {
        return 0;
    }
    let mut mx: u64 = batch[0].timestamp_ms;
    let mut mn: u64 = batch[0].timestamp_ms;
    let mut i: usize = 1;
    while i < n
        invariant
            n == batch@.len(),
            1 <= i <= n,
            mn <= mx,
            mx == max_ts(batch@.subrange(0, i as int)),
            mn == min_ts(batch@.subrange(0, i as int)),
        decreases n - i,
    {
        proof {
            let pre = batch@.subrange(0, i as int);
            let ext = batch@.subrange(0, i as int + 1);
            assert(ext.drop_last() =~= pre);
            assert(ext.last() == batch@[i as int]);
        }
        if batch[i].timestamp_ms > mx {
            mx = batch[i].timestamp_ms;
        }
        if batch[i].timestamp_ms < mn {
            mn = batch[i].timestamp_ms;
        }
        i = i + 1;
    }
    proof {
        assert(batch@.subrange(0, n as int) =~= batch@);
    }
    let spread = mx - mn;
    proof {
        assert((SCORE_SCALE as int) * (spread as int) <= (SCORE_SCALE as int) * (u64::MAX as int))
            by (nonlinear_arith)
            requires
                spread <= u64::MAX,
                SCORE_SCALE >= 0,
        ;
    }
    let normalized = (SCORE_SCALE as u128) * (spread as u128) / (TIMING_REFERENCE_MS as u128);
    if normalized > SCORE_SCALE as u128 {
        SCORE_SCALE
    } else {
        normalized as u64
    }
}

/// Score one epoch's batch: the three sub-scores and their weighted
/// composite; every value stays within the scale.
pub fn score_batch(batch: &Vec<Attestation>) -> (r: FleetScore)
    requires
        batch@.len() >= 1,
    ensures
        r.ip_score == ip_score_spec(batch@),
        r.fingerprint_score == fingerprint_score_spec(batch@),
        r.timing_score == timing_score_spec(batch@),
        r.total_score == composite_spec(batch@),
        r.ip_score <= SCORE_SCALE,
        r.fingerprint_score <= SCORE_SCALE,
        r.timing_score <= SCORE_SCALE,
        r.total_score <= SCORE_SCALE,
{
    let ip_score = calculate_ip_diversity_score(batch);
    let fingerprint_score = calculate_fingerprint_diversity_score(batch);
    let timing_score = calculate_timing_diversity_score(batch);
    let total_score = (2 * ip_score + 2 * fingerprint_score + timing_score) / 5;
    FleetScore { ip_score, fingerprint_score, timing_score, total_score }
}

} // verus!
