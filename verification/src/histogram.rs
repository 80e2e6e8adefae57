//! A bounded, saturating latency distribution with value-at-quantile
//! snapshots.
//!
//! Recorded values are clamped into the fixed range `[1, 300000]`
//! (1 ms to 5 minutes): a value beyond either bound is counted at the
//! bound, never rejected. The distribution stores an exact count per
//! clamped value, so a quantile query returns the smallest value whose
//! cumulative count reaches the quantile's share of the total.

use vstd::prelude::*;
use vstd::arithmetic::div_mod::lemma_div_is_ordered;

verus! {

/// Smallest recordable latency value.
pub const LATENCY_LOW: u64 = 1;

/// Largest recordable latency value; higher values saturate to it.
pub const LATENCY_HIGH: u64 = 300000;

/// The sum of a sequence of counters.
pub open spec fn sum_counts(s: Seq<u64>) -> int
    decreases s.len(),
{
    if s.len() == 0 {
        0
    } else {
        sum_counts(s.drop_last()) + s.last()
    }
}

/// The count slot a raw value lands in after clamping.
pub open spec fn clamp_idx(v: u64) -> int {
    if v < LATENCY_LOW {
        LATENCY_LOW as int
    } else if v > LATENCY_HIGH {
        LATENCY_HIGH as int
    } else {
        v as int
    }
}

/// One recording: the clamped value's count rises by one, unless the
/// distribution already holds the largest representable total, in
/// which case the sample is dropped.
pub open spec fn record_spec(s: Seq<u64>, v: u64) -> Seq<u64> {
    if sum_counts(s) < u64::MAX {
        s.update(clamp_idx(v), (s[clamp_idx(v)] + 1) as u64)
    } else {
        s
    }
}

/// Cumulative count of all values `<= v`.
pub open spec fn cum(s: Seq<u64>, v: int) -> int {
    sum_counts(s.take(v + 1))
}

/// The count a quantile of `q` per mille must reach in a population of
/// `total`: the ceiling of `q * total / 1000`.
pub open spec fn quantile_target(q: u64, total: int) -> int {
    (q * total + 999) / 1000
}

/// The smallest value in `[v, 300000]` whose cumulative count reaches
/// `t`, or the upper bound when none does.
pub open spec fn least_reaching(s: Seq<u64>, t: int, v: int) -> int
    decreases LATENCY_HIGH as int - v,
{
    if v >= LATENCY_HIGH {
        LATENCY_HIGH as int
    } else if cum(s, v) >= t {
        v
    } else {
        least_reaching(s, t, v + 1)
    }
}

/// The value at quantile `q` (per mille) of the distribution: 0 for an
/// empty one, else the smallest value whose cumulative count reaches
/// the quantile's target.
pub open spec fn spec_value_at(s: Seq<u64>, q: u64) -> int {
    if sum_counts(s) == 0 {
        0
    } else {
        least_reaching(s, quantile_target(q, sum_counts(s)), 1)
    }
}

pub proof fn lemma_sum_snoc(s: Seq<u64>, x: u64)
    ensures
        sum_counts(s.push(x)) == sum_counts(s) + x,
{
    assert(s.push(x).drop_last() =~= s);
    assert(s.push(x).last() == x);
}

pub proof fn lemma_sum_nonneg(s: Seq<u64>)
    ensures
        sum_counts(s) >= 0,
    decreases s.len(),
{
    if s.len() > 0 {
        lemma_sum_nonneg(s.drop_last());
    }
}

/// Each single count is at most the sum of all of them.
pub proof fn lemma_count_le_sum(s: Seq<u64>, i: int)
    requires
        0 <= i < s.len(),
    ensures
        s[i] <= sum_counts(s),
    decreases s.len(),
{
    if i == s.len() - 1 {
        lemma_sum_nonneg(s.drop_last());
    } else {
        lemma_count_le_sum(s.drop_last(), i);
        assert(s.drop_last()[i] == s[i]);
    }
}

/// Adding one to one count adds one to the sum.
pub proof fn lemma_sum_update_incr(s: Seq<u64>, i: int)
    requires
        0 <= i < s.len(),
        s[i] < u64::MAX,
    ensures
        sum_counts(s.update(i, (s[i] + 1) as u64)) == sum_counts(s) + 1,
    decreases s.len(),
{
    let t = s.update(i, (s[i] + 1) as u64);
    if i == s.len() - 1 {
        assert(t.drop_last() =~= s.drop_last());
        assert(t.last() == s[i] + 1);
    } else {
        assert(t.drop_last() =~= s.drop_last().update(i, (s[i] + 1) as u64));
        assert(s.drop_last()[i] == s[i]);
        lemma_sum_update_incr(s.drop_last(), i);
        assert(t.last() == s.last());
    }
}

/// One more element of the prefix adds exactly its count.
pub proof fn lemma_cum_step(s: Seq<u64>, v: int)
    requires
        0 <= v < s.len(),
    ensures
        cum(s, v) == cum(s, v - 1) + s[v],
{
    assert(s.take(v + 1).drop_last() =~= s.take(v));
    assert(s.take(v + 1).last() == s[v]);
}

/// Cumulative counts never decrease as the value grows.
pub proof fn lemma_cum_mono(s: Seq<u64>, v1: int, v2: int)
    requires
        -1 <= v1 <= v2 < s.len(),
    ensures
        cum(s, v1) <= cum(s, v2),
    decreases v2 - v1,
{
    if v1 < v2 {
        lemma_cum_mono(s, v1, v2 - 1);
        lemma_cum_step(s, v2);
    }
}

/// The cumulative count over the whole range is the total.
pub proof fn lemma_cum_full(s: Seq<u64>)
    requires
        s.len() == LATENCY_HIGH + 1,
    ensures
        cum(s, LATENCY_HIGH as int) == sum_counts(s),
{
    assert(s.take(LATENCY_HIGH + 1 as int) =~= s);
}

/// What `least_reaching` returns: a value in range, minimal among
/// those whose cumulative count reaches `t`.
pub proof fn lemma_least_reaching_props(s: Seq<u64>, t: int, v: int)
    requires
        1 <= v <= LATENCY_HIGH,
    ensures
        v <= least_reaching(s, t, v) <= LATENCY_HIGH,
        forall|w: int| v <= w < least_reaching(s, t, v) ==> cum(s, w) < t,
        cum(s, least_reaching(s, t, v)) >= t || least_reaching(s, t, v) == LATENCY_HIGH,
    decreases LATENCY_HIGH as int - v,
{
    if v < LATENCY_HIGH && cum(s, v) < t {
        lemma_least_reaching_props(s, t, v + 1);
    }
}

/// A larger target is reached no earlier.
pub proof fn lemma_least_reaching_mono(s: Seq<u64>, t1: int, t2: int, v: int)
    requires
        1 <= v <= LATENCY_HIGH,
        t1 <= t2,
    ensures
        least_reaching(s, t1, v) <= least_reaching(s, t2, v),
    decreases LATENCY_HIGH as int - v,
{
    if v < LATENCY_HIGH && cum(s, v) < t2 {
        if cum(s, v) < t1 {
            lemma_least_reaching_mono(s, t1, t2, v + 1);
        } else {
            lemma_least_reaching_props(s, t2, v + 1);
        }
    }
}

/// Quantile values are monotone in the quantile: for any distribution,
/// the value at a smaller quantile never exceeds the value at a larger
/// one.
pub proof fn lemma_quantile_monotonic(s: Seq<u64>, q1: u64, q2: u64)
    requires
        q1 <= q2,
    ensures
        spec_value_at(s, q1) <= spec_value_at(s, q2),
{
    let total = sum_counts(s);
    if total != 0 {
        lemma_sum_nonneg(s);
        assert(q1 * total <= q2 * total) by (nonlinear_arith)
            requires
                q1 <= q2,
                total >= 0,
        ;
        lemma_div_is_ordered(q1 * total + 999, q2 * total + 999, 1000);
        lemma_least_reaching_mono(s, quantile_target(q1, total), quantile_target(q2, total), 1);
    }
}

/// Recording a value above the upper bound is the same as recording
/// the upper bound itself: the distribution, and with it every
/// quantile value, comes out identical.
pub proof fn lemma_record_saturates(s: Seq<u64>, v: u64)
    requires
        v > LATENCY_HIGH,
    ensures
        record_spec(s, v) == record_spec(s, LATENCY_HIGH),
        forall|q: u64| spec_value_at(record_spec(s, v), q) == spec_value_at(
            record_spec(s, LATENCY_HIGH),
            q,
        ),
{
    assert(clamp_idx(v) == clamp_idx(LATENCY_HIGH));
}

/// A bounded, saturating latency distribution over `[1, 300000]` with
/// one exact count per value.
pub struct LatencyHistogram {
    counts: Vec<u64>,
    total: u64,
}

impl LatencyHistogram {
    /// The per-value counts, one slot per value of the range (slot 0
    /// stays empty: values below the lower bound clamp to 1).
    pub closed spec fn counts(self) -> Seq<u64> {
        self.counts@
    }

    /// The distribution's structural invariant: full range, and a
    /// total that tracks the sum of the counts (so the sum fits in a
    /// counter word).
    pub closed spec fn wf(self) -> bool {
        self.counts@.len() == LATENCY_HIGH + 1 && self.total == sum_counts(self.counts@)
            && self.counts@[0] == 0
    }

    /// The number of recorded (clamped) samples.
    pub open spec fn spec_total(self) -> int {
        sum_counts(self.counts())
    }

    /// An empty distribution.
    pub fn new() -> (r: LatencyHistogram)
        ensures
            r.wf(),
            r.counts() == Seq::new((LATENCY_HIGH + 1) as nat, |_i: int| 0u64),
            r.spec_total() == 0,
    {
        let mut counts: Vec<u64> = Vec::new();
        let mut i: usize = 0;
        while i < 300001
            invariant
                counts@.len() == i,
                0 <= i <= 300001,
                forall|j: int| 0 <= j < i ==> counts@[j] == 0u64,
                sum_counts(counts@) == 0,
            decreases 300001 - i,
        {
            proof {
                lemma_sum_snoc(counts@, 0u64);
            }
            counts.push(0);
            i = i + 1;
        }
        assert(counts@ =~= Seq::new((LATENCY_HIGH + 1) as nat, |_i: int| 0u64));
        LatencyHistogram { counts, total: 0 }
    }

    /// Record one sample, clamping it into the range; when the total
    /// would overflow the counter word the sample is dropped.
    pub fn record(&mut self, value: u64)
        requires
            old(self).wf(),
        ensures
            final(self).wf(),
            final(self).counts() == record_spec(old(self).counts(), value),
    {
        let idx: usize = if value < LATENCY_LOW {
            LATENCY_LOW as usize
        } else if value > LATENCY_HIGH {
            LATENCY_HIGH as usize
        } else {
            value as usize
        };
        assert(idx as int == clamp_idx(value));
        if self.total < u64::MAX {
            proof {
                lemma_count_le_sum(self.counts@, idx as int);
            }
            let c = self.counts[idx];
            self.counts[idx] = c + 1;
            proof {
                lemma_sum_update_incr(old(self).counts@, idx as int);
            }
            self.total = self.total + 1;
        }
    }

    /// The number of recorded (clamped) samples.
    pub fn total(&self) -> (r: u64)
        requires
            self.wf(),
        ensures
            r == self.spec_total(),
    {
        self.total
    }

    /// The value at quantile `q`, given per mille: the smallest value
    /// whose cumulative count reaches `q`'s share (rounded up) of the
    /// total; 0 when nothing was recorded.
    pub fn value_at_quantile(&self, q: u64) -> (r: u64)
        requires
            self.wf(),
            1 <= q <= 1000,
        ensures
            r == spec_value_at(self.counts(), q),
    {
        if self.total == 0 {
            return 0;
        }
        let total = self.total;
        assert(q * total + 999 < u128::MAX) by (nonlinear_arith)
            requires
                1 <= q <= 1000,
                0 <= total <= u64::MAX,
        ;
        let t128: u128 = ((q as u128) * (total as u128) + 999) / 1000;
        assert(t128 == quantile_target(q, sum_counts(self.counts@)));
        assert(t128 <= total) by {
            assert(q * total <= 1000 * total) by (nonlinear_arith)
                requires
                    1 <= q <= 1000,
                    total >= 0,
            ;
            lemma_div_is_ordered(q * total + 999, 1000 * total + 999, 1000);
            assert((1000 * total + 999) / 1000 == total + 999int / 1000) by (nonlinear_arith);
        }
        let target: u64 = t128 as u64;
        assert(target >= 1) by {
            assert(q * total >= 1) by (nonlinear_arith)
                requires
                    q >= 1,
                    total >= 1,
            ;
            lemma_div_is_ordered(1000, q * total + 999, 1000);
        }
        let ghost s = self.counts@;
        let mut v: usize = 1;
        let mut acc: u64 = self.counts[0];
        assert(cum(s, 0) == 0) by {
            let single = s.take(1);
            assert(single.len() == 1);
            assert(single.drop_last() =~= Seq::<u64>::empty());
            assert(sum_counts(Seq::<u64>::empty()) == 0);
            assert(single.last() == s[0]);
        }
        assert(acc == cum(s, 0));
        loop
            invariant
                self.wf(),
                s == self.counts@,
                1 <= v <= LATENCY_HIGH,
                1 <= target <= sum_counts(s),
                target as int == quantile_target(q, sum_counts(s)),
                1 <= q <= 1000,
                acc == cum(s, v - 1),
                acc < target,
                forall|w: int| 1 <= w < v ==> cum(s, w) < target,
                least_reaching(s, target as int, 1) == least_reaching(s, target as int, v as int),
            decreases LATENCY_HIGH as int - v,
        {
            let c = self.counts[v];
            proof {
                lemma_cum_step(s, v as int);
                lemma_cum_mono(s, v as int, LATENCY_HIGH as int);
                lemma_cum_full(s);
            }
            let acc2 = acc + c;
            assert(acc2 == cum(s, v as int));
            if acc2 >= target {
                assert(least_reaching(s, target as int, v as int) == v);
                assert(spec_value_at(s, q) == least_reaching(s, target as int, 1));
                return v as u64;
            }
            if v == (LATENCY_HIGH as usize) - 1 {
                // the full range always reaches the target
                assert(least_reaching(s, target as int, v + 1) == LATENCY_HIGH);
                assert(spec_value_at(s, q) == least_reaching(s, target as int, 1));
                return LATENCY_HIGH;
            }
            acc = acc2;
            v = v + 1;
        }
    }
}

/// The quantile, per mille, reported at position `i` of a percentile
/// snapshot: the fixed set {0.50, 0.75, 0.90, 0.95, 0.98, 0.99, 0.999}.
pub open spec fn quantile_at(i: int) -> u64 {
    if i == 0 {
        500
    } else if i == 1 {
        750
    } else if i == 2 {
        900
    } else if i == 3 {
        950
    } else if i == 4 {
        980
    } else if i == 5 {
        990
    } else {
        999
    }
}

/// How many quantiles a percentile snapshot reports.
pub const QUANTILE_COUNT: usize = 7;

/// The label of a quantile given per mille: `"0."` followed by its
/// three digits, e.g. `"0.500"` or `"0.999"`.
pub open spec fn quantile_label(q: u64) -> Seq<u8> {
    seq![48u8, 46u8, ((q / 100) % 10 + 48) as u8, ((q / 10) % 10 + 48) as u8, ((q % 10) + 48) as u8]
}

/// The exec mirror of `quantile_at`.
pub fn quantile_permille(i: usize) -> (r: u64)
    requires
        i < QUANTILE_COUNT,
    ensures
        r == quantile_at(i as int),
{
    if i == 0 {
        500
    } else if i == 1 {
        750
    } else if i == 2 {
        900
    } else if i == 3 {
        950
    } else if i == 4 {
        980
    } else if i == 5 {
        990
    } else {
        999
    }
}

/// Render a quantile's label.
pub fn make_quantile_label(q: u64) -> (r: Vec<u8>)
    ensures
        r@ == quantile_label(q),
{
    let mut r: Vec<u8> = Vec::new();
    r.push(48);
    r.push(46);
    r.push((((q / 100) % 10) as u8) + 48);
    r.push((((q / 10) % 10) as u8) + 48);
    r.push(((q % 10) as u8) + 48);
    assert(r@ =~= quantile_label(q));
    r
}

/// The full percentile snapshot of a distribution: one (label, value)
/// pair per fixed quantile, in the fixed order.
pub open spec fn spec_percentiles(s: Seq<u64>) -> Seq<(Seq<u8>, u64)> {
    Seq::new(QUANTILE_COUNT as nat, |i: int|
        (quantile_label(quantile_at(i)), spec_value_at(s, quantile_at(i)) as u64))
}

/// A per-record response-time metric: a latency distribution together
/// with its percentile snapshot.
pub struct ResponseTime {
    /// The underlying saturating distribution.
    pub histogram: LatencyHistogram,
}

impl ResponseTime {
    /// An empty response-time metric.
    pub fn new() -> (r: ResponseTime)
        ensures
            r.histogram.wf(),
            r.histogram.spec_total() == 0,
            r.histogram.counts() == Seq::new((LATENCY_HIGH + 1) as nat, |_i: int| 0u64),
    {
        ResponseTime { histogram: LatencyHistogram::new() }
    }

    /// Record one elapsed duration, given in the distribution's unit
    /// (milliseconds), saturating at the bounds.
    pub fn increment_time_by_duration(&mut self, elapsed_ms: u64)
        requires
            old(self).histogram.wf(),
        ensures
            final(self).histogram.wf(),
            final(self).histogram.counts() == record_spec(old(self).histogram.counts(), elapsed_ms),
    {
        self.histogram.record(elapsed_ms);
    }

    /// The percentile snapshot: for each of the fixed quantiles, its
    /// label (e.g. `"0.990"`) paired with the value at that quantile.
    pub fn get_percentile_map(&self) -> (r: Vec<(Vec<u8>, u64)>)
        requires
            self.histogram.wf(),
        ensures
            r@.len() == QUANTILE_COUNT,
            forall|i: int| 0 <= i < QUANTILE_COUNT ==> #[trigger] r@[i].0@ == quantile_label(
                quantile_at(i),
            ) && r@[i].1 == spec_value_at(self.histogram.counts(), quantile_at(i)),
    {
        let mut r: Vec<(Vec<u8>, u64)> = Vec::new();
        let mut i: usize = 0;
        while i < QUANTILE_COUNT
            invariant
                self.histogram.wf(),
                0 <= i <= QUANTILE_COUNT,
                r@.len() == i,
                forall|j: int| 0 <= j < i ==> #[trigger] r@[j].0@ == quantile_label(
                    quantile_at(j),
                ) && r@[j].1 == spec_value_at(self.histogram.counts(), quantile_at(j)),
            decreases QUANTILE_COUNT - i,
        {
            let q = quantile_permille(i);
            let label = make_quantile_label(q);
            let value = self.histogram.value_at_quantile(q);
            r.push((label, value));
            i = i + 1;
        }
        r
    }
}

} // verus!
