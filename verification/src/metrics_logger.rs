//! The metric registry: a key→record store fed by every finished
//! request.
//!
//! Each record aggregates one (path, method, status) combination: a
//! hit counter, an error counter and a latency distribution. The key
//! is the single ordered string `"{path}/{method}/{code}"`. Recording
//! performs a get-or-create of the key's record — the registry never
//! holds two records for one key — then bumps the hit counter, feeds
//! the latency distribution, and bumps the error counter exactly when
//! the status is not a success code.

use vstd::prelude::*;
use crate::fmtutil::{append_bytes, append_u64, copy_bytes, dec_u64, slice_eq};
use crate::histogram::{LATENCY_HIGH, ResponseTime, record_spec};
use crate::http_route::HttpRoute;
use crate::metrics::{Counter, CounterIncrementer, sat_add};

verus! {

/// Whether a status code counts as a success (2xx).
pub open spec fn spec_is_success(code: u16) -> bool {
    200 <= code < 300
}

/// Whether a status code counts as a success (2xx).
pub fn is_success(code: u16) -> (r: bool)
    ensures
        r == spec_is_success(code),
{
    200 <= code && code < 300
}

/// The registry key of one (path, method, status) combination:
/// `"{path}/{method}/{code}"`.
pub open spec fn spec_key(path: Seq<u8>, method: Seq<u8>, code: u16) -> Seq<u8> {
    path + seq![47u8] + method + seq![47u8] + dec_u64(code as u64)
}

/// Render the registry key of one (path, method, status) combination.
pub fn build_key(path: &Vec<u8>, method: &Vec<u8>, code: u16) -> (r: Vec<u8>)
    ensures
        r@ == spec_key(path@, method@, code),
{
    let mut r: Vec<u8> = Vec::new();
    append_bytes(&mut r, path);
    r.push(47);
    append_bytes(&mut r, method);
    r.push(47);
    append_u64(&mut r, code as u64);
    assert(r@ =~= spec_key(path@, method@, code));
    r
}

/// The mathematical view of one metric record.
pub ghost struct MetricsModel {
    /// The reported path.
    pub path: Seq<u8>,
    /// The request method token.
    pub method: Seq<u8>,
    /// The response status code.
    pub code: u16,
    /// How many requests this record has counted.
    pub hits: u64,
    /// How many of them carried a non-success status.
    pub errors: u64,
    /// The latency distribution's per-value counts.
    pub latency: Seq<u64>,
}

/// The registry key of a record.
pub open spec fn key_of(m: MetricsModel) -> Seq<u8> {
    spec_key(m.path, m.method, m.code)
}

/// The index of the first record with key `key`, or -1 when none
/// holds it.
pub open spec fn find_key(s: Seq<MetricsModel>, key: Seq<u8>) -> int
    decreases s.len(),
{
    if s.len() == 0 {
        -1
    } else if key_of(s[0]) == key {
        0
    } else {
        let r = find_key(s.drop_first(), key);
        if r == -1 {
            -1
        } else {
            r + 1
        }
    }
}

/// How many records hold key `key`.
pub open spec fn count_key(s: Seq<MetricsModel>, key: Seq<u8>) -> int
    decreases s.len(),
{
    if s.len() == 0 {
        0
    } else {
        (if key_of(s[0]) == key {
            1int
        } else {
            0int
        }) + count_key(s.drop_first(), key)
    }
}

/// One recording applied to an existing record: one more hit, the
/// elapsed time folded into the distribution, one more error exactly
/// when the status is not a success.
pub open spec fn bump(m: MetricsModel, ms: u64) -> MetricsModel {
    MetricsModel {
        hits: sat_add(m.hits, 1),
        errors: if spec_is_success(m.code) {
            m.errors
        } else {
            sat_add(m.errors, 1)
        },
        latency: record_spec(m.latency, ms),
        ..m
    }
}

/// The distribution counts of a record that saw nothing yet.
pub open spec fn zero_counts() -> Seq<u64> {
    Seq::new((LATENCY_HIGH + 1) as nat, |_i: int| 0u64)
}

/// The record created by a key's first recording.
pub open spec fn fresh_record(path: Seq<u8>, method: Seq<u8>, code: u16, ms: u64) -> MetricsModel {
    MetricsModel {
        path: path,
        method: method,
        code: code,
        hits: 1,
        errors: if spec_is_success(code) {
            0
        } else {
            1
        },
        latency: record_spec(zero_counts(), ms),
    }
}

/// One recording applied to the whole registry: get-or-create of the
/// key's record, then one bump of it.
pub open spec fn log_step(
    s: Seq<MetricsModel>,
    path: Seq<u8>,
    method: Seq<u8>,
    code: u16,
    ms: u64,
) -> Seq<MetricsModel> {
    let key = spec_key(path, method, code);
    let i = find_key(s, key);
    if i >= 0 {
        s.update(i, bump(s[i], ms))
    } else {
        s.push(fresh_record(path, method, code, ms))
    }
}

/// `n` recordings of the same key, one after the other.
pub open spec fn log_n(
    s: Seq<MetricsModel>,
    path: Seq<u8>,
    method: Seq<u8>,
    code: u16,
    ms: u64,
    n: nat,
) -> Seq<MetricsModel>
    decreases n,
{
    if n == 0 {
        s
    } else {
        log_step(log_n(s, path, method, code, ms, (n - 1) as nat), path, method, code, ms)
    }
}

/// No two records share a key.
pub open spec fn wf_model(s: Seq<MetricsModel>) -> bool {
    forall|i: int, j: int|
        0 <= i < j < s.len() ==> key_of(#[trigger] s[i]) != key_of(#[trigger] s[j])
}

pub proof fn lemma_find_key_at(s: Seq<MetricsModel>, key: Seq<u8>, i: int)
    requires
        0 <= i < s.len(),
        key_of(s[i]) == key,
        forall|j: int| 0 <= j < i ==> key_of(#[trigger] s[j]) != key,
    ensures
        find_key(s, key) == i,
    decreases s.len(),
{
    if i > 0 {
        lemma_find_key_at(s.drop_first(), key, i - 1);
    }
}

pub proof fn lemma_find_key_none(s: Seq<MetricsModel>, key: Seq<u8>)
    requires
        forall|j: int| 0 <= j < s.len() ==> key_of(#[trigger] s[j]) != key,
    ensures
        find_key(s, key) == -1,
    decreases s.len(),
{
    if s.len() > 0 {
        lemma_find_key_none(s.drop_first(), key);
    }
}

/// What a non-negative `find_key` means: a first occurrence.
pub proof fn lemma_find_key_props(s: Seq<MetricsModel>, key: Seq<u8>)
    ensures
        find_key(s, key) == -1 || (0 <= find_key(s, key) < s.len() && key_of(
            s[find_key(s, key)],
        ) == key && forall|j: int| 0 <= j < find_key(s, key) ==> key_of(#[trigger] s[j]) != key),
    decreases s.len(),
{
    if s.len() > 0 && key_of(s[0]) != key {
        lemma_find_key_props(s.drop_first(), key);
        let r = find_key(s.drop_first(), key);
        if r != -1 {
            assert(s.drop_first()[r] == s[r + 1]);
            assert forall|j: int| 0 <= j < r + 1 implies key_of(#[trigger] s[j]) != key by {
                if j > 0 {
                    assert(s.drop_first()[j - 1] == s[j]);
                }
            }
        }
    }
}

/// A key that `find_key` does not locate occurs nowhere.
pub proof fn lemma_find_none_absent(s: Seq<MetricsModel>, key: Seq<u8>)
    requires
        find_key(s, key) == -1,
    ensures
        forall|j: int| 0 <= j < s.len() ==> key_of(#[trigger] s[j]) != key,
    decreases s.len(),
{
    if s.len() > 0 {
        assert(key_of(s[0]) != key);
        lemma_find_key_props(s.drop_first(), key);
        assert(find_key(s.drop_first(), key) == -1);
        lemma_find_none_absent(s.drop_first(), key);
        assert forall|j: int| 0 <= j < s.len() implies key_of(#[trigger] s[j]) != key by {
            if j > 0 {
                assert(s.drop_first()[j - 1] == s[j]);
            }
        }
    }
}

/// A key counted zero times occurs nowhere.
pub proof fn lemma_count_zero_absent(s: Seq<MetricsModel>, key: Seq<u8>)
    requires
        count_key(s, key) == 0,
    ensures
        forall|j: int| 0 <= j < s.len() ==> key_of(#[trigger] s[j]) != key,
    decreases s.len(),
{
    if s.len() > 0 {
        lemma_count_nonneg(s.drop_first(), key);
        lemma_count_zero_absent(s.drop_first(), key);
        assert forall|j: int| 0 <= j < s.len() implies key_of(#[trigger] s[j]) != key by {
            if j > 0 {
                assert(s.drop_first()[j - 1] == s[j]);
            }
        }
    }
}

pub proof fn lemma_count_nonneg(s: Seq<MetricsModel>, key: Seq<u8>)
    ensures
        count_key(s, key) >= 0,
    decreases s.len(),
{
    if s.len() > 0 {
        lemma_count_nonneg(s.drop_first(), key);
    }
}

/// Appending a record adds its key to the tally.
pub proof fn lemma_count_push(s: Seq<MetricsModel>, key: Seq<u8>, m: MetricsModel)
    ensures
        count_key(s.push(m), key) == count_key(s, key) + (if key_of(m) == key {
            1int
        } else {
            0int
        }),
    decreases s.len(),
{
    let t = s.push(m);
    assert(t.len() == s.len() + 1);
    assert(count_key(t, key) == (if key_of(t[0]) == key {
        1int
    } else {
        0int
    }) + count_key(t.drop_first(), key));
    if s.len() == 0 {
        assert(t.drop_first() =~= Seq::<MetricsModel>::empty());
        assert(t[0] == m);
        assert(count_key(Seq::<MetricsModel>::empty(), key) == 0);
        assert(count_key(s, key) == 0);
    } else {
        assert(t.drop_first() =~= s.drop_first().push(m));
        assert(t[0] == s[0]);
        lemma_count_push(s.drop_first(), key, m);
        assert(count_key(s, key) == (if key_of(s[0]) == key {
            1int
        } else {
            0int
        }) + count_key(s.drop_first(), key));
    }
}

/// Replacing a record by one with the same key keeps the tally.
pub proof fn lemma_count_update_same_key(
    s: Seq<MetricsModel>,
    key: Seq<u8>,
    i: int,
    m: MetricsModel,
)
    requires
        0 <= i < s.len(),
        key_of(m) == key_of(s[i]),
    ensures
        count_key(s.update(i, m), key) == count_key(s, key),
    decreases s.len(),
{
    let t = s.update(i, m);
    if i == 0 {
        assert(t.drop_first() =~= s.drop_first());
    } else {
        assert(t.drop_first() =~= s.drop_first().update(i - 1, m));
        assert(s.drop_first()[i - 1] == s[i]);
        lemma_count_update_same_key(s.drop_first(), key, i - 1, m);
        assert(t[0] == s[0]);
    }
}

/// Get-or-create accumulation: starting from a registry that does not
/// hold the key, `n` recordings of that key leave exactly one record
/// for it — no duplicate records, no lost increments — holding
/// exactly `n` hits and, when the status is not a success code,
/// exactly `n` errors (0 otherwise), with every pre-existing record
/// untouched.
pub proof fn lemma_get_or_create_accumulates(
    s: Seq<MetricsModel>,
    path: Seq<u8>,
    method: Seq<u8>,
    code: u16,
    ms: u64,
    n: nat,
)
    requires
        count_key(s, spec_key(path, method, code)) == 0,
        1 <= n <= u64::MAX,
    ensures
        ({
            let key = spec_key(path, method, code);
            let r = log_n(s, path, method, code, ms, n);
            r.len() == s.len() + 1 && count_key(r, key) == 1 && key_of(r[s.len() as int]) == key
                && r[s.len() as int].path == path && r[s.len() as int].method == method
                && r[s.len() as int].code == code && r[s.len() as int].hits == n
                && r[s.len() as int].errors == (if spec_is_success(code) {
                0int
            } else {
                n as int
            }) && forall|j: int| 0 <= j < s.len() ==> #[trigger] r[j] == s[j]
        }),
    decreases n,
{
    let key = spec_key(path, method, code);
    if n == 1 {
        lemma_count_zero_absent(s, key);
        lemma_find_key_none(s, key);
        let f = fresh_record(path, method, code, ms);
        assert(key_of(f) == key);
        lemma_count_push(s, key, f);
        assert(log_n(s, path, method, code, ms, 1) == log_step(s, path, method, code, ms));
    } else {
        lemma_get_or_create_accumulates(s, path, method, code, ms, (n - 1) as nat);
        let r0 = log_n(s, path, method, code, ms, (n - 1) as nat);
        lemma_count_zero_absent(s, key);
        assert forall|j: int| 0 <= j < s.len() implies key_of(#[trigger] r0[j]) != key by {
            assert(r0[j] == s[j]);
        }
        lemma_find_key_at(r0, key, s.len() as int);
        let b = bump(r0[s.len() as int], ms);
        assert(b.hits == sat_add((n - 1) as u64, 1) == n as u64);
        assert(!spec_is_success(code) ==> b.errors == sat_add((n - 1) as u64, 1) == n as u64);
        assert(key_of(b) == key);
        lemma_count_update_same_key(r0, key, s.len() as int, b);
    }
}

/// One metric record: the (path, method, status) identity, fixed at
/// creation, and its live counters and latency distribution.
pub struct Metrics {
    /// The reported path.
    pub path: Vec<u8>,
    /// The request method token.
    pub method: Vec<u8>,
    /// The response status code.
    pub code: u16,
    /// How many requests this record has counted.
    pub hits: Counter,
    /// How many of them carried a non-success status.
    pub errors: Counter,
    /// The latency distribution.
    pub response_time: ResponseTime,
}

impl View for Metrics {
    type V = MetricsModel;

    open spec fn view(&self) -> MetricsModel {
        MetricsModel {
            path: self.path@,
            method: self.method@,
            code: self.code,
            hits: self.hits.count,
            errors: self.errors.count,
            latency: self.response_time.histogram.counts(),
        }
    }
}

impl Metrics {
    /// The record's structural invariant: a well-formed distribution.
    pub open spec fn wf(self) -> bool {
        self.response_time.histogram.wf()
    }
}

/// The key→record store itself.
pub struct MetricsRegistry {
    /// The records, in creation order, one per key.
    pub metrics: Vec<Metrics>,
}

impl View for MetricsRegistry {
    type V = Seq<MetricsModel>;

    open spec fn view(&self) -> Seq<MetricsModel> {
        self.metrics@.map_values(|m: Metrics| m@)
    }
}

impl MetricsRegistry {
    /// The registry's invariant: well-formed records, no key twice.
    pub open spec fn wf(self) -> bool {
        wf_model(self@) && forall|i: int|
            0 <= i < self.metrics@.len() ==> (#[trigger] self.metrics@[i]).wf()
    }
}

/// The registry of request metrics, shared by every request for the
/// process lifetime.
pub struct MetricsLogger {
    /// The backing key→record store.
    pub registry: MetricsRegistry,
}

impl View for MetricsLogger {
    type V = Seq<MetricsModel>;

    open spec fn view(&self) -> Seq<MetricsModel> {
        self.registry@
    }
}

impl MetricsLogger {
    /// The logger's invariant: its registry's.
    pub open spec fn wf(self) -> bool {
        self.registry.wf()
    }

    /// An empty registry.
    pub fn new() -> (r: MetricsLogger)
        ensures
            r.wf(),
            r@ == Seq::<MetricsModel>::empty(),
    {
        let r = MetricsLogger { registry: MetricsRegistry { metrics: Vec::new() } };
        assert(r@ =~= Seq::<MetricsModel>::empty());
        r
    }

    /// The index of the key's record, or `None` when the key is new.
    fn find_entry(&self, key: &Vec<u8>) -> (r: Option<usize>)
        ensures
            (match r {
                Some(i) => 0 <= i < self@.len() && find_key(self@, key@) == i,
                None => find_key(self@, key@) == -1,
            }),
    {
        let n = self.registry.metrics.len();
        let mut i: usize = 0;
        while i < n
            invariant
                n == self.registry.metrics@.len(),
                0 <= i <= n,
                forall|j: int| 0 <= j < i ==> key_of(#[trigger] self@[j]) != key@,
            decreases n - i,
        {
            let m = &self.registry.metrics[i];
            let entry_key = build_key(&m.path, &m.method, m.code);
            if slice_eq(entry_key.as_slice(), key.as_slice()) {
                proof {
                    assert(key_of(self@[i as int]) == key@);
                    lemma_find_key_at(self@, key@, i as int);
                }
                return Some(i);
            }
            i = i + 1;
        }
        proof {
            lemma_find_key_none(self@, key@);
        }
        None
    }

    /// Record one finished request: compute the metric key from the
    /// context's reported path, the method and the response status;
    /// get-or-create the key's record; then count the hit, fold the
    /// elapsed time into the latency distribution, and count an error
    /// exactly when the status is not a success code.
    pub fn log(&mut self, route: &HttpRoute, status_code: u16, elapsed_ms: u64)
        requires
            old(self).wf(),
        ensures
            final(self).wf(),
            final(self)@ == log_step(
                old(self)@,
                route.spec_metric_path(),
                route.method@,
                status_code,
                elapsed_ms,
            ),
    {
        let path: &Vec<u8> = match &route.metric_path {
            Some(p) => p,
            None => &route.path,
        };
        let key = build_key(path, &route.method, status_code);
        match self.find_entry(&key) {
            Some(i) => {
                let ghost pre = self@;
                let ghost pre_elem = self.registry.metrics@[i as int];
                let ghost target = bump(pre[i as int], elapsed_ms);
                assert(pre[i as int] == pre_elem@);
                let entry_ok = is_success(self.registry.metrics[i].code);
                self.registry.metrics[i].hits.increment_by(1);
                self.registry.metrics[i].response_time.increment_time_by_duration(elapsed_ms);
                if !entry_ok {
                    self.registry.metrics[i].errors.increment_by(1);
                }
                proof {
                    assert(self.registry.metrics@[i as int]@ == target);
                    assert(self@ =~= pre.update(i as int, target));
                    assert(key_of(target) == key_of(pre[i as int]));
                    assert(wf_model(self@)) by {
                        assert forall|x: int, y: int|
                            0 <= x < y < self@.len() implies key_of(#[trigger] self@[x]) != key_of(
                            #[trigger] self@[y],
                        ) by {
                            assert(key_of(self@[x]) == key_of(pre[x]));
                            assert(key_of(self@[y]) == key_of(pre[y]));
                        }
                    }
                    assert(self@ == log_step(
                        pre,
                        route.spec_metric_path(),
                        route.method@,
                        status_code,
                        elapsed_ms,
                    ));
                }
            },
            None => {
                let ghost pre = self@;
                let is_ok = is_success(status_code);
                let mut response_time = ResponseTime::new();
                response_time.increment_time_by_duration(elapsed_ms);
                let entry = Metrics {
                    path: copy_bytes(path),
                    method: copy_bytes(&route.method),
                    code: status_code,
                    hits: Counter { count: 1 },
                    errors: Counter {
                        count: if is_ok {
                            0
                        } else {
                            1
                        },
                    },
                    response_time,
                };
                proof {
                    assert(entry@ == fresh_record(
                        route.spec_metric_path(),
                        route.method@,
                        status_code,
                        elapsed_ms,
                    ));
                }
                self.registry.metrics.push(entry);
                proof {
                    assert(self@ =~= pre.push(entry@));
                    lemma_find_none_absent(pre, key@);
                    assert(key@ == spec_key(route.spec_metric_path(), route.method@, status_code));
                    assert(key_of(entry@) == key@);
                    assert(wf_model(self@)) by {
                        assert forall|x: int, y: int|
                            0 <= x < y < self@.len() implies key_of(#[trigger] self@[x]) != key_of(
                            #[trigger] self@[y],
                        ) by {
                            if y < pre.len() {
                                assert(key_of(pre[x]) != key_of(pre[y]));
                            } else {
                                assert(self@[y] == entry@);
                                assert(key_of(self@[x]) == key_of(pre[x]));
                            }
                        }
                    }
                    assert(self@ == log_step(
                        pre,
                        route.spec_metric_path(),
                        route.method@,
                        status_code,
                        elapsed_ms,
                    ));
                }
            },
        }
    }

    /// A point-in-time view of the registry's records, in creation
    /// order, sufficient for export. Counters read during a walk may
    /// mix pre- and post-update states of concurrent recordings; that
    /// approximation is accepted.
    pub fn snapshot(&self) -> (r: &Vec<Metrics>)
        ensures
            r@.map_values(|m: Metrics| m@) == self@,
    {
        &self.registry.metrics
    }

    /// How many distinct keys the registry holds.
    pub fn len(&self) -> (r: usize)
        ensures
            r == self@.len(),
    {
        self.registry.metrics.len()
    }
}

} // verus!
