//! Rendering a registry snapshot: a structured JSON-style export and
//! a plain-text exposition format of three counter families (`hits`,
//! `errors`, `quantiles`), each labelled by (path, method, code) and
//! the quantile family additionally by quantile label.
//!
//! Both renderings are pure functions of the registry's mathematical
//! model; exporting reads the registry and never changes it.

use vstd::prelude::*;
use vstd::string::StringSliceAdditionalSpecFns;
use crate::fmtutil::{append_bytes, append_escaped, append_str, append_u64, dec_u64, esc_bytes};
use crate::histogram::spec_percentiles;
use crate::http_response::{HttpResponse, HttpResult};
use crate::http_route::HttpRoute;
use crate::metrics_logger::{Metrics, MetricsLogger, MetricsModel};

verus! {

/// The views of a vector of (label, value) pairs.
pub open spec fn pair_views(ps: Seq<(Vec<u8>, u64)>) -> Seq<(Seq<u8>, u64)> {
    ps.map_values(|p: (Vec<u8>, u64)| (p.0@, p.1))
}

/// One quantile entry of the JSON percentile map: `"label":value`.
pub open spec fn json_quantile_entry(p: (Seq<u8>, u64)) -> Seq<u8> {
    "\"".spec_bytes() + p.0 + "\":".spec_bytes() + dec_u64(p.1)
}

/// The comma-joined quantile entries from position `i` on.
pub open spec fn json_quantiles_from(ps: Seq<(Seq<u8>, u64)>, i: int) -> Seq<u8>
    decreases ps.len() - i,
{
    if i < 0 || i >= ps.len() {
        Seq::empty()
    } else if i == ps.len() - 1 {
        json_quantile_entry(ps[i])
    } else {
        json_quantile_entry(ps[i]) + ",".spec_bytes() + json_quantiles_from(ps, i + 1)
    }
}

/// The JSON percentile map of a distribution's snapshot.
pub open spec fn json_quantiles(ps: Seq<(Seq<u8>, u64)>) -> Seq<u8> {
    "{".spec_bytes() + json_quantiles_from(ps, 0) + "}".spec_bytes()
}

/// The JSON object for one record: its identity, both counters, and
/// the nested percentile map.
pub open spec fn json_record(m: MetricsModel) -> Seq<u8> {
    "{\"path\":\"".spec_bytes() + esc_bytes(m.path) + "\",\"method\":\"".spec_bytes() + esc_bytes(
        m.method,
    ) + "\",\"code\":".spec_bytes() + dec_u64(m.code as u64) + ",\"hit_count\":".spec_bytes()
        + dec_u64(m.hits) + ",\"error_count\":".spec_bytes() + dec_u64(m.errors)
        + ",\"percentile_metrics\":".spec_bytes() + json_quantiles(spec_percentiles(m.latency))
        + "}".spec_bytes()
}

/// The comma-joined record objects from position `i` on.
pub open spec fn json_rows_from(s: Seq<MetricsModel>, i: int) -> Seq<u8>
    decreases s.len() - i,
{
    if i < 0 || i >= s.len() {
        Seq::empty()
    } else if i == s.len() - 1 {
        json_record(s[i])
    } else {
        json_record(s[i]) + ",".spec_bytes() + json_rows_from(s, i + 1)
    }
}

/// The whole structured export: a JSON array of record objects, in
/// registry order.
pub open spec fn render_json(s: Seq<MetricsModel>) -> Seq<u8> {
    "[".spec_bytes() + json_rows_from(s, 0) + "]".spec_bytes()
}

/// The label set shared by every exposition line of a record.
pub open spec fn prom_labels(m: MetricsModel) -> Seq<u8> {
    "{path=\"".spec_bytes() + esc_bytes(m.path) + "\",method=\"".spec_bytes() + esc_bytes(m.method)
        + "\",code=\"".spec_bytes() + dec_u64(m.code as u64) + "\"".spec_bytes()
}

/// One exposition line of a plain counter family.
pub open spec fn prom_counter_line(family: Seq<u8>, m: MetricsModel, v: u64) -> Seq<u8> {
    family + prom_labels(m) + "} ".spec_bytes() + dec_u64(v) + "\n".spec_bytes()
}

/// The `hits` family line of a record.
pub open spec fn prom_hits_line(m: MetricsModel) -> Seq<u8> {
    prom_counter_line("hits".spec_bytes(), m, m.hits)
}

/// The `errors` family line of a record.
pub open spec fn prom_errors_line(m: MetricsModel) -> Seq<u8> {
    prom_counter_line("errors".spec_bytes(), m, m.errors)
}

/// One `quantiles` family line of a record.
pub open spec fn prom_quantile_line(m: MetricsModel, p: (Seq<u8>, u64)) -> Seq<u8> {
    "quantiles".spec_bytes() + prom_labels(m) + ",quantile=\"".spec_bytes() + p.0
        + "\"} ".spec_bytes() + dec_u64(p.1) + "\n".spec_bytes()
}

/// The quantile lines of a record from snapshot position `k` on.
pub open spec fn prom_quantile_lines_from(m: MetricsModel, ps: Seq<(Seq<u8>, u64)>, k: int) -> Seq<
    u8,
>
    decreases ps.len() - k,
{
    if k < 0 || k >= ps.len() {
        Seq::empty()
    } else {
        prom_quantile_line(m, ps[k]) + prom_quantile_lines_from(m, ps, k + 1)
    }
}

/// The lines of one family over the whole registry, from record `i`
/// on; `which` 0 renders hits, 1 errors, 2 quantiles.
pub open spec fn prom_family_lines_from(s: Seq<MetricsModel>, which: int, i: int) -> Seq<u8>
    decreases s.len() - i,
{
    if i < 0 || i >= s.len() {
        Seq::empty()
    } else {
        (if which == 0 {
            prom_hits_line(s[i])
        } else if which == 1 {
            prom_errors_line(s[i])
        } else {
            prom_quantile_lines_from(s[i], spec_percentiles(s[i].latency), 0)
        }) + prom_family_lines_from(s, which, i + 1)
    }
}

/// The whole text exposition: three families, each opened by its
/// HELP and TYPE comment lines.
pub open spec fn render_prometheus(s: Seq<MetricsModel>) -> Seq<u8> {
    "# HELP hits hits counter\n# TYPE hits counter\n".spec_bytes() + prom_family_lines_from(s, 0, 0)
        + "# HELP errors errors counter\n# TYPE errors counter\n".spec_bytes()
        + prom_family_lines_from(s, 1, 0)
        + "# HELP quantiles quantiles counter\n# TYPE quantiles counter\n".spec_bytes()
        + prom_family_lines_from(s, 2, 0)
}

/// Append one record's JSON percentile map.
fn append_json_quantiles(out: &mut Vec<u8>, m: &Metrics)
    requires
        m.wf(),
    ensures
        final(out)@ == old(out)@ + json_quantiles(spec_percentiles(m@.latency)),
{
    let pairs = m.response_time.get_percentile_map();
    let ghost ps = spec_percentiles(m@.latency);
    proof {
        assert(pair_views(pairs@) =~= ps);
    }
    append_str(out, "{");
    let ghost mark = out@;
    let n = pairs.len();
    let mut k: usize = 0;
    while k < n
        invariant
            n == pairs@.len(),
            ps == pair_views(pairs@),
            ps.len() == n,
            0 <= k <= n,
            forall|j: int| 0 <= j < n ==> (#[trigger] ps[j]).0 == pairs@[j].0@ && ps[j].1
                == pairs@[j].1,
            mark + json_quantiles_from(ps, 0) == out@ + (if k == 0 {
                json_quantiles_from(ps, 0)
            } else if k < n {
                ",".spec_bytes() + json_quantiles_from(ps, k as int)
            } else {
                Seq::<u8>::empty()
            }),
        decreases n - k,
    {
        if k > 0 {
            append_str(out, ",");
        }
        append_str(out, "\"");
        append_bytes(out, &pairs[k].0);
        append_str(out, "\":");
        append_u64(out, pairs[k].1);
        proof {
            assert(json_quantile_entry(ps[k as int]) == "\"".spec_bytes() + pairs@[k as int].0@
                + "\":".spec_bytes() + dec_u64(pairs@[k as int].1));
            if k + 1 < n {
                assert(mark + json_quantiles_from(ps, 0) =~= out@ + (",".spec_bytes()
                    + json_quantiles_from(ps, k + 1)));
            } else {
                assert(mark + json_quantiles_from(ps, 0) =~= out@);
            }
        }
        k = k + 1;
    }
    append_str(out, "}");
    assert(final(out)@ =~= old(out)@ + json_quantiles(ps));
}

/// Append one record's JSON object.
fn append_json_record(out: &mut Vec<u8>, m: &Metrics)
    requires
        m.wf(),
    ensures
        final(out)@ == old(out)@ + json_record(m@),
{
    append_str(out, "{\"path\":\"");
    append_escaped(out, &m.path);
    append_str(out, "\",\"method\":\"");
    append_escaped(out, &m.method);
    append_str(out, "\",\"code\":");
    append_u64(out, m.code as u64);
    append_str(out, ",\"hit_count\":");
    append_u64(out, m.hits.get());
    append_str(out, ",\"error_count\":");
    append_u64(out, m.errors.get());
    append_str(out, ",\"percentile_metrics\":");
    append_json_quantiles(out, m);
    append_str(out, "}");
    assert(final(out)@ =~= old(out)@ + json_record(m@));
}

/// Render the whole registry as the structured JSON export.
#[verifier::rlimit(80)]
pub fn render_json_export(logger: &MetricsLogger) -> (r: Vec<u8>)
    requires
        logger.wf(),
    ensures
        r@ == render_json(logger@),
{
    let ghost s = logger@;
    let mut out: Vec<u8> = Vec::new();
    append_str(&mut out, "[");
    let ghost mark = out@;
    let n = logger.registry.metrics.len();
    let mut i: usize = 0;
    while i < n
        invariant
            logger.wf(),
            s == logger@,
            n == logger.registry.metrics@.len(),
            s.len() == n,
            0 <= i <= n,
            mark + json_rows_from(s, 0) == out@ + (if i == 0 {
                json_rows_from(s, 0)
            } else if i < n {
                ",".spec_bytes() + json_rows_from(s, i as int)
            } else {
                Seq::<u8>::empty()
            }),
        decreases n - i,
    {
        if i > 0 {
            append_str(&mut out, ",");
        }
        let m = &logger.registry.metrics[i];
        assert(m.wf());
        assert(m@ == s[i as int]);
        append_json_record(&mut out, m);
        proof {
            if i + 1 < n {
                assert(mark + json_rows_from(s, 0) =~= out@ + (",".spec_bytes() + json_rows_from(
                    s,
                    i + 1,
                )));
            } else {
                assert(mark + json_rows_from(s, 0) =~= out@);
            }
        }
        i = i + 1;
    }
    append_str(&mut out, "]");
    assert(out@ =~= render_json(s));
    out
}

/// Append the shared label set of a record's exposition lines.
fn append_prom_labels(out: &mut Vec<u8>, m: &Metrics)
    ensures
        final(out)@ == old(out)@ + prom_labels(m@),
{
    append_str(out, "{path=\"");
    append_escaped(out, &m.path);
    append_str(out, "\",method=\"");
    append_escaped(out, &m.method);
    append_str(out, "\",code=\"");
    append_u64(out, m.code as u64);
    append_str(out, "\"");
    assert(final(out)@ =~= old(out)@ + prom_labels(m@));
}

/// Append one plain counter line.
fn append_prom_counter_line(out: &mut Vec<u8>, family: &str, m: &Metrics, v: u64)
    ensures
        final(out)@ == old(out)@ + prom_counter_line(family.spec_bytes(), m@, v),
{
    append_str(out, family);
    append_prom_labels(out, m);
    append_str(out, "} ");
    append_u64(out, v);
    append_str(out, "\n");
    assert(final(out)@ =~= old(out)@ + prom_counter_line(family.spec_bytes(), m@, v));
}

/// Append one record's quantile lines.
fn append_prom_quantile_lines(out: &mut Vec<u8>, m: &Metrics)
    requires
        m.wf(),
    ensures
        final(out)@ == old(out)@ + prom_quantile_lines_from(m@, spec_percentiles(m@.latency), 0),
{
    let pairs = m.response_time.get_percentile_map();
    let ghost ps = spec_percentiles(m@.latency);
    proof {
        assert(pair_views(pairs@) =~= ps);
    }
    let n = pairs.len();
    let mut k: usize = 0;
    while k < n
        invariant
            m.wf(),
            n == pairs@.len(),
            ps == spec_percentiles(m@.latency),
            ps.len() == n,
            0 <= k <= n,
            forall|j: int| 0 <= j < n ==> (#[trigger] ps[j]).0 == pairs@[j].0@ && ps[j].1
                == pairs@[j].1,
            old(out)@ + prom_quantile_lines_from(m@, ps, 0) == out@ + prom_quantile_lines_from(
                m@,
                ps,
                k as int,
            ),
        decreases n - k,
    {
        append_str(out, "quantiles");
        append_prom_labels(out, m);
        append_str(out, ",quantile=\"");
        append_bytes(out, &pairs[k].0);
        append_str(out, "\"} ");
        append_u64(out, pairs[k].1);
        append_str(out, "\n");
        proof {
            assert(prom_quantile_line(m@, ps[k as int]) == "quantiles".spec_bytes() + prom_labels(
                m@,
            ) + ",quantile=\"".spec_bytes() + pairs@[k as int].0@ + "\"} ".spec_bytes() + dec_u64(
                pairs@[k as int].1,
            ) + "\n".spec_bytes());
            assert(old(out)@ + prom_quantile_lines_from(m@, ps, 0) =~= out@
                + prom_quantile_lines_from(m@, ps, k + 1));
        }
        k = k + 1;
    }
}

/// Append one whole family's lines, preceded by its HELP and TYPE
/// comment lines; `which` 0 renders hits, 1 errors, 2 quantiles.
fn append_prom_family(out: &mut Vec<u8>, logger: &MetricsLogger, header: &str, which: u8)
    requires
        logger.wf(),
        which < 3,
    ensures
        final(out)@ == old(out)@ + header.spec_bytes() + prom_family_lines_from(
            logger@,
            which as int,
            0,
        ),
{
    let ghost s = logger@;
    append_str(out, header);
    let ghost mark = out@;
    let n = logger.registry.metrics.len();
    let mut i: usize = 0;
    while i < n
        invariant
            logger.wf(),
            s == logger@,
            n == logger.registry.metrics@.len(),
            s.len() == n,
            0 <= i <= n,
            which < 3,
            mark + prom_family_lines_from(s, which as int, 0) == out@ + prom_family_lines_from(
                s,
                which as int,
                i as int,
            ),
        decreases n - i,
    {
        let m = &logger.registry.metrics[i];
        assert(m.wf());
        assert(m@ == s[i as int]);
        if which == 0 {
            append_prom_counter_line(out, "hits", m, m.hits.get());
        } else if which == 1 {
            append_prom_counter_line(out, "errors", m, m.errors.get());
        } else {
            append_prom_quantile_lines(out, m);
        }
        proof {
            assert(mark + prom_family_lines_from(s, which as int, 0) =~= out@
                + prom_family_lines_from(s, which as int, i + 1));
        }
        i = i + 1;
    }
}

/// Render the whole registry in the plain-text exposition format.
pub fn render_prometheus_export(logger: &MetricsLogger) -> (r: Vec<u8>)
    requires
        logger.wf(),
    ensures
        r@ == render_prometheus(logger@),
{
    let mut out: Vec<u8> = Vec::new();
    append_prom_family(&mut out, logger, "# HELP hits hits counter\n# TYPE hits counter\n", 0);
    append_prom_family(
        &mut out,
        logger,
        "# HELP errors errors counter\n# TYPE errors counter\n",
        1,
    );
    append_prom_family(
        &mut out,
        logger,
        "# HELP quantiles quantiles counter\n# TYPE quantiles counter\n",
        2,
    );
    assert(out@ =~= render_prometheus(logger@));
    out
}

/// The structured export shows each record once, verbatim: the output
/// splits around the record's own JSON object, which carries its hit
/// and error counters digit for digit.
#[verifier::rlimit(90)]
pub proof fn lemma_json_row_embedded(s: Seq<MetricsModel>, j: int, i: int)
    requires
        0 <= j <= i < s.len(),
    ensures
        exists|pre: Seq<u8>, suf: Seq<u8>|
            json_rows_from(s, j) == pre + json_record(s[i]) + suf,
    decreases i - j,
{
    if j == i {
        if i == s.len() - 1 {
            assert(json_rows_from(s, j) =~= Seq::<u8>::empty() + json_record(s[i])
                + Seq::<u8>::empty());
        } else {
            assert(json_rows_from(s, j) =~= Seq::<u8>::empty() + json_record(s[i]) + (
            ",".spec_bytes() + json_rows_from(s, j + 1)));
        }
    } else {
        lemma_json_row_embedded(s, j + 1, i);
        let (pre, suf) = choose|pre: Seq<u8>, suf: Seq<u8>|
            json_rows_from(s, j + 1) == pre + json_record(s[i]) + suf;
        assert(json_rows_from(s, j) =~= (json_record(s[j]) + ",".spec_bytes() + pre) + json_record(
            s[i],
        ) + suf);
    }
}

/// The counter line a record contributes to one of the two plain
/// families: 0 for hits, 1 for errors.
pub open spec fn prom_line_of(which: int, m: MetricsModel) -> Seq<u8> {
    if which == 0 {
        prom_hits_line(m)
    } else {
        prom_errors_line(m)
    }
}

/// The text exposition shows each record's hits line and errors line
/// once, verbatim: each family's block splits around that record's
/// line, which ends in the counter's exact decimal value.
pub proof fn lemma_prom_line_embedded(s: Seq<MetricsModel>, which: int, j: int, i: int)
    requires
        0 <= j <= i < s.len(),
        0 <= which <= 1,
    ensures
        exists|pre: Seq<u8>, suf: Seq<u8>|
            prom_family_lines_from(s, which, j) == pre + prom_line_of(which, s[i]) + suf,
    decreases i - j,
{
    let line = prom_line_of(which, s[i]);
    if j == i {
        assert(prom_family_lines_from(s, which, j) =~= Seq::<u8>::empty() + line
            + prom_family_lines_from(s, which, j + 1));
    } else {
        lemma_prom_line_embedded(s, which, j + 1, i);
        let (pre, suf) = choose|pre: Seq<u8>, suf: Seq<u8>|
            prom_family_lines_from(s, which, j + 1) == pre + prom_line_of(which, s[i]) + suf;
        let head = prom_line_of(which, s[j]);
        assert(prom_family_lines_from(s, which, j) =~= (head + pre) + line + suf);
    }
}

/// The structured export embeds each record's JSON object verbatim.
#[verifier::rlimit(90)]
proof fn lemma_json_embed_full(s: Seq<MetricsModel>, i: int)
    requires
        0 <= i < s.len(),
    ensures
        exists|pre: Seq<u8>, suf: Seq<u8>| render_json(s) == pre + json_record(s[i]) + suf,
{
    lemma_json_row_embedded(s, 0, i);
    let (pre1, suf1) = choose|pre: Seq<u8>, suf: Seq<u8>|
        json_rows_from(s, 0) == pre + json_record(s[i]) + suf;
    assert(render_json(s) =~= ("[".spec_bytes() + pre1) + json_record(s[i]) + (suf1
        + "]".spec_bytes()));
}

/// Splitting a middle piece of a three-way concatenation.
proof fn lemma_split_extend(
    a: Seq<u8>,
    mid: Seq<u8>,
    b: Seq<u8>,
    pre: Seq<u8>,
    x: Seq<u8>,
    suf: Seq<u8>,
)
    requires
        mid == pre + x + suf,
    ensures
        a + mid + b == (a + pre) + x + (suf + b),
{
    assert(a + (pre + x + suf) + b =~= (a + pre) + x + (suf + b));
}

/// The text exposition embeds each record's hits or errors line
/// verbatim.
proof fn lemma_prom_embed_full(s: Seq<MetricsModel>, which: int, i: int)
    requires
        0 <= i < s.len(),
        0 <= which <= 1,
    ensures
        exists|pre: Seq<u8>, suf: Seq<u8>|
            render_prometheus(s) == pre + prom_line_of(which, s[i]) + suf,
{
    let h0 = "# HELP hits hits counter\n# TYPE hits counter\n".spec_bytes();
    let h1 = "# HELP errors errors counter\n# TYPE errors counter\n".spec_bytes();
    let h2 = "# HELP quantiles quantiles counter\n# TYPE quantiles counter\n".spec_bytes();
    let f0 = prom_family_lines_from(s, 0, 0);
    let f1 = prom_family_lines_from(s, 1, 0);
    let f2 = prom_family_lines_from(s, 2, 0);
    lemma_prom_line_embedded(s, which, 0, i);
    let (pre, suf) = choose|pre: Seq<u8>, suf: Seq<u8>|
        prom_family_lines_from(s, which, 0) == pre + prom_line_of(which, s[i]) + suf;
    if which == 0 {
        let b = h1 + f1 + h2 + f2;
        assert(render_prometheus(s) =~= h0 + f0 + b);
        lemma_split_extend(h0, f0, b, pre, prom_line_of(which, s[i]), suf);
        assert(render_prometheus(s) == (h0 + pre) + prom_line_of(which, s[i]) + (suf + b));
    } else {
        let a = h0 + f0 + h1;
        let b = h2 + f2;
        assert(render_prometheus(s) =~= a + f1 + b);
        lemma_split_extend(a, f1, b, pre, prom_line_of(which, s[i]), suf);
        assert(render_prometheus(s) == (a + pre) + prom_line_of(which, s[i]) + (suf + b));
    }
}

/// Export consistency: both export formats carry, for each record of
/// the registry, exactly that record's own counters — the structured
/// export embeds the record's JSON object (with its `hit_count` and
/// `error_count` digits), and the text exposition embeds its `hits`
/// and `errors` lines.
pub proof fn lemma_export_consistency(s: Seq<MetricsModel>, i: int)
    requires
        0 <= i < s.len(),
    ensures
        exists|pre: Seq<u8>, suf: Seq<u8>| render_json(s) == pre + json_record(s[i]) + suf,
        exists|pre: Seq<u8>, suf: Seq<u8>| render_prometheus(s) == pre + prom_hits_line(s[i]) + suf,
        exists|pre: Seq<u8>, suf: Seq<u8>|
            render_prometheus(s) == pre + prom_errors_line(s[i]) + suf,
{
    lemma_json_embed_full(s, i);
    lemma_prom_embed_full(s, 0, i);
    assert(prom_line_of(0, s[i]) == prom_hits_line(s[i]));
    let (pre2, suf2) = choose|pre: Seq<u8>, suf: Seq<u8>|
        render_prometheus(s) == pre + prom_line_of(0, s[i]) + suf;
    assert(render_prometheus(s) == pre2 + prom_hits_line(s[i]) + suf2);
    lemma_prom_embed_full(s, 1, i);
    assert(prom_line_of(1, s[i]) == prom_errors_line(s[i]));
    let (pre3, suf3) = choose|pre: Seq<u8>, suf: Seq<u8>|
        render_prometheus(s) == pre + prom_line_of(1, s[i]) + suf;
    assert(render_prometheus(s) == pre3 + prom_errors_line(s[i]) + suf3);
}

/// The metrics endpoints' outcome: `GET` of the `json` sub-route
/// answers the structured export, `GET` of the `prometheus` sub-route
/// the text exposition, anything else the unmatched-route response
/// naming the request's literal path.
pub open spec fn spec_metrics_api_outcome(
    model: Seq<MetricsModel>,
    route: HttpRoute,
    rest: Seq<Seq<u8>>,
    r: HttpResult,
) -> bool {
    if rest.len() == 1 && rest[0] == "json".spec_bytes() && route.method@ == "GET".spec_bytes() {
        r matches Ok(resp) && resp.spec_ok_response(
            route,
            Some("application/json".spec_bytes()),
            render_json(model),
        )
    } else if rest.len() == 1 && rest[0] == "prometheus".spec_bytes() && route.method@
        == "GET".spec_bytes() {
        r matches Ok(resp) && resp.spec_ok_response(route, None, render_prometheus(model))
    } else {
        r matches Ok(resp) && resp.spec_plain(404, "Not found: ".spec_bytes() + route.path@)
    }
}

impl MetricsLogger {
    /// The structured metrics export, as a JSON response.
    pub fn get_api_metrics_as_json(&self, route: &HttpRoute) -> (r: HttpResult)
        requires
            self.wf(),
        ensures
            r matches Ok(resp) && resp.spec_ok_response(
                *route,
                Some("application/json".spec_bytes()),
                render_json(self@),
            ),
    {
        let body = render_json_export(self);
        HttpResponse::json(route, body)
    }

    /// The text-exposition metrics export, as a plain response.
    pub fn get_api_metrics_for_prometheus(&self, route: &HttpRoute) -> (r: HttpResult)
        requires
            self.wf(),
        ensures
            r matches Ok(resp) && resp.spec_ok_response(*route, None, render_prometheus(self@)),
    {
        let body = render_prometheus_export(self);
        HttpResponse::ok(route, body)
    }

    /// The metrics sub-router: dispatch the remaining path segments to
    /// one of the two exports, or answer the unmatched-route response.
    /// Exporting reads the registry and never changes it.
    pub fn api_handler(&self, route: &HttpRoute, path: &Vec<Vec<u8>>) -> (r: HttpResult)
        requires
            self.wf(),
        ensures
            spec_metrics_api_outcome(
                self@,
                *route,
                crate::http_route::seg_views(path@),
                r,
            ),
    {
        if path.len() == 1 && crate::fmtutil::bytes_eq_str(&path[0], "json")
            && crate::fmtutil::bytes_eq_str(&route.method, "GET") {
            self.get_api_metrics_as_json(route)
        } else if path.len() == 1 && crate::fmtutil::bytes_eq_str(&path[0], "prometheus")
            && crate::fmtutil::bytes_eq_str(&route.method, "GET") {
            self.get_api_metrics_for_prometheus(route)
        } else {
            HttpResponse::not_found(&route.path)
        }
    }
}

} // verus!
