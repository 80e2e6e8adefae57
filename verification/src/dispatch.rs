//! The request dispatcher: match the path's segments, in a fixed
//! order, to a built-in route or to the pluggable application
//! handler, run the built-in part, and finish every request by
//! stamping the elapsed time and feeding the metrics hook.
//!
//! The application handler itself is outside this library (it may
//! suspend arbitrarily); the dispatcher exposes the decision, the
//! host layer performs the delegated call, and `finish_request`
//! closes the loop over the outcome.

use vstd::prelude::*;
use vstd::string::StringSliceAdditionalSpecFns;
use crate::error::{ApiError, spec_error_body, spec_error_status};
use crate::export::spec_metrics_api_outcome;
use crate::fmtutil::{bytes_eq_str, copy_bytes};
use crate::health_check::{ServerFlags, get_in_rotation_status, oor_handler, spec_health_outcome,
    spec_oor_transition};
use crate::http_response::{HttpResponse, HttpResult};
use crate::http_route::{HttpRoute, seg_views};
use crate::metrics_logger::{MetricsLogger, log_step};

verus! {

/// Where a request goes: a built-in route, the application handler
/// with the remaining segments, or nowhere.
pub enum RouteDecision {
    /// The empty path under GET: the built-in index.
    Index,
    /// The rotation toggle endpoint.
    Oor,
    /// The health status endpoint.
    Health,
    /// The metrics sub-router, with the remaining segments.
    Metrics { rest: Vec<Vec<u8>> },
    /// The application handler, with the remaining segments.
    Api { rest: Vec<Vec<u8>> },
    /// No route matched.
    NotFound,
}

/// The mathematical view of a routing decision.
pub ghost enum DecisionModel {
    Index,
    Oor,
    Health,
    Metrics(Seq<Seq<u8>>),
    Api(Seq<Seq<u8>>),
    NotFound,
}

/// The view of an executable decision.
pub open spec fn decision_view(r: RouteDecision) -> DecisionModel {
    match r {
        RouteDecision::Index => DecisionModel::Index,
        RouteDecision::Oor => DecisionModel::Oor,
        RouteDecision::Health => DecisionModel::Health,
        RouteDecision::Metrics { rest } => DecisionModel::Metrics(seg_views(rest@)),
        RouteDecision::Api { rest } => DecisionModel::Api(seg_views(rest@)),
        RouteDecision::NotFound => DecisionModel::NotFound,
    }
}

/// The routing rule, in match order: the empty path under GET is the
/// index; `oor` under any method toggles rotation; `health` under GET
/// reports it; `metrics …` goes to the metrics sub-router; `api …` to
/// the application handler; anything else is unmatched.
pub open spec fn spec_decide(method: Seq<u8>, segs: Seq<Seq<u8>>) -> DecisionModel {
    if segs.len() == 0 {
        if method == "GET".spec_bytes() {
            DecisionModel::Index
        } else {
            DecisionModel::NotFound
        }
    } else if segs.len() == 1 && segs[0] == "oor".spec_bytes() {
        DecisionModel::Oor
    } else if segs.len() == 1 && segs[0] == "health".spec_bytes() && method == "GET".spec_bytes() {
        DecisionModel::Health
    } else if segs[0] == "metrics".spec_bytes() {
        DecisionModel::Metrics(segs.drop_first())
    } else if segs[0] == "api".spec_bytes() {
        DecisionModel::Api(segs.drop_first())
    } else {
        DecisionModel::NotFound
    }
}

/// Copy the segments after the first.
fn copy_tail(segs: &Vec<Vec<u8>>) -> (r: Vec<Vec<u8>>)
    requires
        segs@.len() >= 1,
    ensures
        seg_views(r@) == seg_views(segs@).drop_first(),
{
    let n = segs.len();
    let mut r: Vec<Vec<u8>> = Vec::new();
    let mut i: usize = 1;
    while i < n
        invariant
            n == segs@.len(),
            1 <= i <= n,
            r@.len() == i - 1,
            forall|j: int| 0 <= j < i - 1 ==> #[trigger] r@[j]@ == segs@[j + 1]@,
        decreases n - i,
    {
        r.push(copy_bytes(&segs[i]));
        i = i + 1;
    }
    assert(seg_views(r@) =~= seg_views(segs@).drop_first());
    r
}

/// Decide where a request goes, from its method and path segments.
pub fn decide_route(route: &HttpRoute) -> (r: RouteDecision)
    ensures
        decision_view(r) == spec_decide(route.method@, seg_views(route.segments@)),
{
    let n = route.segments.len();
    if n == 0 {
        if bytes_eq_str(&route.method, "GET") {
            RouteDecision::Index
        } else {
            RouteDecision::NotFound
        }
    } else if n == 1 && bytes_eq_str(&route.segments[0], "oor") {
        RouteDecision::Oor
    } else if n == 1 && bytes_eq_str(&route.segments[0], "health") && bytes_eq_str(
        &route.method,
        "GET",
    ) {
        RouteDecision::Health
    } else if bytes_eq_str(&route.segments[0], "metrics") {
        RouteDecision::Metrics { rest: copy_tail(&route.segments) }
    } else if bytes_eq_str(&route.segments[0], "api") {
        RouteDecision::Api { rest: copy_tail(&route.segments) }
    } else {
        RouteDecision::NotFound
    }
}

/// The built-in index route: a plain greeting.
pub fn index(route: &HttpRoute) -> (r: HttpResult)
    ensures
        r matches Ok(resp) && resp.spec_ok_response(*route, None, "Hello, World!".spec_bytes()),
{
    HttpResponse::str(route, "Hello, World!")
}

/// Run the built-in part of a routing decision: every decision but
/// the application delegation produces a response here; delegation
/// returns `None` and is the host layer's to perform. Only the
/// rotation toggle changes any state.
pub fn handle_builtin(
    route: &HttpRoute,
    decision: RouteDecision,
    flags: &mut ServerFlags,
    logger: &MetricsLogger,
) -> (r: Option<HttpResult>)
    requires
        logger.wf(),
    ensures
        (decision_view(decision) == DecisionModel::Index ==> *final(flags) == *old(flags) && (
        r matches Some(h) && (h matches Ok(resp) && resp.spec_ok_response(
            *route,
            None,
            "Hello, World!".spec_bytes(),
        )))),
        (decision_view(decision) == DecisionModel::Oor ==> (r matches Some(h)
            && spec_oor_transition(*route, *old(flags), *final(flags), h))),
        (decision_view(decision) == DecisionModel::Health ==> *final(flags) == *old(flags) && (
        r matches Some(h) && spec_health_outcome(*route, *final(flags), h))),
        (decision_view(decision) matches DecisionModel::Metrics(rest) ==> *final(flags) == *old(
            flags,
        ) && (r matches Some(h) && spec_metrics_api_outcome(logger@, *route, rest, h))),
        (decision_view(decision) matches DecisionModel::Api(_) ==> *final(flags) == *old(flags)
            && r is None),
        (decision_view(decision) == DecisionModel::NotFound ==> *final(flags) == *old(flags) && (
        r matches Some(h) && (h matches Ok(resp) && resp.spec_plain(
            404,
            "Not found: ".spec_bytes() + route.path@,
        )))),
{
    match decision {
        RouteDecision::Index => Some(index(route)),
        RouteDecision::Oor => Some(oor_handler(route, flags)),
        RouteDecision::Health => Some(get_in_rotation_status(route, flags)),
        RouteDecision::Metrics { rest } => Some(logger.api_handler(route, &rest)),
        RouteDecision::Api { rest: _ } => None,
        RouteDecision::NotFound => Some(HttpResponse::not_found(&route.path)),
    }
}

/// Close a finished request: turn a typed failure into its one
/// response, stamp the elapsed-time header on a successful outcome
/// when asked to, and unconditionally feed the metrics hook with the
/// final status — instrumentation does not depend on the response
/// being successful.
pub fn finish_request(
    route: &HttpRoute,
    outcome: HttpResult,
    logger: &mut MetricsLogger,
    elapsed_ms: u64,
    stamp_time: bool,
) -> (r: HttpResult)
    requires
        old(logger).wf(),
    ensures
        final(logger).wf(),
        (outcome matches Ok(o) ==> (r matches Ok(resp) && resp.status == o.status && resp.body
            == o.body && resp.content_type == o.content_type && resp.content_encoding
            == o.content_encoding && resp.time_taken_ms == (if stamp_time {
            Some(elapsed_ms)
        } else {
            o.time_taken_ms
        }))),
        (outcome matches Err(e) ==> (r matches Ok(resp) && resp.spec_plain(
            spec_error_status(e),
            spec_error_body(e),
        ))),
        (outcome matches Ok(o) ==> final(logger)@ == log_step(
            old(logger)@,
            route.spec_metric_path(),
            route.method@,
            o.status,
            elapsed_ms,
        )),
        (outcome matches Err(e) ==> final(logger)@ == log_step(
            old(logger)@,
            route.spec_metric_path(),
            route.method@,
            spec_error_status(e),
            elapsed_ms,
        )),
{
    let resp = match outcome {
        Ok(o) => if stamp_time {
            o.with_time_taken(elapsed_ms)
        } else {
            o
        },
        Err(e) => e.into_response(),
    };
    logger.log(route, resp.status, elapsed_ms);
    Ok(resp)
}

/// The metrics/access hook as the dispatcher invokes it on its own:
/// a determinate successful outcome is recorded under its status; a
/// typed failure that was not converted to a response is not.
pub fn log(route: &HttpRoute, response: &HttpResult, logger: &mut MetricsLogger, elapsed_ms: u64)
    requires
        old(logger).wf(),
    ensures
        final(logger).wf(),
        (response matches Ok(o) ==> final(logger)@ == log_step(
            old(logger)@,
            route.spec_metric_path(),
            route.method@,
            o.status,
            elapsed_ms,
        )),
        (response is Err ==> final(logger)@ == old(logger)@),
{
    match response {
        Ok(o) => logger.log(route, o.status, elapsed_ms),
        Err(_) => (),
    }
}

} // verus!
