//! The per-request context: method, path and its segments, query,
//! declared and negotiated content codings, and the optional metric
//! path override.
//!
//! The context is derived once from plain header values: the path is
//! split on `/` into its non-empty segments, `Content-Encoding` is
//! kept verbatim but lower-cased, and `Accept-Encoding` is resolved
//! to one supported coding by the priority-ordered substring scan.

use vstd::prelude::*;
use crate::encoding::{Encoding, lower_bytes, spec_negotiate, negotiate_accept_encoding,
    to_ascii_lower};

verus! {

/// The first index at or after `i` holding a `/`, or the length when
/// none follows.
pub open spec fn seg_end(s: Seq<u8>, i: int) -> int
    decreases s.len() - i,
{
    if i < 0 || i >= s.len() {
        s.len() as int
    } else if s[i] == 47 {
        i
    } else {
        seg_end(s, i + 1)
    }
}

pub proof fn lemma_seg_end_bounds(s: Seq<u8>, i: int)
    requires
        0 <= i <= s.len(),
    ensures
        i <= seg_end(s, i) <= s.len(),
        i < s.len() && s[i] != 47 ==> i < seg_end(s, i),
    decreases s.len() - i,
{
    if i < s.len() && s[i] != 47 {
        lemma_seg_end_bounds(s, i + 1);
    }
}

/// `seg_end` is exactly the end of the slash-free run starting at `i`.
pub proof fn lemma_seg_end_char(s: Seq<u8>, i: int, j: int)
    requires
        0 <= i <= j <= s.len(),
        forall|k: int| i <= k < j ==> s[k] != 47,
        j == s.len() || s[j] == 47,
    ensures
        seg_end(s, i) == j,
    decreases j - i,
{
    if i < j {
        lemma_seg_end_char(s, i + 1, j);
    }
}

#[via_fn]
proof fn split_from_decreases(s: Seq<u8>, i: int) {
    lemma_seg_end_bounds(s, i);
}

/// The non-empty `/`-separated segments of `s` from index `i` on.
pub open spec fn split_from(s: Seq<u8>, i: int) -> Seq<Seq<u8>>
    decreases s.len() - i,
    when 0 <= i <= s.len()
    via split_from_decreases
{
    if i >= s.len() {
        Seq::empty()
    } else if s[i] == 47 {
        split_from(s, i + 1)
    } else {
        seq![s.subrange(i, seg_end(s, i))] + split_from(s, seg_end(s, i))
    }
}

/// The non-empty `/`-separated segments of a path.
pub open spec fn spec_segments(s: Seq<u8>) -> Seq<Seq<u8>> {
    split_from(s, 0)
}

/// The views of a vector of byte segments.
pub open spec fn seg_views(segs: Seq<Vec<u8>>) -> Seq<Seq<u8>> {
    segs.map_values(|v: Vec<u8>| v@)
}

/// Split a path into its non-empty `/`-separated segments.
pub fn split_path(path: &Vec<u8>) -> (r: Vec<Vec<u8>>)
    ensures
        seg_views(r@) == spec_segments(path@),
{
    let ghost s = path@;
    let n = path.len();
    let mut segs: Vec<Vec<u8>> = Vec::new();
    let mut i: usize = 0;
    assert(seg_views(segs@) + split_from(s, 0) =~= split_from(s, 0));
    while i < n
        invariant
            n == s.len(),
            s == path@,
            0 <= i <= n,
            spec_segments(s) == seg_views(segs@) + split_from(s, i as int),
        decreases n - i,
    {
        if path[i] == 47 {
            i = i + 1;
        } else {
            let ghost start = i as int;
            let mut cur: Vec<u8> = Vec::new();
            let mut j: usize = i;
            assert(cur@ =~= s.subrange(start, start));
            while j < n && path[j] != 47
                invariant
                    n == s.len(),
                    s == path@,
                    0 <= start <= j <= n,
                    start == i,
                    forall|k: int| start <= k < j ==> s[k] != 47,
                    cur@ == s.subrange(start, j as int),
                decreases n - j,
            {
                let b = path[j];
                cur.push(b);
                assert(cur@ =~= s.subrange(start, j + 1));
                j = j + 1;
            }
            proof {
                lemma_seg_end_char(s, start, j as int);
            }
            assert(split_from(s, start) == seq![s.subrange(start, j as int)] + split_from(
                s,
                j as int,
            ));
            segs.push(cur);
            proof {
                assert(seg_views(segs@) =~= seg_views(segs@.drop_last()).push(cur@));
                assert(spec_segments(s) =~= seg_views(segs@) + split_from(s, j as int));
            }
            i = j;
        }
    }
    assert(split_from(s, n as int) =~= Seq::<Seq<u8>>::empty());
    assert(spec_segments(s) =~= seg_views(segs@));
    segs
}

/// An immutable per-request view, derived once from the inbound
/// request's plain values and dropped when the request ends.
pub struct HttpRoute {
    /// The request method's token, e.g. `GET`.
    pub method: Vec<u8>,
    /// The full request path, verbatim.
    pub path: Vec<u8>,
    /// The raw query string, when one was present.
    pub query: Option<Vec<u8>>,
    /// The non-empty `/`-separated segments of the path.
    pub segments: Vec<Vec<u8>>,
    /// The declared request body coding, lower-cased, when present.
    pub content_encoding: Option<Vec<u8>>,
    /// The response coding negotiated from `Accept-Encoding`.
    pub accept_encoding: Option<Encoding>,
    /// A templated path a handler may report in place of the literal
    /// one, to bound the metric key space (e.g. `/users/:id`).
    pub metric_path: Option<Vec<u8>>,
    /// The peer's address, as text.
    pub remote_addr: Vec<u8>,
    /// The request's arrival wall-clock time, in epoch milliseconds.
    pub req_time_epoch_ms: u64,
}

impl HttpRoute {
    /// The path this request reports to the metric registry: the
    /// handler's override when set, else the literal path.
    pub open spec fn spec_metric_path(self) -> Seq<u8> {
        match self.metric_path {
            Some(p) => p@,
            None => self.path@,
        }
    }

    /// The context's structural invariant: the segments are exactly
    /// the path's non-empty `/`-separated segments.
    pub open spec fn wf(self) -> bool {
        seg_views(self.segments@) == spec_segments(self.path@)
    }

    /// Derive a request context from the inbound request's plain
    /// values. Absent headers yield `None` fields; no input is
    /// rejected.
    pub fn new(
        method: Vec<u8>,
        path: Vec<u8>,
        query: Option<Vec<u8>>,
        content_encoding: Option<Vec<u8>>,
        accept_encoding: Option<Vec<u8>>,
        remote_addr: Vec<u8>,
        req_time_epoch_ms: u64,
    ) -> (r: HttpRoute)
        ensures
            r.wf(),
            r.method == method,
            r.path == path,
            r.query == query,
            seg_views(r.segments@) == spec_segments(path@),
            (match content_encoding {
                Some(h) => r.content_encoding matches Some(c) && c@ == lower_bytes(h@),
                None => r.content_encoding is None,
            }),
            (match accept_encoding {
                Some(h) => r.accept_encoding == spec_negotiate(lower_bytes(h@)),
                None => r.accept_encoding is None,
            }),
            r.metric_path is None,
            r.remote_addr == remote_addr,
            r.req_time_epoch_ms == req_time_epoch_ms,
    {
        let segments = split_path(&path);
        let lowered_content = match &content_encoding {
            Some(h) => Some(to_ascii_lower(h)),
            None => None,
        };
        let negotiated = match &accept_encoding {
            Some(h) => negotiate_accept_encoding(h),
            None => None,
        };
        HttpRoute {
            method,
            path,
            query,
            segments,
            content_encoding: lowered_content,
            accept_encoding: negotiated,
            metric_path: None,
            remote_addr,
            req_time_epoch_ms,
        }
    }
}

} // verus!
