//! Content-coding tokens and Accept-Encoding negotiation.
//!
//! A request may declare its body's coding in `Content-Encoding`
//! (matched exactly, after ASCII lower-casing) and the codings it
//! accepts in `Accept-Encoding`. Negotiation scans the lower-cased
//! raw header for the first of the supported tokens in the fixed
//! priority order brotli, gzip, deflate — a deliberate substring
//! scan, not a structured quality-value parse.

use vstd::prelude::*;
use vstd::string::StringSliceAdditionalSpecFns;

verus! {

/// One of the supported content codings.
#[derive(Clone, Copy, Debug, PartialEq, Eq, Structural)]
pub enum Encoding {
    Brotli,
    Gzip,
    Deflate,
}

impl Encoding {
    /// The header token naming this coding.
    pub open spec fn spec_token(self) -> Seq<u8> {
        match self {
            Encoding::Brotli => "br".spec_bytes(),
            Encoding::Gzip => "gzip".spec_bytes(),
            Encoding::Deflate => "deflate".spec_bytes(),
        }
    }

    /// The header token naming this coding.
    pub fn token(self) -> (r: &'static str)
        ensures
            r.spec_bytes() == self.spec_token(),
    {
        match self {
            Encoding::Brotli => "br",
            Encoding::Gzip => "gzip",
            Encoding::Deflate => "deflate",
        }
    }
}

/// `b` with an ASCII upper-case letter turned lower-case.
pub open spec fn lower_byte(b: u8) -> u8 {
    if 65 <= b <= 90 {
        (b + 32) as u8
    } else {
        b
    }
}

/// `s` lower-cased byte by byte.
pub open spec fn lower_bytes(s: Seq<u8>) -> Seq<u8> {
    s.map(|_i: int, b: u8| lower_byte(b))
}

/// Lower-case an ASCII byte string.
pub fn to_ascii_lower(v: &Vec<u8>) -> (r: Vec<u8>)
    ensures
        r@ == lower_bytes(v@),
{
    let n = v.len();
    let mut r: Vec<u8> = Vec::new();
    let mut i: usize = 0;
    while i < n
        invariant
            n == v@.len(),
            0 <= i <= n,
            r@.len() == i,
            forall|j: int| 0 <= j < i ==> r@[j] == lower_byte(v@[j]),
        decreases n - i,
    {
        let b = v[i];
        if 65 <= b && b <= 90 {
            r.push(b + 32);
        } else {
            r.push(b);
        }
        i = i + 1;
    }
    assert(r@ =~= lower_bytes(v@));
    r
}

/// Whether `tok` occurs as a contiguous run inside `hay`.
pub open spec fn contains_token(hay: Seq<u8>, tok: Seq<u8>) -> bool {
    exists|j: int|
        0 <= j && j + tok.len() <= hay.len() && #[trigger] hay.subrange(j, j + tok.len()) == tok
}

/// Relies on `twoway::find_bytes`: it returns the index of the first
/// occurrence of `pattern` in `text`, or `None` when `pattern` occurs
/// nowhere in `text` (an empty pattern occurs at index 0).
#[verifier::external_body]
fn find_bytes_first(text: &[u8], pattern: &[u8]) -> (r: Option<usize>)
    ensures
        match r {
            Some(i) => i + pattern@.len() <= text@.len() && text@.subrange(
                i as int,
                i + pattern@.len(),
            ) == pattern@ && forall|j: int|
                0 <= j < i ==> #[trigger] text@.subrange(j, j + pattern@.len()) != pattern@,
            None => forall|j: int|
                0 <= j && j + pattern@.len() <= text@.len() ==> #[trigger] text@.subrange(
                    j,
                    j + pattern@.len(),
                ) != pattern@,
        },
{
    twoway::find_bytes(text, pattern)
}

/// Whether `tok` occurs inside `hay`, by the first-occurrence search.
fn contains_bytes(hay: &Vec<u8>, tok: &str) -> (r: bool)
    ensures
        r == contains_token(hay@, tok.spec_bytes()),
{
    match find_bytes_first(hay.as_slice(), tok.as_bytes()) {
        Some(i) => {
            assert(contains_token(hay@, tok.spec_bytes())) by {
                assert(hay@.subrange(i as int, i + tok.spec_bytes().len())
                    == tok.spec_bytes());
            }
            true
        },
        None => false,
    }
}

/// The coding selected from a lower-cased `Accept-Encoding` value:
/// the first supported token that occurs in it, tried in the priority
/// order brotli, gzip, deflate.
pub open spec fn spec_negotiate(lowered: Seq<u8>) -> Option<Encoding> {
    if contains_token(lowered, Encoding::Brotli.spec_token()) {
        Some(Encoding::Brotli)
    } else if contains_token(lowered, Encoding::Gzip.spec_token()) {
        Some(Encoding::Gzip)
    } else if contains_token(lowered, Encoding::Deflate.spec_token()) {
        Some(Encoding::Deflate)
    } else {
        None
    }
}

/// Select a response coding from a raw `Accept-Encoding` header value.
pub fn negotiate_accept_encoding(header: &Vec<u8>) -> (r: Option<Encoding>)
    ensures
        r == spec_negotiate(lower_bytes(header@)),
{
    let lowered = to_ascii_lower(header);
    if contains_bytes(&lowered, "br") {
        Some(Encoding::Brotli)
    } else if contains_bytes(&lowered, "gzip") {
        Some(Encoding::Gzip)
    } else if contains_bytes(&lowered, "deflate") {
        Some(Encoding::Deflate)
    } else {
        None
    }
}

/// The declared `Content-Encoding` recognised from a lower-cased
/// header value: an exact match of one supported token, anything else
/// meaning an identity (pass-through) body.
pub open spec fn spec_content_encoding(lowered: Seq<u8>) -> Option<Encoding> {
    if lowered == Encoding::Brotli.spec_token() {
        Some(Encoding::Brotli)
    } else if lowered == Encoding::Gzip.spec_token() {
        Some(Encoding::Gzip)
    } else if lowered == Encoding::Deflate.spec_token() {
        Some(Encoding::Deflate)
    } else {
        None
    }
}

/// Recognise a declared content coding from an already lower-cased
/// `Content-Encoding` value.
pub fn recognise_content_encoding(lowered: &Vec<u8>) -> (r: Option<Encoding>)
    ensures
        r == spec_content_encoding(lowered@),
{
    if crate::fmtutil::bytes_eq_str(lowered, "br") {
        Some(Encoding::Brotli)
    } else if crate::fmtutil::bytes_eq_str(lowered, "gzip") {
        Some(Encoding::Gzip)
    } else if crate::fmtutil::bytes_eq_str(lowered, "deflate") {
        Some(Encoding::Deflate)
    } else {
        None
    }
}

} // verus!
