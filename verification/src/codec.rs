//! The streaming compression codec, reduced to plain values: encode
//! or decode a whole body held in memory, for each of the three
//! supported codings.
//!
//! The compressors themselves are an outside library; each call sits
//! behind one trusted wrapper whose contract names the coding's
//! compressed form and its inverse. Everything that chooses a coding
//! or reacts to a decoder's verdict is verified code.

use vstd::prelude::*;
use crate::encoding::Encoding;

verus! {

/// The gzip coding of a byte string.
pub uninterp spec fn gzip_compressed(b: Seq<u8>) -> Seq<u8>;

/// What the gzip decoder yields on a byte string: the recovered bytes,
/// or nothing when the input is not well-formed gzip data.
pub uninterp spec fn gzip_extracted(b: Seq<u8>) -> Option<Seq<u8>>;

/// The brotli coding of a byte string.
pub uninterp spec fn brotli_compressed(b: Seq<u8>) -> Seq<u8>;

/// What the brotli decoder yields on a byte string.
pub uninterp spec fn brotli_extracted(b: Seq<u8>) -> Option<Seq<u8>>;

/// The deflate (zlib) coding of a byte string.
pub uninterp spec fn deflate_compressed(b: Seq<u8>) -> Seq<u8>;

/// What the deflate decoder yields on a byte string.
pub uninterp spec fn deflate_extracted(b: Seq<u8>) -> Option<Seq<u8>>;

/// Relies on `async_compression::tokio::bufread::GzipEncoder` read to
/// the end over an in-memory buffer: the compressed form depends on
/// the input bytes alone, and the paired decoder recovers them — the
/// defining property of the lossless coding the library documents.
#[verifier::external_body]
fn gzip_encode_bytes(data: &Vec<u8>) -> (r: Vec<u8>)
    ensures
        r@ == gzip_compressed(data@),
        gzip_extracted(r@) == Some(data@),
{
    let mut enc = async_compression::tokio::bufread::GzipEncoder::new(data.as_slice());
    let mut out: Vec<u8> = Vec::new();
    futures::executor::block_on(tokio::io::AsyncReadExt::read_to_end(&mut enc, &mut out)).unwrap();
    out
}

/// Relies on `async_compression::tokio::bufread::GzipDecoder` read to
/// the end over an in-memory buffer: whether it fails, and what it
/// yields, depend on the input bytes alone.
#[verifier::external_body]
fn gzip_decode_bytes(data: &Vec<u8>) -> (r: Option<Vec<u8>>)
    ensures
        r is Some <==> gzip_extracted(data@) is Some,
        r matches Some(v) ==> Some(v@) == gzip_extracted(data@),
{
    let mut dec = async_compression::tokio::bufread::GzipDecoder::new(data.as_slice());
    let mut out: Vec<u8> = Vec::new();
    match futures::executor::block_on(tokio::io::AsyncReadExt::read_to_end(&mut dec, &mut out)) {
        Ok(_) => Some(out),
        Err(_) => None,
    }
}

/// Relies on `async_compression::tokio::bufread::BrotliEncoder`, as
/// the gzip wrapper does on its encoder.
#[verifier::external_body]
fn brotli_encode_bytes(data: &Vec<u8>) -> (r: Vec<u8>)
    ensures
        r@ == brotli_compressed(data@),
        brotli_extracted(r@) == Some(data@),
{
    let mut enc = async_compression::tokio::bufread::BrotliEncoder::new(data.as_slice());
    let mut out: Vec<u8> = Vec::new();
    futures::executor::block_on(tokio::io::AsyncReadExt::read_to_end(&mut enc, &mut out)).unwrap();
    out
}

/// Relies on `async_compression::tokio::bufread::BrotliDecoder`, as
/// the gzip wrapper does on its decoder.
#[verifier::external_body]
fn brotli_decode_bytes(data: &Vec<u8>) -> (r: Option<Vec<u8>>)
    ensures
        r is Some <==> brotli_extracted(data@) is Some,
        r matches Some(v) ==> Some(v@) == brotli_extracted(data@),
{
    let mut dec = async_compression::tokio::bufread::BrotliDecoder::new(data.as_slice());
    let mut out: Vec<u8> = Vec::new();
    match futures::executor::block_on(tokio::io::AsyncReadExt::read_to_end(&mut dec, &mut out)) {
        Ok(_) => Some(out),
        Err(_) => None,
    }
}

/// Relies on `async_compression::tokio::bufread::DeflateEncoder`, as
/// the gzip wrapper does on its encoder.
#[verifier::external_body]
fn deflate_encode_bytes(data: &Vec<u8>) -> (r: Vec<u8>)
    ensures
        r@ == deflate_compressed(data@),
        deflate_extracted(r@) == Some(data@),
{
    let mut enc = async_compression::tokio::bufread::DeflateEncoder::new(data.as_slice());
    let mut out: Vec<u8> = Vec::new();
    futures::executor::block_on(tokio::io::AsyncReadExt::read_to_end(&mut enc, &mut out)).unwrap();
    out
}

/// Relies on `async_compression::tokio::bufread::DeflateDecoder`, as
/// the gzip wrapper does on its decoder.
#[verifier::external_body]
fn deflate_decode_bytes(data: &Vec<u8>) -> (r: Option<Vec<u8>>)
    ensures
        r is Some <==> deflate_extracted(data@) is Some,
        r matches Some(v) ==> Some(v@) == deflate_extracted(data@),
{
    let mut dec = async_compression::tokio::bufread::DeflateDecoder::new(data.as_slice());
    let mut out: Vec<u8> = Vec::new();
    match futures::executor::block_on(tokio::io::AsyncReadExt::read_to_end(&mut dec, &mut out)) {
        Ok(_) => Some(out),
        Err(_) => None,
    }
}

/// A body encoded with the given coding.
pub open spec fn encoded_with(enc: Encoding, b: Seq<u8>) -> Seq<u8> {
    match enc {
        Encoding::Brotli => brotli_compressed(b),
        Encoding::Gzip => gzip_compressed(b),
        Encoding::Deflate => deflate_compressed(b),
    }
}

/// What the given coding's decoder yields on a body.
pub open spec fn decoded_with(enc: Encoding, b: Seq<u8>) -> Option<Seq<u8>> {
    match enc {
        Encoding::Brotli => brotli_extracted(b),
        Encoding::Gzip => gzip_extracted(b),
        Encoding::Deflate => deflate_extracted(b),
    }
}

/// Encode a whole body with the given coding. Decoding the result
/// with the same coding recovers the body exactly.
pub fn encode_body(enc: Encoding, body: &Vec<u8>) -> (r: Vec<u8>)
    ensures
        r@ == encoded_with(enc, body@),
        decoded_with(enc, r@) == Some(body@),
{
    match enc {
        Encoding::Brotli => brotli_encode_bytes(body),
        Encoding::Gzip => gzip_encode_bytes(body),
        Encoding::Deflate => deflate_encode_bytes(body),
    }
}

/// Decode a whole body with the given coding; `None` exactly when the
/// bytes are not well-formed data of that coding.
pub fn decode_body(enc: Encoding, body: &Vec<u8>) -> (r: Option<Vec<u8>>)
    ensures
        r is Some <==> decoded_with(enc, body@) is Some,
        r matches Some(v) ==> Some(v@) == decoded_with(enc, body@),
{
    match enc {
        Encoding::Brotli => brotli_decode_bytes(body),
        Encoding::Gzip => gzip_decode_bytes(body),
        Encoding::Deflate => deflate_decode_bytes(body),
    }
}

} // verus!
