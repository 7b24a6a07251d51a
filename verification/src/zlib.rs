//! The compression layer: named results for zlib's two directions, and the
//! trusted wrappers around flate2 that every compression call goes through.
use vstd::prelude::*;
use flate2::read::ZlibDecoder;
use flate2::write::ZlibEncoder;
use flate2::Compression;
use std::io::Read;
use std::io::Write;

verus! {

/// The bytes that one zlib compression pass at the default level produces
/// from `data`: a function of the input alone.
pub uninterp spec fn zlib_deflate(data: Seq<u8>) -> Seq<u8>;

/// The bytes that one zlib decompression pass recovers from `data`, or
/// `None` when `data` is not a well-formed zlib stream: a function of the
/// input alone.
pub uninterp spec fn zlib_inflate(data: Seq<u8>) -> Option<Seq<u8>>;

/// Relies on flate2's `ZlibEncoder` over a `Vec` at `Compression::default()`:
/// the compressed stream is deterministic for a given input, and
/// `ZlibDecoder` recovers exactly the input from it. Compressing into
/// memory cannot fail: a `Vec` writer never errors, and the deflate
/// backend errors only on parameters flate2 does not pass.
#[verifier::external_body]
pub(crate) fn zlib_compress(data: &Vec<u8>) -> (r: Vec<u8>)
    ensures
        r@ == zlib_deflate(data@),
        zlib_inflate(r@) == Some(data@),
{
    let mut encoder = ZlibEncoder::new(Vec::new(), Compression::default());
    encoder
        .write_all(&data[..])
        .and_then(|_| encoder.finish())
        .expect("compressing into a Vec cannot fail")
}

/// Relies on flate2's `ZlibDecoder`: reading to end yields the full
/// decompression of the input, deterministically; a malformed stream
/// gives an error.
#[verifier::external_body]
pub(crate) fn zlib_decompress(data: &Vec<u8>) -> (r: Option<Vec<u8>>)
    ensures
        match r {
            Some(v) => zlib_inflate(data@) == Some(v@),
            None => zlib_inflate(data@) is None,
        },
{
    let mut decoder = ZlibDecoder::new(&data[..]);
    let mut out = Vec::new();
    match decoder.read_to_end(&mut out) {
        Ok(_) => Some(out),
        Err(_) => None,
    }
}

} // verus!
