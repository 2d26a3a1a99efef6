use vstd::prelude::*;

use flate2::read::ZlibDecoder;
use flate2::write::ZlibEncoder;
use flate2::Compression;
use std::io::Read;
use std::io::Write;

use crate::errors::ErrorCode;

verus! {

/// The zlib stream that flate2 produces for `data` at the default level.
pub uninterp spec fn zlib_of(data: Seq<u8>) -> Seq<u8>;

/// Relies on flate2's `ZlibEncoder` (`new` at `Compression::default()`,
/// `write_all`, `finish`) over an in-memory buffer: the buffer ends up
/// holding the zlib stream of `data`, which depends on `data` alone. It
/// always succeeds: writes into a `Vec` never fail, and the compressor only
/// fails on bad parameters or a misused stream, neither possible here.
#[verifier::external_body]
fn zlib_compress(data: &Vec<u8>) -> (r: Option<Vec<u8>>)
    ensures
        r is Some,
        r matches Some(c) ==> c@ == zlib_of(data@),
{
    let mut encoder = ZlibEncoder::new(Vec::new(), Compression::default());
    match encoder.write_all(data) {
        Ok(()) => encoder.finish().ok(),
        Err(_) => None,
    }
}

/// What flate2's zlib decoder makes of `data`: the decoded bytes, or `None`
/// where `data` does not start with a complete, well-formed zlib stream.
pub uninterp spec fn zlib_decoded(data: Seq<u8>) -> Option<Seq<u8>>;

/// Relies on flate2's `read::ZlibDecoder` (`new`, then `read_to_end`) over an
/// in-memory slice: it yields the decoded stream, or fails on a truncated or
/// corrupt one; either outcome depends on `data` alone.
#[verifier::external_body]
fn zlib_decompress(data: &Vec<u8>) -> (r: Option<Vec<u8>>)
    ensures
        match r {
            Some(d) => zlib_decoded(data@) == Some(d@),
            None => zlib_decoded(data@) is None,
        },
{
    let mut decoder = ZlibDecoder::new(&data[..]);
    let mut out: Vec<u8> = Vec::new();
    match decoder.read_to_end(&mut out) {
        Ok(_) => Some(out),
        Err(_) => None,
    }
}

/// Compresses a proof for storage into its zlib stream.
pub fn compress_proof(proof: Vec<u8>) -> (r: Result<Vec<u8>, ErrorCode>)
    ensures
        r is Ok,
        r matches Ok(c) ==> c@ == zlib_of(proof@),
        r matches Err(e) ==> e == ErrorCode::CompressionError,
{
    match zlib_compress(&proof) {
        Some(compressed_data) => Ok(compressed_data),
        None => Err(ErrorCode::CompressionError),
    }
}

/// Decompresses a stored proof. A stream that is not valid zlib is refused
/// with `CompressionError`.
pub fn decompress_proof(compressed: Vec<u8>) -> (r: Result<Vec<u8>, ErrorCode>)
    ensures
        match zlib_decoded(compressed@) {
            Some(d) => r matches Ok(v) && v@ == d,
            None => r == Err::<Vec<u8>, ErrorCode>(ErrorCode::CompressionError),
        },
{
    match zlib_decompress(&compressed) {
        Some(data) => Ok(data),
        None => Err(ErrorCode::CompressionError),
    }
}

} // verus!
