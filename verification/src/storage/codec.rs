//! The compression that every stored object goes through.

use vstd::prelude::*;
use flate2::read::ZlibDecoder;
use flate2::write::ZlibEncoder;
use flate2::Compression;
use std::io::Read;
use std::io::Write;

verus! {

/// The zlib stream that the encoder of `flate2` writes for `data` at its
/// default compression level; `None` where the encoder reports an error.
pub uninterp spec fn zlib_compressed(data: Seq<u8>) -> Option<Seq<u8>>;

/// What the decoder of `flate2` reads out of `bytes` up to the end of the
/// stream; `None` where the decoder reports an error.
pub uninterp spec fn zlib_inflated(bytes: Seq<u8>) -> Option<Seq<u8>>;

/// Compresses `data` into a zlib stream.
///
/// Runs `flate2::write::ZlibEncoder` at the default level over a `Vec` and
/// hands out what `finish` returns, or `None` where the encoder reports an
/// error. What comes back depends on `data` alone, and the decoder reads
/// `data` back out of a stream that the encoder wrote: compression is
/// lossless.
#[verifier::external_body]
pub(crate) fn zlib_compress(data: &[u8]) -> (stream: Option<Vec<u8>>)
    ensures
        zlib_compressed(data@) == match stream {
            Some(bytes) => Some(bytes@),
            None => None,
        },
        stream matches Some(bytes) ==> zlib_inflated(bytes@) == Some(data@),
{
    let mut encoder = ZlibEncoder::new(Vec::new(), Compression::default());
    match encoder.write_all(data) {
        Ok(()) => encoder.finish().ok(),
        Err(_) => None,
    }
}

/// Reads the payload out of a zlib stream.
///
/// Runs `flate2::read::ZlibDecoder` over `bytes` to its end and hands out
/// all that it read, or `None` where the decoder reports an error.
#[verifier::external_body]
pub(crate) fn zlib_decompress(bytes: &[u8]) -> (payload: Option<Vec<u8>>)
    ensures
        zlib_inflated(bytes@) == match payload {
            Some(data) => Some(data@),
            None => None,
        },
{
    let mut decoder = ZlibDecoder::new(bytes);
    let mut data = Vec::new();
    match decoder.read_to_end(&mut data) {
        Ok(_) => Some(data),
        Err(_) => None,
    }
}

} // verus!
