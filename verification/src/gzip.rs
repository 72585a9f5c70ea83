//! Gzip encoding of the rendered metrics text.

use deflate::write::GzEncoder;
use deflate::CompressionOptions;
use std::io::Write;
use vstd::prelude::*;

verus! {

/// The gzip encoding of `data`, as produced by the fixed fast-compression
/// preset used for metrics bodies.
pub uninterp spec fn gzip_of(data: Seq<u8>) -> Seq<u8>;

/// Relies on `deflate::write::GzEncoder` with `CompressionOptions::fast()`:
/// the encoder is deterministic, so for a fixed build the compressed bytes
/// are a function of the input bytes alone, and since it writes into a
/// `Vec<u8>`, whose writes cannot fail, encoding always succeeds.
#[verifier::external_body]
pub(crate) fn gzip_compress(data: &Vec<u8>) -> (r: Vec<u8>)
    ensures
        r@ == gzip_of(data@),
{
    let mut writer = GzEncoder::new(Vec::<u8>::new(), CompressionOptions::fast());
    writer
        .write_all(data)
        .and_then(|_| writer.finish())
        .expect("writing gzip output into a Vec cannot fail")
}

} // verus!
