use vstd::prelude::*;
use std::io::Write;

verus! {

/// The gzip stream that the engine produces for `data` at `level`.
///
/// For a fixed level the stream is a function of the input bytes alone: the
/// engine writes a zero modification time and a fixed operating-system byte
/// into the header, so repeated calls with identical input and level yield
/// byte-identical output.  Nothing more is assumed of the stream's shape.
pub uninterp spec fn gzip_of(data: Seq<u8>, level: u32) -> Seq<u8>;

/// The compression engine is deterministic: two outcomes of compressing the
/// same bytes at the same level are byte-identical.
pub proof fn lemma_engine_deterministic(data: Seq<u8>, level: u32, r1: Seq<u8>, r2: Seq<u8>)
    requires
        r1 == gzip_of(data, level),
        r2 == gzip_of(data, level),
    ensures
        r1 == r2,
{
}

/// Relies on flate2's `write::GzEncoder` over an in-memory buffer: on
/// success the buffer holds the gzip stream of `data` at `level`, which
/// depends on the arguments alone (flate2 writes mtime 0 and operating
/// system 255 for reproducible streams).
#[verifier::external_body]
pub(crate) fn gzip_bytes(data: &Vec<u8>, level: u32) -> (r: Option<Vec<u8>>)
    requires
        level <= 9,
    ensures
        r matches Some(v) ==> v@ == gzip_of(data@, level),
{
    let mut encoder =
        flate2::write::GzEncoder::new(Vec::new(), flate2::Compression::new(level));
    if encoder.write_all(data).is_err() {
        return None;
    }
    match encoder.finish() {
        Ok(v) => Some(v),
        Err(_) => None,
    }
}

/// Relies on `flate2::Compression::none`, whose level is 0.
#[verifier::external_body]
pub(crate) fn no_compression_level() -> (r: u32)
    ensures
        r == 0,
{
    flate2::Compression::none().level()
}

/// Relies on flate2's `Default` for `Compression`, whose level is 6.
#[verifier::external_body]
pub(crate) fn default_compression_level() -> (r: u32)
    ensures
        r == 6,
{
    flate2::Compression::default().level()
}

/// Relies on `flate2::Compression::new`, which keeps the level it is given.
#[verifier::external_body]
pub(crate) fn explicit_compression_level(level: u32) -> (r: u32)
    ensures
        r == level,
{
    flate2::Compression::new(level).level()
}

} // verus!
