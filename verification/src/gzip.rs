//! Gzip compression of in-memory contents with flate2, and the facts about
//! flate2's output that the rest of the library relies on.

use std::io::Write;
use vstd::prelude::*;

verus! {

#[verifier::external_type_specification]
#[verifier::external_body]
pub struct ExIoError(std::io::Error);

/// A flate2 gzip encoder that writes into a `Vec<u8>`, known through the
/// input it has accepted (`gz_input`) and the level it was made with
/// (`gz_level`).
#[verifier::external_body]
pub struct GzipEncoder {
    inner: flate2::write::GzEncoder<Vec<u8>>,
}

/// Trusted: `Compression::default()` of flate2, read back with
/// `Compression::level`. flate2 builds it as `Compression(6)`.
#[verifier::external_body]
pub(crate) fn default_level() -> (l: u32)
    ensures
        l == 6,
{
    <flate2::Compression as Default>::default().level()
}

/// Trusted: `Compression::fast()` of flate2, read back with
/// `Compression::level`. flate2 builds it as `Compression(1)`.
#[verifier::external_body]
pub(crate) fn fast_level() -> (l: u32)
    ensures
        l == 1,
{
    flate2::Compression::fast().level()
}

/// Trusted: `Compression::best()` of flate2, read back with
/// `Compression::level`. flate2 builds it as `Compression(9)`.
#[verifier::external_body]
pub(crate) fn best_level() -> (l: u32)
    ensures
        l == 9,
{
    flate2::Compression::best().level()
}

/// The input that a gzip encoder over a `Vec<u8>` has accepted so far.
pub uninterp spec fn gz_input(e: GzipEncoder) -> Seq<u8>;

/// The compression level that a gzip encoder over a `Vec<u8>` was made with.
pub uninterp spec fn gz_level(e: GzipEncoder) -> u32;

/// The complete gzip member that flate2 produces for `input` at `level`.
pub uninterp spec fn gzip_member(input: Seq<u8>, level: u32) -> Seq<u8>;

/// The extra-flags byte of flate2's gzip header for `level`.
pub open spec fn header_xfl(level: u32) -> u8 {
    if level >= 9 {
        2
    } else if level <= 1 {
        4
    } else {
        0
    }
}

/// The ten header bytes that flate2's `GzEncoder::new` writes: magic
/// `1f 8b`, method deflate, no flags, modification time zero, the extra
/// flags for `level`, and operating system 255 ("unknown").
pub open spec fn gzip_header(level: u32) -> Seq<u8> {
    seq![0x1fu8, 0x8bu8, 8u8, 0u8, 0u8, 0u8, 0u8, 0u8, header_xfl(level), 255u8]
}

/// The four little-endian bytes of `n` modulo 2^32.
pub open spec fn le_u32_bytes(n: nat) -> Seq<u8> {
    seq![
        (n % 0x100) as u8,
        ((n / 0x100) % 0x100) as u8,
        ((n / 0x10000) % 0x100) as u8,
        ((n / 0x1000000) % 0x100) as u8,
    ]
}

/// The framing of a gzip member for `input`: the header for `level` first,
/// and last the size of the input modulo 2^32, little-endian.
pub open spec fn gzip_framed(out: Seq<u8>, input: Seq<u8>, level: u32) -> bool {
    &&& out.len() >= 18
    &&& out.take(10) == gzip_header(level)
    &&& out.skip(out.len() - 4) == le_u32_bytes(input.len())
}

/// Trusted: `GzEncoder::new` of flate2 over an empty `Vec<u8>`, at
/// `Compression::new(level)`. The new encoder has accepted no input.
/// flate2 debug-asserts a level of at most 10 (miniz_oxide's highest).
#[verifier::external_body]
fn gz_encoder_new(level: u32) -> (e: GzipEncoder)
    requires
        level <= 10,
    ensures
        gz_input(e) == Seq::<u8>::empty(),
        gz_level(e) == level,
{
    GzipEncoder { inner: flate2::write::GzEncoder::new(Vec::new(), flate2::Compression::new(level)) }
}

/// Trusted: `Write::write_all` of flate2's `GzEncoder` over a `Vec<u8>`,
/// on an encoder that has accepted no input yet. It succeeds: writing into
/// a `Vec` never fails, and miniz_oxide's compressor fails only when it is
/// used again after finishing or after an earlier failure. The encoder has
/// then accepted `data`; the level stays. Only a first write is admitted: what `finish` returns
/// is named for the whole input given in one piece, and nothing is claimed
/// of how flate2 would cut a stream fed in several pieces.
#[verifier::external_body]
fn gz_write_all(e: &mut GzipEncoder, data: &[u8]) -> (r: Result<(), std::io::Error>)
    requires
        gz_input(*old(e)).len() == 0,
    ensures
        r is Ok,
        gz_level(*final(e)) == gz_level(*old(e)),
        gz_input(*final(e)) == data@,
{
    e.inner.write_all(data)
}

/// Trusted: `GzEncoder::finish` of flate2 over a `Vec<u8>`. It succeeds,
/// for the reasons given at `gz_write_all` (the encoders of this module are
/// only ever new or written once). The vector holds the gzip member for the accepted input at the encoder's
/// level: flate2's header (written by `new`'s builder with no name, comment
/// or time), the deflate stream, then the CRC-32 and the input size modulo
/// 2^32, both little-endian. The deflate stream and the CRC are named by
/// `gzip_member` and not spelled out.
#[verifier::external_body]
fn gz_finish(e: GzipEncoder) -> (r: Result<Vec<u8>, std::io::Error>)
    ensures
        r is Ok,
        r matches Ok(v) ==> v@ == gzip_member(gz_input(e), gz_level(e)),
        r matches Ok(v) ==> gzip_framed(v@, gz_input(e), gz_level(e)),
{
    e.inner.finish()
}

/// The number that four little-endian bytes spell.
pub open spec fn le_u32_value(b: Seq<u8>) -> nat {
    b[0] as nat + 0x100 * (b[1] as nat) + 0x10000 * (b[2] as nat) + 0x1000000 * (b[3] as nat)
}

/// Law: a compressed copy tells what it holds: it starts with the gzip
/// magic bytes `1f 8b` and the deflate method, and for contents under
/// 4 GiB its last four bytes spell the size of the contents.
pub proof fn law_gzip_records_size(out: Seq<u8>, input: Seq<u8>, level: u32)
    requires
        gzip_framed(out, input, level),
    ensures
        out[0] == 0x1f && out[1] == 0x8b && out[2] == 8,
        input.len() < 0x1_0000_0000 ==> le_u32_value(out.skip(out.len() - 4)) == input.len(),
{
    assert(out[0] == out.take(10)[0]);
    assert(out[1] == out.take(10)[1]);
    assert(out[2] == out.take(10)[2]);
    let n = input.len();
    if n < 0x1_0000_0000 {
        let t = out.skip(out.len() - 4);
        assert(t == le_u32_bytes(n));
        assert(n % 0x100 + 0x100 * ((n / 0x100) % 0x100) + 0x10000 * ((n / 0x10000) % 0x100)
            + 0x1000000 * ((n / 0x1000000) % 0x100) == n) by (nonlinear_arith)
            requires
                n < 0x1_0000_0000,
        ;
    }
}

/// Why compressing contents failed.
pub enum CompressError {
    /// Feeding the contents to the encoder failed.
    Write(std::io::Error),
    /// Finishing the gzip stream failed.
    Finish(std::io::Error),
}

/// Gzip-compresses `data` at compression `level`, as flate2's `GzEncoder`
/// does when it is given all of `data` and then finished.
pub fn gzip_compress(data: &[u8], level: u32) -> (r: Result<Vec<u8>, CompressError>)
    requires
        level <= 10,
    ensures
        r is Ok,
        r matches Ok(v) ==> v@ == gzip_member(data@, level),
        r matches Ok(v) ==> gzip_framed(v@, data@, level),
{
    let mut encoder = gz_encoder_new(level);
    match gz_write_all(&mut encoder, data) {
        Ok(()) => {},
        Err(e) => {
            return Err(CompressError::Write(e));
        },
    }
    match gz_finish(encoder) {
        Ok(v) => Ok(v),
        Err(e) => Err(CompressError::Finish(e)),
    }
}

} // verus!
