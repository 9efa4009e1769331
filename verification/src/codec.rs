//! The compression codecs that the file functions lean on.
//!
//! Nothing in this module is proved. Each function here makes one call into
//! `flate2`, `bzip2`, `xz2` or the standard library, and its contract states
//! what is taken on trust about that call.

use std::io::{Read, Write};
use vstd::prelude::*;
use vstd::utf8::{decode_utf8, valid_utf8};

verus! {

/// What `flate2`'s `MultiGzDecoder` reads from a gzip image: the contents of
/// all its members, or nothing where the image is not well formed.
pub uninterp spec fn gz_decoded(image: Seq<u8>) -> Option<Seq<u8>>;

/// What `bzip2`'s `BzDecoder` reads from a bzip2 image: the contents of its
/// first stream, or nothing where the image is not well formed.
pub uninterp spec fn bz2_decoded(image: Seq<u8>) -> Option<Seq<u8>>;

/// What `xz2`'s `XzDecoder` reads from an xz image: the contents of its
/// stream, or nothing where the image is not well formed.
pub uninterp spec fn xz_decoded(image: Seq<u8>) -> Option<Seq<u8>>;

/// What `flate2`'s `GzEncoder` writes for `contents` at `level`: one gzip
/// member.
pub uninterp spec fn gz_encoded(contents: Seq<u8>, level: u32) -> Option<Seq<u8>>;

/// What `bzip2`'s `BzEncoder` writes for `contents` at `level`: one bzip2
/// stream.
pub uninterp spec fn bz2_encoded(contents: Seq<u8>, level: u32) -> Option<Seq<u8>>;

/// What `xz2`'s `XzEncoder` writes for `contents` at `level`: one xz stream
/// with a CRC-64 check.
pub uninterp spec fn xz_encoded(contents: Seq<u8>, level: u32) -> Option<Seq<u8>>;

/// Calls `flate2::bufread::MultiGzDecoder::new` on the image and reads it to
/// its end. The result is a function of the image: the bytes read, or the
/// error of the decoder.
#[verifier::external_body]
pub(crate) fn gz_decode(image: &[u8]) -> (r: Result<Vec<u8>, std::io::Error>)
    ensures
        match r {
            Ok(bytes) => gz_decoded(image@) == Some(bytes@),
            Err(_) => gz_decoded(image@) is None,
        },
{
    let mut bytes = Vec::new();
    flate2::bufread::MultiGzDecoder::new(image).read_to_end(&mut bytes)?;
    Ok(bytes)
}

/// Calls `bzip2::bufread::BzDecoder::new` on the image and reads it to its
/// end. The result is a function of the image: the bytes read, or the error
/// of the decoder.
#[verifier::external_body]
pub(crate) fn bz2_decode(image: &[u8]) -> (r: Result<Vec<u8>, std::io::Error>)
    ensures
        match r {
            Ok(bytes) => bz2_decoded(image@) == Some(bytes@),
            Err(_) => bz2_decoded(image@) is None,
        },
{
    let mut bytes = Vec::new();
    bzip2::bufread::BzDecoder::new(image).read_to_end(&mut bytes)?;
    Ok(bytes)
}

/// Calls `xz2::bufread::XzDecoder::new` on the image and reads it to its end.
/// The result is a function of the image: the bytes read, or the error of the
/// decoder.
#[verifier::external_body]
pub(crate) fn xz_decode(image: &[u8]) -> (r: Result<Vec<u8>, std::io::Error>)
    ensures
        match r {
            Ok(bytes) => xz_decoded(image@) == Some(bytes@),
            Err(_) => xz_decoded(image@) is None,
        },
{
    let mut bytes = Vec::new();
    xz2::bufread::XzDecoder::new(image).read_to_end(&mut bytes)?;
    Ok(bytes)
}

/// Calls `flate2::write::GzEncoder::new` with a level from 0 to 9, writes the
/// contents and finishes the member. The result is a function of the contents
/// and the level.
#[verifier::external_body]
pub(crate) fn gz_encode(contents: &[u8], level: u32) -> (r: Result<Vec<u8>, std::io::Error>)
    requires
        level <= 9,
    ensures
        match r {
            Ok(bytes) => gz_encoded(contents@, level) == Some(bytes@),
            Err(_) => gz_encoded(contents@, level) is None,
        },
{
    let mut encoder = flate2::write::GzEncoder::new(Vec::new(), flate2::Compression::new(level));
    encoder.write_all(contents)?;
    encoder.finish()
}

/// Calls `bzip2::write::BzEncoder::new` with a level from 1 to 9, writes the
/// contents and finishes the stream. The result is a function of the contents
/// and the level. At any other level the encoder cannot be set up and the
/// call does not return.
#[verifier::external_body]
pub(crate) fn bz2_encode(contents: &[u8], level: u32) -> (r: Result<Vec<u8>, std::io::Error>)
    requires
        1 <= level <= 9,
    ensures
        match r {
            Ok(bytes) => bz2_encoded(contents@, level) == Some(bytes@),
            Err(_) => bz2_encoded(contents@, level) is None,
        },
{
    let mut encoder = bzip2::write::BzEncoder::new(Vec::new(), bzip2::Compression::new(level));
    encoder.write_all(contents)?;
    encoder.finish()
}

/// Calls `xz2::write::XzEncoder::new` with a level from 0 to 9, writes the
/// contents and finishes the stream. The result is a function of the contents
/// and the level. At any other level the encoder cannot be set up and the
/// call does not return.
#[verifier::external_body]
pub(crate) fn xz_encode(contents: &[u8], level: u32) -> (r: Result<Vec<u8>, std::io::Error>)
    requires
        level <= 9,
    ensures
        match r {
            Ok(bytes) => xz_encoded(contents@, level) == Some(bytes@),
            Err(_) => xz_encoded(contents@, level) is None,
        },
{
    let mut encoder = xz2::write::XzEncoder::new(Vec::new(), level);
    encoder.write_all(contents)?;
    encoder.finish()
}

/// Sets up a multi-threaded encoder with `xz2::stream::MtStreamBuilder`, for
/// `level`, `threads` threads, the block size, the timeout and a CRC-64
/// check, and hands it to `xz2::write::XzEncoder::new_stream`; then writes the
/// contents and finishes the stream. The outer error is that of the set-up,
/// the inner one that of writing. Nothing is stated of the bytes.
#[verifier::external_body]
pub(crate) fn xz_encode_threaded(
    contents: &[u8],
    level: u32,
    threads: u32,
    block_size: u64,
    timeout_ms: u32,
) -> (r: Result<Result<Vec<u8>, std::io::Error>, xz2::stream::Error>) {
    let stream = xz2::stream::MtStreamBuilder::new()
        .preset(level)
        .threads(threads)
        .block_size(block_size)
        .timeout_ms(timeout_ms)
        .check(xz2::stream::Check::Crc64)
        .encoder()?;
    let mut encoder = xz2::write::XzEncoder::new_stream(Vec::new(), stream);
    Ok(encoder.write_all(contents).and_then(|_| encoder.finish()))
}

/// The level of `flate2::Compression::fast`, which is 1.
#[verifier::external_body]
pub(crate) fn gz_fast() -> (level: u32)
    ensures
        level == 1,
{
    flate2::Compression::fast().level()
}

/// The level of `flate2::Compression::default`, which is 6.
#[verifier::external_body]
pub(crate) fn gz_default() -> (level: u32)
    ensures
        level == 6,
{
    flate2::Compression::default().level()
}

/// The level of `flate2::Compression::best`, which is 9.
#[verifier::external_body]
pub(crate) fn gz_best() -> (level: u32)
    ensures
        level == 9,
{
    flate2::Compression::best().level()
}

/// The level of `bzip2::Compression::fast`, which is 1.
#[verifier::external_body]
pub(crate) fn bz2_fast() -> (level: u32)
    ensures
        level == 1,
{
    bzip2::Compression::fast().level()
}

/// The level of `bzip2::Compression::default`, which is 6.
#[verifier::external_body]
pub(crate) fn bz2_default() -> (level: u32)
    ensures
        level == 6,
{
    bzip2::Compression::default().level()
}

/// The level of `bzip2::Compression::best`, which is 9.
#[verifier::external_body]
pub(crate) fn bz2_best() -> (level: u32)
    ensures
        level == 9,
{
    bzip2::Compression::best().level()
}

/// Calls `std::io::Read::read_to_string` on the bytes. It gives the text that
/// the bytes encode in UTF-8, and an error where they encode none.
#[verifier::external_body]
pub(crate) fn utf8_text(bytes: &[u8]) -> (r: Result<String, std::io::Error>)
    ensures
        r is Ok <==> valid_utf8(bytes@),
        r matches Ok(text) ==> text@ == decode_utf8(bytes@),
{
    let mut text = String::new();
    let mut reader = bytes;
    reader.read_to_string(&mut text)?;
    Ok(text)
}

} // verus!
