//! The three compression runners. Each hands the whole input to one codec with
//! one fixed configuration and returns the compressed bytes.

use vstd::prelude::*;
use vstd::string::*;

verus! {

/// The codecs that a certificate is measured with, in the order in which they
/// are run and reported.
#[derive(Clone, Copy, PartialEq, Eq, Debug, Structural)]
pub enum Algorithm {
    Zstd,
    Zlib,
    Brotli,
}

impl Algorithm {
    /// The place of the codec in the order of a run, counted from zero.
    pub open spec fn position(self) -> int {
        match self {
            Algorithm::Zstd => 0,
            Algorithm::Zlib => 1,
            Algorithm::Brotli => 2,
        }
    }

    /// The name under which the codec appears in a report.
    pub open spec fn spec_name(self) -> Seq<char> {
        match self {
            Algorithm::Zstd => "zstd"@,
            Algorithm::Zlib => "zlib"@,
            Algorithm::Brotli => "brotli"@,
        }
    }

    /// The codec that a report calls `name`, if it calls one so.
    pub open spec fn spec_from_name(name: Seq<char>) -> Option<Algorithm> {
        if name == "zstd"@ {
            Some(Algorithm::Zstd)
        } else if name == "zlib"@ {
            Some(Algorithm::Zlib)
        } else if name == "brotli"@ {
            Some(Algorithm::Brotli)
        } else {
            None
        }
    }

    /// The name under which the codec appears in a report.
    pub fn name(self) -> (out: &'static str)
        ensures
            out@ == self.spec_name(),
    {
        match self {
            Algorithm::Zstd => "zstd",
            Algorithm::Zlib => "zlib",
            Algorithm::Brotli => "brotli",
        }
    }

    /// Finds the codec by its name in a report.
    pub fn from_name(name: &str) -> (out: Option<Algorithm>)
        ensures
            out == Algorithm::spec_from_name(name@),
    {
        let name = name.to_owned();
        if name == "zstd".to_owned() {
            Some(Algorithm::Zstd)
        } else if name == "zlib".to_owned() {
            Some(Algorithm::Zlib)
        } else if name == "brotli".to_owned() {
            Some(Algorithm::Brotli)
        } else {
            None
        }
    }

    /// Every codec is found again by its own name, and by no other codec's.
    pub proof fn lemma_name_identifies(self, other: Algorithm)
        ensures
            Algorithm::spec_from_name(self.spec_name()) == Some(self),
            self.spec_name() == other.spec_name() <==> self == other,
    {
        reveal_strlit("zstd");
        reveal_strlit("zlib");
        reveal_strlit("brotli");
        assert("zstd"@[1] != "zlib"@[1]);
        assert("zstd"@.len() != "brotli"@.len());
        assert("zlib"@.len() != "brotli"@.len());
    }
}

/// A codec reported an error instead of compressed bytes.
#[derive(Clone, Copy, PartialEq, Eq, Debug, Structural)]
pub struct CodecError {
    /// The codec that failed.
    pub algorithm: Algorithm,
}

/// The Zstandard level of every run: the codec's fast preset.
pub const ZSTD_LEVEL: i32 = 3;

/// `std::io::Error`, in which all three codecs report a failure. It is passed
/// on unread.
#[verifier::external_type_specification]
#[verifier::external_body]
pub struct ExIoError(std::io::Error);

/// The Zstandard frame that `zstd::encode_all` produces for `data` at `level`.
pub uninterp spec fn zstd_frame(data: Seq<u8>, level: int) -> Seq<u8>;

/// The gzip member that `flate2`'s `GzEncoder` produces for `data` at the
/// codec's default level, with the header that `GzEncoder::new` gives it.
pub uninterp spec fn gzip_member(data: Seq<u8>) -> Seq<u8>;

/// Calls `zstd::encode_all` on the whole of `data`.
///
/// Trusted: when the call succeeds, its output is the frame named by
/// [`zstd_frame`], and is not empty, since every frame opens with the four
/// bytes of the format's magic number. Nothing is claimed about when the call
/// fails.
#[verifier::external_body]
fn zstd_encode_all(data: &[u8], level: i32) -> (out: Result<Vec<u8>, std::io::Error>)
    ensures
        out matches Ok(bytes) ==> bytes@ == zstd_frame(data@, level as int) && bytes@.len() > 0,
{
    zstd::encode_all(data, level)
}

/// Feeds the whole of `data` to a fresh `flate2::write::GzEncoder` over an
/// empty vector, made by `GzEncoder::new` with `Compression::default()`, by one
/// `write_all`, and takes the vector back with `finish`.
///
/// Trusted: when all three succeed, the vector holds the member named by
/// [`gzip_member`], and is not empty, since `finish` writes a ten-byte header
/// before the compressed data and an eight-byte trailer behind it. Nothing is
/// claimed about when a call fails.
#[verifier::external_body]
fn gzip_encode_all(data: &[u8]) -> (out: Result<Vec<u8>, std::io::Error>)
    ensures
        out matches Ok(bytes) ==> bytes@ == gzip_member(data@) && bytes@.len() > 0,
{
    let mut encoder = flate2::write::GzEncoder::new(Vec::new(), flate2::Compression::default());
    std::io::Write::write_all(&mut encoder, data)?;
    encoder.finish()
}

/// Calls `brotli::BrotliCompress` with `BrotliEncoderParams::default()`, reading
/// from `data` and writing to an empty vector, and returns the vector.
///
/// Trusted: when the call succeeds, the vector is not empty, since every
/// stream opens with the bits that tell the window size. The bytes are not
/// given a name: with the crate's default features the encoder's cost
/// estimates go through the platform's floating-point library, so two machines
/// may emit different streams for the same input.
#[verifier::external_body]
fn brotli_encode_all(data: &[u8]) -> (out: Result<Vec<u8>, std::io::Error>)
    ensures
        out matches Ok(bytes) ==> bytes@.len() > 0,
{
    let mut input = data;
    let mut output = Vec::new();
    let params = brotli::enc::BrotliEncoderParams::default();
    brotli::BrotliCompress(&mut input, &mut output, &params)?;
    Ok(output)
}

/// What a runner returns for what its codec returned: the compressed bytes
/// unchanged, or the name of the codec in place of the codec's own error.
pub fn codec_outcome(algorithm: Algorithm, raw: Result<Vec<u8>, std::io::Error>) -> (out: Result<
    Vec<u8>,
    CodecError,
>)
    ensures
        raw matches Ok(bytes) ==> out == Ok::<Vec<u8>, CodecError>(bytes),
        raw is Err ==> out == Err::<Vec<u8>, CodecError>(CodecError { algorithm }),
{
    match raw {
        Ok(bytes) => Ok(bytes),
        Err(_) => Err(CodecError { algorithm }),
    }
}

/// Compresses `data` with Zstandard at [`ZSTD_LEVEL`].
pub fn compress_zstd(data: &[u8]) -> (out: Result<Vec<u8>, CodecError>)
    ensures
        out matches Ok(bytes) ==> bytes@ == zstd_frame(data@, ZSTD_LEVEL as int) && bytes@.len() > 0,
        out matches Err(e) ==> e.algorithm == Algorithm::Zstd,
{
    codec_outcome(Algorithm::Zstd, zstd_encode_all(data, ZSTD_LEVEL))
}

/// Compresses `data` with DEFLATE at the codec's default level, framed as a
/// gzip member.
pub fn compress_zlib(data: &[u8]) -> (out: Result<Vec<u8>, CodecError>)
    ensures
        out matches Ok(bytes) ==> bytes@ == gzip_member(data@) && bytes@.len() > 0,
        out matches Err(e) ==> e.algorithm == Algorithm::Zlib,
{
    codec_outcome(Algorithm::Zlib, gzip_encode_all(data))
}

/// Compresses `data` with Brotli at the encoder's default parameters.
pub fn compress_brotli(data: &[u8]) -> (out: Result<Vec<u8>, CodecError>)
    ensures
        out matches Ok(bytes) ==> bytes@.len() > 0,
        out matches Err(e) ==> e.algorithm == Algorithm::Brotli,
{
    codec_outcome(Algorithm::Brotli, brotli_encode_all(data))
}

} // verus!
