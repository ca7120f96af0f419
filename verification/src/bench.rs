//! The aggregator: runs the three codecs over one certificate and groups what
//! they produced into one record.

use vstd::prelude::*;
use crate::codec::{
    compress_brotli,
    compress_zlib,
    compress_zstd,
    gzip_member,
    zstd_frame,
    Algorithm,
    CodecError,
    ZSTD_LEVEL,
};
use crate::record::{BenchmarkRecord, BenchmarkResult, CompressionResult};

verus! {

/// Why a certificate could not be measured.
#[derive(Clone, Copy, PartialEq, Eq, Debug, Structural)]
pub enum BenchmarkError {
    /// The certificate is empty, so no ratio to its size exists.
    EmptyCertificate,
    /// A codec failed on the certificate.
    Codec(CodecError),
}

/// The record of a certificate of `original_size` bytes that the three codecs
/// turned into outputs of the given sizes.
pub open spec fn benchmark_record(
    certificate: Seq<char>,
    key_size: Seq<char>,
    original_size: usize,
    zstd_size: usize,
    zlib_size: usize,
    brotli_size: usize,
) -> BenchmarkRecord {
    BenchmarkRecord {
        certificate,
        key_size,
        results: seq![
            CompressionResult { algorithm: Algorithm::Zstd, original_size, compressed_size: zstd_size },
            CompressionResult { algorithm: Algorithm::Zlib, original_size, compressed_size: zlib_size },
            CompressionResult {
                algorithm: Algorithm::Brotli,
                original_size,
                compressed_size: brotli_size,
            },
        ],
    }
}

/// What becomes of a certificate of `original_size` bytes, given what each
/// codec returned for it.
///
/// An empty certificate is an error whatever the codecs returned. Otherwise
/// the first failure counts, in the order Zstandard, gzip, Brotli. With no
/// failure the record holds the length of each output.
pub open spec fn tabulated(
    certificate: Seq<char>,
    key_size: Seq<char>,
    original_size: usize,
    zstd: Result<Vec<u8>, CodecError>,
    zlib: Result<Vec<u8>, CodecError>,
    brotli: Result<Vec<u8>, CodecError>,
) -> Result<BenchmarkRecord, BenchmarkError> {
    if original_size == 0 {
        Err(BenchmarkError::EmptyCertificate)
    } else if zstd is Err {
        Err(BenchmarkError::Codec(zstd->Err_0))
    } else if zlib is Err {
        Err(BenchmarkError::Codec(zlib->Err_0))
    } else if brotli is Err {
        Err(BenchmarkError::Codec(brotli->Err_0))
    } else {
        Ok(
            benchmark_record(
                certificate,
                key_size,
                original_size,
                zstd->Ok_0.len(),
                zlib->Ok_0.len(),
                brotli->Ok_0.len(),
            ),
        )
    }
}

/// Groups what the three codecs returned for one certificate into its record,
/// or names the reason why there is none.
pub fn tabulate(
    certificate: &str,
    key_size: &str,
    original_size: usize,
    zstd: Result<Vec<u8>, CodecError>,
    zlib: Result<Vec<u8>, CodecError>,
    brotli: Result<Vec<u8>, CodecError>,
) -> (out: Result<BenchmarkResult, BenchmarkError>)
    ensures
        match tabulated(certificate@, key_size@, original_size, zstd, zlib, brotli) {
            Ok(record) => out is Ok && out->Ok_0@ == record && record.well_formed(),
            Err(error) => out is Err && out->Err_0 == error,
        },
{
    if original_size == 0 {
        return Err(BenchmarkError::EmptyCertificate);
    }
    let zstd_size: usize = match zstd {
        Ok(bytes) => bytes.len(),
        Err(error) => {
            return Err(BenchmarkError::Codec(error));
        },
    };
    let zlib_size: usize = match zlib {
        Ok(bytes) => bytes.len(),
        Err(error) => {
            return Err(BenchmarkError::Codec(error));
        },
    };
    let brotli_size: usize = match brotli {
        Ok(bytes) => bytes.len(),
        Err(error) => {
            return Err(BenchmarkError::Codec(error));
        },
    };
    let mut results: Vec<CompressionResult> = Vec::new();
    results.push(
        CompressionResult { algorithm: Algorithm::Zstd, original_size, compressed_size: zstd_size },
    );
    results.push(
        CompressionResult { algorithm: Algorithm::Zlib, original_size, compressed_size: zlib_size },
    );
    results.push(
        CompressionResult {
            algorithm: Algorithm::Brotli,
            original_size,
            compressed_size: brotli_size,
        },
    );
    assert(results@ =~= benchmark_record(
        certificate@,
        key_size@,
        original_size,
        zstd_size,
        zlib_size,
        brotli_size,
    ).results);
    let out = BenchmarkResult::from_entries(certificate, key_size, results);
    Ok(out.unwrap())
}

/// Measures one certificate: runs Zstandard, gzip and Brotli over `cert_data`
/// and records the size of each output under the certificate's name and
/// key-size label.
///
/// An empty certificate is refused before any codec runs. When a codec fails
/// there is no record. The Zstandard and gzip entries are fixed by the input;
/// the Brotli entry is whatever the encoder emitted on this machine. No entry
/// has a compressed size of zero.
pub fn benchmark_certificate(certificate: &str, key_size: &str, cert_data: &[u8]) -> (out: Result<
    BenchmarkResult,
    BenchmarkError,
>)
    ensures
        cert_data@.len() == 0 <==> out == Err::<BenchmarkResult, BenchmarkError>(
            BenchmarkError::EmptyCertificate,
        ),
        out matches Ok(result) ==> {
            &&& result@.certificate == certificate@
            &&& result@.key_size == key_size@
            &&& result@.well_formed()
            &&& result@.results[0].original_size == cert_data@.len()
            &&& result@.results[0].compressed_size == zstd_frame(cert_data@, ZSTD_LEVEL as int).len()
            &&& result@.results[1].compressed_size == gzip_member(cert_data@).len()
            &&& forall|i: int| 0 <= i < 3 ==> (#[trigger] result@.results[i]).compressed_size > 0
        },
{
    let original_size: usize = cert_data.len();
    if original_size == 0 {
        return Err(BenchmarkError::EmptyCertificate);
    }
    let zstd = compress_zstd(cert_data);
    let zlib = compress_zlib(cert_data);
    let brotli = compress_brotli(cert_data);
    tabulate(certificate, key_size, original_size, zstd, zlib, brotli)
}

} // verus!
