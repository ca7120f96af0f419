//! The measurements of a run: one entry per codec, grouped per certificate.

use vstd::prelude::*;
use crate::codec::Algorithm;

verus! {

/// What one codec made of one certificate. The compression ratio of the entry
/// is `compressed_size / original_size`; it is not stored.
#[derive(Clone, Copy, PartialEq, Eq, Debug, Structural)]
pub struct CompressionResult {
    pub algorithm: Algorithm,
    /// Length of the certificate in bytes.
    pub original_size: usize,
    /// Length of the codec's output in bytes.
    pub compressed_size: usize,
}

/// The measurements of one certificate file.
///
/// Every value holds exactly three entries, for Zstandard, gzip and Brotli in
/// this order, and all three were measured against the same non-empty input.
#[derive(PartialEq, Eq, Debug)]
pub struct BenchmarkResult {
    certificate: String,
    key_size: String,
    results: Vec<CompressionResult>,
}

/// The mathematical value of a [`BenchmarkResult`].
pub struct BenchmarkRecord {
    /// Base name of the certificate file.
    pub certificate: Seq<char>,
    /// Nominal key size of the certificate, as a label.
    pub key_size: Seq<char>,
    /// The entries, in the order in which the codecs ran.
    pub results: Seq<CompressionResult>,
}

impl View for BenchmarkResult {
    type V = BenchmarkRecord;

    closed spec fn view(&self) -> BenchmarkRecord {
        BenchmarkRecord {
            certificate: self.certificate@,
            key_size: self.key_size@,
            results: self.results@,
        }
    }
}

impl DeepView for BenchmarkResult {
    type V = BenchmarkRecord;

    open spec fn deep_view(&self) -> BenchmarkRecord {
        self@
    }
}

impl Clone for BenchmarkResult {
    fn clone(&self) -> (out: Self)
        ensures
            out@ == self@,
    {
        proof {
            use_type_invariant(self);
        }
        let results = self.results.clone();
        assert(results@ =~= self.results@);
        BenchmarkResult {
            certificate: self.certificate.clone(),
            key_size: self.key_size.clone(),
            results,
        }
    }
}

/// The first entry of `results` that belongs to `algorithm`, if there is one.
pub open spec fn first_entry(results: Seq<CompressionResult>, algorithm: Algorithm) -> Option<
    CompressionResult,
>
    decreases results.len(),
{
    if results.len() == 0 {
        None
    } else if results[0].algorithm == algorithm {
        Some(results[0])
    } else {
        first_entry(results.drop_first(), algorithm)
    }
}

/// How many entries of `results` belong to `algorithm`.
pub open spec fn entry_count(results: Seq<CompressionResult>, algorithm: Algorithm) -> nat
    decreases results.len(),
{
    if results.len() == 0 {
        0
    } else {
        let rest = entry_count(results.drop_first(), algorithm);
        if results[0].algorithm == algorithm {
            rest + 1
        } else {
            rest
        }
    }
}

impl BenchmarkRecord {
    /// The entry that a table shows for `algorithm`: the first one that
    /// carries its name.
    pub open spec fn entry(self, algorithm: Algorithm) -> Option<CompressionResult> {
        first_entry(self.results, algorithm)
    }

    /// The shape of every record: three entries, for Zstandard, gzip and
    /// Brotli in this order, all measured against the same non-empty input.
    pub open spec fn well_formed(self) -> bool {
        &&& self.results.len() == 3
        &&& self.results[0].algorithm == Algorithm::Zstd
        &&& self.results[1].algorithm == Algorithm::Zlib
        &&& self.results[2].algorithm == Algorithm::Brotli
        &&& self.results[0].original_size > 0
        &&& self.results[1].original_size == self.results[0].original_size
        &&& self.results[2].original_size == self.results[0].original_size
    }
}

/// A well-formed record holds exactly one entry per codec, all entries share
/// one original size, and the entry found under a codec's name is the one at
/// the codec's position.
pub proof fn lemma_well_formed_one_entry_each(record: BenchmarkRecord)
    requires
        record.well_formed(),
    ensures
        forall|algorithm: Algorithm| #[trigger] entry_count(record.results, algorithm) == 1,
        forall|i: int, j: int|
            0 <= i < record.results.len() && 0 <= j < record.results.len()
                ==> record.results[i].original_size == record.results[j].original_size,
        forall|algorithm: Algorithm|
            #[trigger] record.entry(algorithm) == Some(record.results[algorithm.position()]),
{
    let r0 = record.results;
    let r1 = r0.drop_first();
    let r2 = r1.drop_first();
    let r3 = r2.drop_first();
    assert(r3.len() == 0);
    assert(r1[0] == r0[1] && r2[0] == r0[2]);
    assert forall|algorithm: Algorithm| #[trigger] entry_count(r0, algorithm) == 1 by {
        assert(entry_count(r3, algorithm) == 0);
        assert(entry_count(r2, algorithm) == if algorithm == Algorithm::Brotli {
            1nat
        } else {
            0nat
        });
        assert(entry_count(r1, algorithm) == entry_count(r2, algorithm) + if algorithm
            == Algorithm::Zlib {
            1nat
        } else {
            0nat
        });
    }
    assert(r0[0] == r0[Algorithm::Zstd.position()]);
    assert(r0[1] == r0[Algorithm::Zlib.position()]);
    assert(r0[2] == r0[Algorithm::Brotli.position()]);
    assert(first_entry(r2, Algorithm::Brotli) == Some(r0[2]));
    assert(first_entry(r1, Algorithm::Brotli) == Some(r0[2]));
    assert(first_entry(r1, Algorithm::Zlib) == Some(r0[1]));
}

impl BenchmarkResult {
    #[verifier::type_invariant]
    spec fn inv(self) -> bool {
        self@.well_formed()
    }

    /// Makes a record of `results` under the given name and key-size label,
    /// if they have the shape of a record.
    pub fn from_entries(certificate: &str, key_size: &str, results: Vec<CompressionResult>) -> (out:
        Option<BenchmarkResult>)
        ensures
            out is Some <==> (BenchmarkRecord {
                certificate: certificate@,
                key_size: key_size@,
                results: results@,
            }).well_formed(),
            out matches Some(result) ==> result@ == (BenchmarkRecord {
                certificate: certificate@,
                key_size: key_size@,
                results: results@,
            }),
    {
        if results.len() != 3 {
            return None;
        }
        let zstd = results[0];
        let zlib = results[1];
        let brotli = results[2];
        if zstd.algorithm == Algorithm::Zstd && zlib.algorithm == Algorithm::Zlib
            && brotli.algorithm == Algorithm::Brotli && zstd.original_size > 0
            && zlib.original_size == zstd.original_size && brotli.original_size
            == zstd.original_size {
            Some(
                BenchmarkResult {
                    certificate: certificate.to_owned(),
                    key_size: key_size.to_owned(),
                    results,
                },
            )
        } else {
            None
        }
    }

    /// Base name of the certificate file.
    pub fn certificate(&self) -> (out: &str)
        ensures
            out@ == self@.certificate,
    {
        self.certificate.as_str()
    }

    /// Nominal key size of the certificate, as a label.
    pub fn key_size(&self) -> (out: &str)
        ensures
            out@ == self@.key_size,
    {
        self.key_size.as_str()
    }

    /// The three entries, with the shape that every record has.
    pub fn results(&self) -> (out: &[CompressionResult])
        ensures
            out@ == self@.results,
            self@.well_formed(),
    {
        proof {
            use_type_invariant(self);
        }
        self.results.as_slice()
    }

    /// Length of the certificate in bytes; never zero.
    pub fn original_size(&self) -> (out: usize)
        ensures
            out > 0,
            forall|i: int| 0 <= i < 3 ==> (#[trigger] self@.results[i]).original_size == out,
    {
        proof {
            use_type_invariant(self);
        }
        self.results[0].original_size
    }

    /// Looks up the entry of `algorithm` by its name. There always is one.
    pub fn find(&self, algorithm: Algorithm) -> (out: CompressionResult)
        ensures
            self@.entry(algorithm) == Some(out),
            out == self@.results[algorithm.position()],
            out.algorithm == algorithm,
    {
        proof {
            use_type_invariant(self);
            lemma_well_formed_one_entry_each(self@);
        }
        match algorithm {
            Algorithm::Zstd => self.results[0],
            Algorithm::Zlib => self.results[1],
            Algorithm::Brotli => self.results[2],
        }
    }
}

} // verus!
