//! The reporter: the two fixed-width tables of a run, as text.

use vstd::prelude::*;
use vstd::string::*;
use crate::codec::Algorithm;
use crate::record::{BenchmarkRecord, BenchmarkResult};
use crate::text::{dashes, decimal, decimal_text, left_aligned, pad_right, repeated};

verus! {

/// One line of the size table: six left-aligned cells of 15, 10, 12, 12, 12
/// and 12 characters, one space between neighbours, and a line feed.
pub open spec fn size_line(
    certificate: Seq<char>,
    key_size: Seq<char>,
    original: Seq<char>,
    zstd: Seq<char>,
    zlib: Seq<char>,
    brotli: Seq<char>,
) -> Seq<char> {
    left_aligned(certificate, 15) + " "@ + left_aligned(key_size, 10) + " "@ + left_aligned(
        original,
        12,
    ) + " "@ + left_aligned(zstd, 12) + " "@ + left_aligned(zlib, 12) + " "@ + left_aligned(
        brotli,
        12,
    ) + "\n"@
}

/// One line of the ratio table: five left-aligned cells of 15, 10, 12, 12 and
/// 12 characters, one space between neighbours, and a line feed.
pub open spec fn ratio_line(
    certificate: Seq<char>,
    key_size: Seq<char>,
    zstd: Seq<char>,
    zlib: Seq<char>,
    brotli: Seq<char>,
) -> Seq<char> {
    left_aligned(certificate, 15) + " "@ + left_aligned(key_size, 10) + " "@ + left_aligned(
        zstd,
        12,
    ) + " "@ + left_aligned(zlib, 12) + " "@ + left_aligned(brotli, 12) + "\n"@
}

/// Title, column headings and rule of the size table.
pub open spec fn size_heading() -> Seq<char> {
    "\nCertificate Compression Benchmark Results\n"@
        + "==========================================\n"@ + size_line(
        "Certificate"@,
        "Key Size"@,
        "Original"@,
        "Zstd"@,
        "Zlib"@,
        "Brotli"@,
    ) + size_line(
        "Name"@,
        "(bits)"@,
        "Size (bytes)"@,
        "Size (bytes)"@,
        "Size (bytes)"@,
        "Size (bytes)"@,
    ) + repeated('-', 85) + "\n"@
}

/// Title, column headings and rule of the ratio table.
pub open spec fn ratio_heading() -> Seq<char> {
    "\nCompression Ratios (compressed/original):\n"@ + ratio_line(
        "Certificate"@,
        "Key Size"@,
        "Zstd"@,
        "Zlib"@,
        "Brotli"@,
    ) + repeated('-', 55) + "\n"@
}

/// The size-table row of one certificate. Each codec's column shows the entry
/// found under the codec's name; the original size is that of the Zstandard
/// entry.
pub open spec fn size_row(record: BenchmarkRecord) -> Seq<char>
    recommends
        record.well_formed(),
{
    size_line(
        record.certificate,
        record.key_size,
        decimal_text(record.entry(Algorithm::Zstd)->0.original_size as nat),
        decimal_text(record.entry(Algorithm::Zstd)->0.compressed_size as nat),
        decimal_text(record.entry(Algorithm::Zlib)->0.compressed_size as nat),
        decimal_text(record.entry(Algorithm::Brotli)->0.compressed_size as nat),
    )
}

/// The rows of the size table, one per record, in the order of `records`.
pub open spec fn size_rows(records: Seq<BenchmarkRecord>) -> Seq<char>
    decreases records.len(),
{
    if records.len() == 0 {
        Seq::empty()
    } else {
        size_rows(records.drop_last()) + size_row(records.last())
    }
}

/// The whole size table.
pub open spec fn size_table(records: Seq<BenchmarkRecord>) -> Seq<char> {
    size_heading() + size_rows(records)
}

/// The three ratio cells of one certificate's row, as text.
#[derive(Clone, PartialEq, Eq, Debug)]
pub struct RatioCells {
    pub zstd: String,
    pub zlib: String,
    pub brotli: String,
}

/// The mathematical value of a [`RatioCells`].
pub struct RatioTexts {
    pub zstd: Seq<char>,
    pub zlib: Seq<char>,
    pub brotli: Seq<char>,
}

impl View for RatioCells {
    type V = RatioTexts;

    open spec fn view(&self) -> RatioTexts {
        RatioTexts { zstd: self.zstd@, zlib: self.zlib@, brotli: self.brotli@ }
    }
}

impl DeepView for RatioCells {
    type V = RatioTexts;

    open spec fn deep_view(&self) -> RatioTexts {
        self@
    }
}

/// The ratio-table row of one certificate, with `ratios` in its ratio cells.
pub open spec fn ratio_row(record: BenchmarkRecord, ratios: RatioTexts) -> Seq<char> {
    ratio_line(record.certificate, record.key_size, ratios.zstd, ratios.zlib, ratios.brotli)
}

/// The rows of the ratio table: row `i` belongs to `records[i]` and shows
/// `ratios[i]`.
pub open spec fn ratio_rows(records: Seq<BenchmarkRecord>, ratios: Seq<RatioTexts>) -> Seq<char>
    recommends
        records.len() == ratios.len(),
    decreases records.len(),
{
    if records.len() == 0 {
        Seq::empty()
    } else {
        ratio_rows(records.drop_last(), ratios.drop_last()) + ratio_row(
            records.last(),
            ratios.last(),
        )
    }
}

/// The whole ratio table.
pub open spec fn ratio_table(records: Seq<BenchmarkRecord>, ratios: Seq<RatioTexts>) -> Seq<char> {
    ratio_heading() + ratio_rows(records, ratios)
}

fn append_cell(out: &mut String, text: &str, width: usize, end: &str)
    ensures
        final(out)@ == old(out)@ + left_aligned(text@, width as nat) + end@,
{
    let cell = pad_right(text, width);
    out.append(cell.as_str());
    out.append(end);
}

fn append_size_line(
    out: &mut String,
    certificate: &str,
    key_size: &str,
    original: &str,
    zstd: &str,
    zlib: &str,
    brotli: &str,
)
    ensures
        final(out)@ == old(out)@ + size_line(
            certificate@,
            key_size@,
            original@,
            zstd@,
            zlib@,
            brotli@,
        ),
{
    append_cell(out, certificate, 15, " ");
    append_cell(out, key_size, 10, " ");
    append_cell(out, original, 12, " ");
    append_cell(out, zstd, 12, " ");
    append_cell(out, zlib, 12, " ");
    append_cell(out, brotli, 12, "\n");
    assert(out@ =~= old(out)@ + size_line(
        certificate@,
        key_size@,
        original@,
        zstd@,
        zlib@,
        brotli@,
    ));
}

fn append_ratio_line(
    out: &mut String,
    certificate: &str,
    key_size: &str,
    zstd: &str,
    zlib: &str,
    brotli: &str,
)
    ensures
        final(out)@ == old(out)@ + ratio_line(certificate@, key_size@, zstd@, zlib@, brotli@),
{
    append_cell(out, certificate, 15, " ");
    append_cell(out, key_size, 10, " ");
    append_cell(out, zstd, 12, " ");
    append_cell(out, zlib, 12, " ");
    append_cell(out, brotli, 12, "\n");
    assert(out@ =~= old(out)@ + ratio_line(certificate@, key_size@, zstd@, zlib@, brotli@));
}

/// Renders the table of absolute sizes: heading, then one row per result in
/// the order of `results`.
pub fn render_size_table(results: &[BenchmarkResult]) -> (out: String)
    ensures
        out@ == size_table(results.deep_view()),
{
    let mut out = String::new();
    out.append("\nCertificate Compression Benchmark Results\n");
    out.append("==========================================\n");
    append_size_line(&mut out, "Certificate", "Key Size", "Original", "Zstd", "Zlib", "Brotli");
    append_size_line(
        &mut out,
        "Name",
        "(bits)",
        "Size (bytes)",
        "Size (bytes)",
        "Size (bytes)",
        "Size (bytes)",
    );
    let rule = dashes(85);
    out.append(rule.as_str());
    out.append("\n");
    assert(out@ =~= size_heading());
    let ghost records = results.deep_view();
    let mut i: usize = 0;
    while i < results.len()
        invariant
            i <= results@.len(),
            records == results.deep_view(),
            out@ == size_heading() + size_rows(records.take(i as int)),
        decreases results@.len() - i,
    {
        let result = &results[i];
        let zstd = result.find(Algorithm::Zstd);
        let zlib = result.find(Algorithm::Zlib);
        let brotli = result.find(Algorithm::Brotli);
        let original_text = decimal(zstd.original_size);
        let zstd_text = decimal(zstd.compressed_size);
        let zlib_text = decimal(zlib.compressed_size);
        let brotli_text = decimal(brotli.compressed_size);
        append_size_line(
            &mut out,
            result.certificate(),
            result.key_size(),
            original_text.as_str(),
            zstd_text.as_str(),
            zlib_text.as_str(),
            brotli_text.as_str(),
        );
        proof {
            let upto = records.take(i + 1);
            assert(upto.drop_last() =~= records.take(i as int));
            assert(upto.last() == results@[i as int]@);
            assert(out@ =~= size_heading() + size_rows(upto));
        }
        i += 1;
    }
    assert(records.take(i as int) =~= records);
    out
}

/// Renders the table of ratios: heading, then one row per result in the order
/// of `results`, with the cells of `ratios[i]` in row `i`.
pub fn render_ratio_table(results: &[BenchmarkResult], ratios: &[RatioCells]) -> (out: String)
    requires
        results@.len() == ratios@.len(),
    ensures
        out@ == ratio_table(results.deep_view(), ratios.deep_view()),
{
    let mut out = String::new();
    out.append("\nCompression Ratios (compressed/original):\n");
    append_ratio_line(&mut out, "Certificate", "Key Size", "Zstd", "Zlib", "Brotli");
    let rule = dashes(55);
    out.append(rule.as_str());
    out.append("\n");
    assert(out@ =~= ratio_heading());
    let ghost records = results.deep_view();
    let ghost texts = ratios.deep_view();
    let mut i: usize = 0;
    while i < results.len()
        invariant
            i <= results@.len(),
            results@.len() == ratios@.len(),
            records == results.deep_view(),
            texts == ratios.deep_view(),
            out@ == ratio_heading() + ratio_rows(records.take(i as int), texts.take(i as int)),
        decreases results@.len() - i,
    {
        let result = &results[i];
        let cells = &ratios[i];
        append_ratio_line(
            &mut out,
            result.certificate(),
            result.key_size(),
            cells.zstd.as_str(),
            cells.zlib.as_str(),
            cells.brotli.as_str(),
        );
        proof {
            let upto = records.take(i + 1);
            let texts_upto = texts.take(i + 1);
            assert(upto.drop_last() =~= records.take(i as int));
            assert(texts_upto.drop_last() =~= texts.take(i as int));
            assert(upto.last() == results@[i as int]@);
            assert(texts_upto.last() == ratios@[i as int]@);
            assert(out@ =~= ratio_heading() + ratio_rows(upto, texts_upto));
        }
        i += 1;
    }
    assert(records.take(i as int) =~= records);
    assert(texts.take(i as int) =~= texts);
    out
}

/// Rendering depends on the values of the result set alone: two result sets
/// that agree entry by entry, with ratio cells that agree cell by cell, have
/// the same size table and the same ratio table, character for character.
pub proof fn lemma_rendering_is_deterministic(
    first: &[BenchmarkResult],
    second: &[BenchmarkResult],
    first_ratios: &[RatioCells],
    second_ratios: &[RatioCells],
)
    requires
        first@.len() == second@.len(),
        forall|i: int| 0 <= i < first@.len() ==> first@[i]@ == second@[i]@,
        first_ratios@.len() == second_ratios@.len(),
        forall|i: int| 0 <= i < first_ratios@.len() ==> first_ratios@[i]@ == second_ratios@[i]@,
    ensures
        size_table(first.deep_view()) == size_table(second.deep_view()),
        ratio_table(first.deep_view(), first_ratios.deep_view()) == ratio_table(
            second.deep_view(),
            second_ratios.deep_view(),
        ),
{
    assert(first.deep_view() =~= second.deep_view());
    assert(first_ratios.deep_view() =~= second_ratios.deep_view());
}

} // verus!
