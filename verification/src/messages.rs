//! The lines that a run writes beside its tables.

use vstd::prelude::*;
use vstd::string::*;
use crate::scan::FatalError;

verus! {

/// Name of the file that the report is written to, in the working directory.
pub const REPORT_FILE: &'static str = "benchmark_results.json";

/// The text that explains `error` for a run over the directory `cert_dir`.
pub open spec fn fatal_text(error: FatalError, cert_dir: Seq<char>) -> Seq<char> {
    match error {
        FatalError::DirectoryNotFound => "Certificate directory '"@ + cert_dir
            + "' does not exist\nPlease run ./generate_certs.sh first"@,
        FatalError::NoCertificates => "No certificates found to benchmark"@,
    }
}

/// Explains `error` for a run over the directory `cert_dir`. A missing
/// directory is named, and a second line says how to create it.
pub fn fatal_message(error: FatalError, cert_dir: &str) -> (out: String)
    ensures
        out@ == fatal_text(error, cert_dir@),
{
    match error {
        FatalError::DirectoryNotFound => {
            let mut out = "Certificate directory '".to_owned();
            out.append(cert_dir);
            out.append("' does not exist\nPlease run ./generate_certs.sh first");
            out
        },
        FatalError::NoCertificates => "No certificates found to benchmark".to_owned(),
    }
}

/// The line that announces the benchmark of the file `file_name`.
pub fn benchmarking_line(file_name: &str) -> (out: String)
    ensures
        out@ == "Benchmarking "@ + file_name@ + "..."@,
{
    let mut out = "Benchmarking ".to_owned();
    out.append(file_name);
    out.append("...");
    out
}

/// The warning for the expected file `file_name` that is missing.
pub fn warning_line(file_name: &str) -> (out: String)
    ensures
        out@ == "Warning: "@ + file_name@ + " not found"@,
{
    let mut out = "Warning: ".to_owned();
    out.append(file_name);
    out.append(" not found");
    out
}

/// The confirmation that the report was written to [`REPORT_FILE`]; it opens
/// with an empty line.
pub fn saved_line() -> (out: String)
    ensures
        out@ == "\nResults saved to "@ + REPORT_FILE@,
{
    let mut out = "\nResults saved to ".to_owned();
    out.append(REPORT_FILE);
    out
}

} // verus!
