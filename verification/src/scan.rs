//! Certificate discovery: the table of expected files, and the decisions of a
//! run as it learns which of them exist.
//!
//! The caller does the looking: it asks [`directive`] what to find out next,
//! finds it out, and reports the answer to [`advance`].

use vstd::prelude::*;
use vstd::string::*;

verus! {

/// One expected certificate file.
#[derive(Clone, PartialEq, Eq, Debug)]
pub struct CertFile {
    /// Name of the file, directly under the certificate directory.
    pub file_name: String,
    /// Nominal key size of the certificate, as a label.
    pub key_size: String,
}

/// The mathematical value of a [`CertFile`].
pub struct CertEntry {
    pub file_name: Seq<char>,
    pub key_size: Seq<char>,
}

impl View for CertFile {
    type V = CertEntry;

    open spec fn view(&self) -> CertEntry {
        CertEntry { file_name: self.file_name@, key_size: self.key_size@ }
    }
}

impl DeepView for CertFile {
    type V = CertEntry;

    open spec fn deep_view(&self) -> CertEntry {
        self@
    }
}

/// The expected files, in the order in which they are scanned and reported.
pub open spec fn cert_table() -> Seq<CertEntry> {
    seq![
        CertEntry { file_name: "sample512.crt"@, key_size: "512"@ },
        CertEntry { file_name: "sample768.crt"@, key_size: "768"@ },
        CertEntry { file_name: "sample1024.crt"@, key_size: "1024"@ },
        CertEntry { file_name: "mlkem512.crt"@, key_size: "512"@ },
        CertEntry { file_name: "mlkem768.crt"@, key_size: "768"@ },
        CertEntry { file_name: "mlkem1024.crt"@, key_size: "1024"@ },
    ]
}

fn cert_file(file_name: &str, key_size: &str) -> (out: CertFile)
    ensures
        out@ == (CertEntry { file_name: file_name@, key_size: key_size@ }),
{
    CertFile { file_name: file_name.to_owned(), key_size: key_size.to_owned() }
}

/// The table of expected certificate files.
pub fn cert_files() -> (out: Vec<CertFile>)
    ensures
        out.deep_view() == cert_table(),
{
    let mut out: Vec<CertFile> = Vec::new();
    out.push(cert_file("sample512.crt", "512"));
    out.push(cert_file("sample768.crt", "768"));
    out.push(cert_file("sample1024.crt", "1024"));
    out.push(cert_file("mlkem512.crt", "512"));
    out.push(cert_file("mlkem768.crt", "768"));
    out.push(cert_file("mlkem1024.crt", "1024"));
    assert(out.deep_view() =~= cert_table());
    out
}

/// Why a run ends without a report.
#[derive(Clone, Copy, PartialEq, Eq, Debug, Structural)]
pub enum FatalError {
    /// The certificate directory does not exist.
    DirectoryNotFound,
    /// The directory exists, but none of the expected files is in it.
    NoCertificates,
}

/// Where a scan stands.
#[derive(Clone, Copy, PartialEq, Eq, Debug, Structural)]
pub enum ScanState {
    /// Nothing is known yet.
    Start,
    /// The directory exists and the table entries before `next` are settled;
    /// `found` tells whether any of them was present.
    Probing { next: usize, found: bool },
    /// Every entry is settled and at least one file was present.
    Reporting,
    /// The run has failed.
    Failed(FatalError),
}

/// What the caller found out.
#[derive(Clone, Copy, PartialEq, Eq, Debug, Structural)]
pub enum ScanEvent {
    /// Whether the certificate directory exists.
    Directory { exists: bool },
    /// Whether the file of the table entry being probed exists.
    File { present: bool },
}

/// What the caller is to do next.
#[derive(Clone, Copy, PartialEq, Eq, Debug, Structural)]
pub enum Directive {
    /// Find out whether the certificate directory exists.
    CheckDirectory,
    /// Find out whether the file of table entry `index` exists.
    Probe { index: usize },
    /// Print the tables and write the report.
    Report,
    /// Stop with this error; nothing is reported.
    Fail(FatalError),
}

/// What becomes of a table entry once its presence is known.
#[derive(Clone, Copy, PartialEq, Eq, Debug, Structural)]
pub enum Settled {
    /// The file is there: it is benchmarked.
    Benchmark { index: usize },
    /// The file is missing: a warning is logged and the entry is skipped.
    Skip { index: usize },
}

/// The result of one event: the new state, and the table entry that the event
/// settled, if it settled one.
#[derive(Clone, Copy, PartialEq, Eq, Debug, Structural)]
pub struct Step {
    pub state: ScanState,
    pub settled: Option<Settled>,
}

/// The request that is pending in `state`.
pub open spec fn spec_directive(state: ScanState) -> Directive {
    match state {
        ScanState::Start => Directive::CheckDirectory,
        ScanState::Probing { next, found } => Directive::Probe { index: next },
        ScanState::Reporting => Directive::Report,
        ScanState::Failed(error) => Directive::Fail(error),
    }
}

/// What the caller is to do in `state`.
#[verifier::when_used_as_spec(spec_directive)]
pub fn directive(state: ScanState) -> (out: Directive)
    ensures
        out == spec_directive(state),
{
    match state {
        ScanState::Start => Directive::CheckDirectory,
        ScanState::Probing { next, found } => Directive::Probe { index: next },
        ScanState::Reporting => Directive::Report,
        ScanState::Failed(error) => Directive::Fail(error),
    }
}

/// The state after entry `index` of a table of `table_len` entries is settled,
/// when `found` tells whether it or an earlier one was present: the next entry
/// is probed while there is one; after the last, the run reports if any file
/// was found and fails otherwise.
pub open spec fn after_entry(index: int, found: bool, table_len: int) -> ScanState {
    if index + 1 < table_len {
        ScanState::Probing { next: (index + 1) as usize, found }
    } else if found {
        ScanState::Reporting
    } else {
        ScanState::Failed(FatalError::NoCertificates)
    }
}

/// The transition function of a scan over a table of `table_len` entries.
///
/// A missing directory fails the run before any file is probed. A file event
/// settles the entry being probed: a present file is to be benchmarked, a
/// missing one is skipped with a warning. An event that does not answer the
/// pending request changes nothing.
pub open spec fn spec_advance(state: ScanState, event: ScanEvent, table_len: usize) -> Step {
    match (state, event) {
        (ScanState::Start, ScanEvent::Directory { exists }) => Step {
            state: if exists {
                after_entry(-1, false, table_len as int)
            } else {
                ScanState::Failed(FatalError::DirectoryNotFound)
            },
            settled: None,
        },
        (ScanState::Probing { next, found }, ScanEvent::File { present }) => Step {
            state: after_entry(next as int, found || present, table_len as int),
            settled: Some(
                if present {
                    Settled::Benchmark { index: next }
                } else {
                    Settled::Skip { index: next }
                },
            ),
        },
        _ => Step { state, settled: None },
    }
}

fn settle(index: usize, found: bool, table_len: usize) -> (out: ScanState)
    ensures
        out == after_entry(index as int, found, table_len as int),
{
    if index < table_len && index + 1 < table_len {
        ScanState::Probing { next: index + 1, found }
    } else if found {
        ScanState::Reporting
    } else {
        ScanState::Failed(FatalError::NoCertificates)
    }
}

/// Takes one event into account.
#[verifier::when_used_as_spec(spec_advance)]
pub fn advance(state: ScanState, event: ScanEvent, table_len: usize) -> (out: Step)
    ensures
        out == spec_advance(state, event, table_len),
{
    match (state, event) {
        (ScanState::Start, ScanEvent::Directory { exists }) => {
            if !exists {
                Step { state: ScanState::Failed(FatalError::DirectoryNotFound), settled: None }
            } else if table_len > 0 {
                Step { state: ScanState::Probing { next: 0, found: false }, settled: None }
            } else {
                Step { state: ScanState::Failed(FatalError::NoCertificates), settled: None }
            }
        },
        (ScanState::Probing { next, found }, ScanEvent::File { present }) => {
            let settled = if present {
                Settled::Benchmark { index: next }
            } else {
                Settled::Skip { index: next }
            };
            Step { state: settle(next, found || present, table_len), settled: Some(settled) }
        },
        _ => Step { state, settled: None },
    }
}

impl FatalError {
    /// The status with which the process ends on this error.
    pub open spec fn spec_exit_code(self) -> i32 {
        1
    }

    /// The status with which the process ends on this error.
    #[verifier::when_used_as_spec(spec_exit_code)]
    pub fn exit_code(self) -> (out: i32)
        ensures
            out == self.spec_exit_code(),
    {
        1
    }
}

/// Whether any flag of `present` is set.
pub open spec fn any_present(present: Seq<bool>) -> bool {
    exists|i: int| 0 <= i < present.len() && present[i]
}

/// The state of a scan over `table_len` entries whose directory exists, once
/// the presence of its first `present.len()` entries has been reported as
/// `present` says.
pub open spec fn scanned(present: Seq<bool>, table_len: usize) -> ScanState
    decreases present.len(),
{
    if present.len() == 0 {
        spec_advance(ScanState::Start, ScanEvent::Directory { exists: true }, table_len).state
    } else {
        spec_advance(
            scanned(present.drop_last(), table_len),
            ScanEvent::File { present: present.last() },
            table_len,
        ).state
    }
}

proof fn lemma_scanned(present: Seq<bool>, table_len: usize)
    requires
        present.len() <= table_len,
    ensures
        scanned(present, table_len) == if present.len() < table_len {
            ScanState::Probing { next: present.len() as usize, found: any_present(present) }
        } else if any_present(present) {
            ScanState::Reporting
        } else {
            ScanState::Failed(FatalError::NoCertificates)
        },
    decreases present.len(),
{
    if present.len() > 0 {
        let before = present.drop_last();
        lemma_scanned(before, table_len);
        if any_present(before) {
            let i = choose|i: int| 0 <= i < before.len() && before[i];
            assert(present[i]);
        }
        if present.last() {
            assert(present[present.len() - 1]);
        }
        if any_present(present) && !present.last() {
            let i = choose|i: int| 0 <= i < present.len() && present[i];
            assert(before[i]);
        }
        assert(any_present(present) == (any_present(before) || present.last()));
    }
}

/// A scan visits the table in order and decides for each entry by its own
/// presence alone.
///
/// When the directory exists and the presence of entry `i` is reported as
/// `present[i]`, for every entry of the table in turn, then entry `i` is the
/// one probed after the first `i` reports, it is benchmarked if `present[i]`
/// and skipped otherwise, and after the last report the run is told to report
/// if any file was present and fails for want of certificates if none was.
pub proof fn lemma_scan_follows_table(present: Seq<bool>, table_len: usize)
    requires
        present.len() == table_len,
    ensures
        forall|i: int|
            0 <= i < table_len ==> {
                let before = #[trigger] scanned(present.take(i), table_len);
                &&& spec_directive(before) == Directive::Probe { index: i as usize }
                &&& spec_advance(before, ScanEvent::File { present: present[i] }, table_len).settled
                    == Some(
                    if present[i] {
                        Settled::Benchmark { index: i as usize }
                    } else {
                        Settled::Skip { index: i as usize }
                    },
                )
            },
        spec_directive(scanned(present, table_len)) == if any_present(present) {
            Directive::Report
        } else {
            Directive::Fail(FatalError::NoCertificates)
        },
{
    lemma_scanned(present, table_len);
    assert forall|i: int| 0 <= i < table_len implies {
        let before = #[trigger] scanned(present.take(i), table_len);
        &&& spec_directive(before) == Directive::Probe { index: i as usize }
        &&& spec_advance(before, ScanEvent::File { present: present[i] }, table_len).settled
            == Some(
            if present[i] {
                Settled::Benchmark { index: i as usize }
            } else {
                Settled::Skip { index: i as usize }
            },
        )
    } by {
        lemma_scanned(present.take(i), table_len);
    }
}

/// A missing directory fails the run at once, and a run that has been told to
/// report or has failed stays so whatever is reported to it: no file is probed
/// after that.
pub proof fn lemma_end_is_final(event: ScanEvent, error: FatalError, table_len: usize)
    ensures
        spec_advance(ScanState::Start, ScanEvent::Directory { exists: false }, table_len) == (Step {
            state: ScanState::Failed(FatalError::DirectoryNotFound),
            settled: None,
        }),
        spec_advance(ScanState::Failed(error), event, table_len) == (Step {
            state: ScanState::Failed(error),
            settled: None,
        }),
        spec_advance(ScanState::Reporting, event, table_len) == (Step {
            state: ScanState::Reporting,
            settled: None,
        }),
{
}

} // verus!
