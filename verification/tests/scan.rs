use certbench::messages::{
    benchmarking_line, fatal_message, saved_line, warning_line, REPORT_FILE,
};
use certbench::scan::{
    advance, cert_files, directive, CertFile, Directive, FatalError, ScanEvent, ScanState,
    Settled, Step,
};

/// Runs a scan to its end over a directory in which the files of `present`
/// exist, as a caller would, and returns the entries benchmarked, the
/// entries warned about, and the directive that ended the run.
fn run_scan(dir_exists: bool, present: &[&str]) -> (Vec<CertFile>, Vec<CertFile>, Directive) {
    let table = cert_files();
    let mut benchmarked = Vec::new();
    let mut warned = Vec::new();
    let mut state = ScanState::Start;
    let mut asked = 0;
    loop {
        asked += 1;
        assert!(asked <= table.len() + 2, "the scan does not end");
        let event = match directive(state) {
            Directive::CheckDirectory => ScanEvent::Directory { exists: dir_exists },
            Directive::Probe { index } => {
                assert!(dir_exists, "a file is probed in a missing directory");
                ScanEvent::File { present: present.contains(&table[index].file_name.as_str()) }
            }
            end => return (benchmarked, warned, end),
        };
        let step = advance(state, event, table.len());
        match step.settled {
            Some(Settled::Benchmark { index }) => benchmarked.push(table[index].clone()),
            Some(Settled::Skip { index }) => warned.push(table[index].clone()),
            None => {}
        }
        state = step.state;
    }
}

fn names(files: &[CertFile]) -> Vec<&str> {
    files.iter().map(|f| f.file_name.as_str()).collect()
}

#[test]
fn table_lists_the_six_expected_files() {
    let table: Vec<(String, String)> =
        cert_files().into_iter().map(|f| (f.file_name, f.key_size)).collect();
    let expected: Vec<(String, String)> = [
        ("sample512.crt", "512"),
        ("sample768.crt", "768"),
        ("sample1024.crt", "1024"),
        ("mlkem512.crt", "512"),
        ("mlkem768.crt", "768"),
        ("mlkem1024.crt", "1024"),
    ]
    .iter()
    .map(|(name, size)| (name.to_string(), size.to_string()))
    .collect();
    assert_eq!(table, expected);
}

#[test]
fn discovery_keeps_the_present_files_in_table_order() {
    let (benchmarked, warned, end) = run_scan(true, &["mlkem1024.crt", "sample512.crt"]);
    assert_eq!(names(&benchmarked), vec!["sample512.crt", "mlkem1024.crt"]);
    assert_eq!(benchmarked[0].key_size, "512");
    assert_eq!(benchmarked[1].key_size, "1024");
    assert_eq!(
        names(&warned),
        vec!["sample768.crt", "sample1024.crt", "mlkem512.crt", "mlkem768.crt"]
    );
    assert_eq!(end, Directive::Report);
}

#[test]
fn discovery_of_all_six_files() {
    let all = [
        "sample512.crt",
        "sample768.crt",
        "sample1024.crt",
        "mlkem512.crt",
        "mlkem768.crt",
        "mlkem1024.crt",
    ];
    let (benchmarked, warned, end) = run_scan(true, &all);
    assert_eq!(names(&benchmarked), all.to_vec());
    assert!(warned.is_empty());
    assert_eq!(end, Directive::Report);
}

#[test]
fn discovery_ignores_files_outside_the_table() {
    let (benchmarked, warned, end) = run_scan(true, &["other.crt", "mlkem768.crt"]);
    assert_eq!(names(&benchmarked), vec!["mlkem768.crt"]);
    assert_eq!(warned.len(), 5);
    assert_eq!(end, Directive::Report);
}

#[test]
fn discovery_without_any_expected_file_fails() {
    let (benchmarked, warned, end) = run_scan(true, &[]);
    assert!(benchmarked.is_empty());
    assert_eq!(warned.len(), 6);
    assert_eq!(end, Directive::Fail(FatalError::NoCertificates));
    assert_eq!(FatalError::NoCertificates.exit_code(), 1);
}

#[test]
fn discovery_in_a_missing_directory_fails_before_scanning() {
    let (benchmarked, warned, end) = run_scan(false, &["sample512.crt"]);
    assert!(benchmarked.is_empty());
    assert!(warned.is_empty());
    assert_eq!(end, Directive::Fail(FatalError::DirectoryNotFound));
    assert_eq!(FatalError::DirectoryNotFound.exit_code(), 1);
}

#[test]
fn scan_starts_with_the_directory() {
    assert_eq!(directive(ScanState::Start), Directive::CheckDirectory);
    assert_eq!(
        advance(ScanState::Start, ScanEvent::Directory { exists: true }, 6),
        Step { state: ScanState::Probing { next: 0, found: false }, settled: None }
    );
    assert_eq!(
        advance(ScanState::Start, ScanEvent::Directory { exists: false }, 6),
        Step { state: ScanState::Failed(FatalError::DirectoryNotFound), settled: None }
    );
}

#[test]
fn scan_settles_the_probed_entry() {
    let probing = ScanState::Probing { next: 2, found: false };
    assert_eq!(directive(probing), Directive::Probe { index: 2 });
    assert_eq!(
        advance(probing, ScanEvent::File { present: true }, 6),
        Step {
            state: ScanState::Probing { next: 3, found: true },
            settled: Some(Settled::Benchmark { index: 2 }),
        }
    );
    assert_eq!(
        advance(probing, ScanEvent::File { present: false }, 6),
        Step {
            state: ScanState::Probing { next: 3, found: false },
            settled: Some(Settled::Skip { index: 2 }),
        }
    );
}

#[test]
fn scan_remembers_an_earlier_find() {
    let probing = ScanState::Probing { next: 4, found: true };
    assert_eq!(
        advance(probing, ScanEvent::File { present: false }, 6).state,
        ScanState::Probing { next: 5, found: true }
    );
}

#[test]
fn scan_ends_after_the_last_entry() {
    let last_found = ScanState::Probing { next: 5, found: true };
    let last_none = ScanState::Probing { next: 5, found: false };
    assert_eq!(
        advance(last_found, ScanEvent::File { present: false }, 6),
        Step { state: ScanState::Reporting, settled: Some(Settled::Skip { index: 5 }) }
    );
    assert_eq!(
        advance(last_none, ScanEvent::File { present: true }, 6),
        Step { state: ScanState::Reporting, settled: Some(Settled::Benchmark { index: 5 }) }
    );
    assert_eq!(
        advance(last_none, ScanEvent::File { present: false }, 6),
        Step {
            state: ScanState::Failed(FatalError::NoCertificates),
            settled: Some(Settled::Skip { index: 5 }),
        }
    );
    assert_eq!(directive(ScanState::Reporting), Directive::Report);
    assert_eq!(
        directive(ScanState::Failed(FatalError::NoCertificates)),
        Directive::Fail(FatalError::NoCertificates)
    );
}

#[test]
fn scan_of_an_empty_table_finds_nothing() {
    assert_eq!(
        advance(ScanState::Start, ScanEvent::Directory { exists: true }, 0),
        Step { state: ScanState::Failed(FatalError::NoCertificates), settled: None }
    );
}

#[test]
fn scan_ignores_an_event_that_answers_nothing() {
    let probing = ScanState::Probing { next: 1, found: true };
    let ends = [
        ScanState::Reporting,
        ScanState::Failed(FatalError::DirectoryNotFound),
        ScanState::Failed(FatalError::NoCertificates),
    ];
    for exists in [false, true] {
        let event = ScanEvent::Directory { exists };
        assert_eq!(advance(probing, event, 6), Step { state: probing, settled: None });
        for end in ends {
            assert_eq!(advance(end, event, 6), Step { state: end, settled: None });
        }
    }
    for present in [false, true] {
        let event = ScanEvent::File { present };
        let start = ScanState::Start;
        assert_eq!(advance(start, event, 6), Step { state: start, settled: None });
        for end in ends {
            assert_eq!(advance(end, event, 6), Step { state: end, settled: None });
        }
    }
}

#[test]
fn scan_stops_at_the_end_of_the_table_whatever_the_index() {
    let beyond = ScanState::Probing { next: usize::MAX, found: false };
    assert_eq!(
        advance(beyond, ScanEvent::File { present: true }, 6).state,
        ScanState::Reporting
    );
}

#[test]
fn fatal_messages() {
    assert_eq!(
        fatal_message(FatalError::DirectoryNotFound, "certs"),
        "Certificate directory 'certs' does not exist\nPlease run ./generate_certs.sh first"
    );
    assert_eq!(
        fatal_message(FatalError::NoCertificates, "certs"),
        "No certificates found to benchmark"
    );
}

#[test]
fn progress_lines() {
    assert_eq!(benchmarking_line("sample512.crt"), "Benchmarking sample512.crt...");
    assert_eq!(warning_line("mlkem768.crt"), "Warning: mlkem768.crt not found");
    assert_eq!(REPORT_FILE, "benchmark_results.json");
    assert_eq!(saved_line(), "\nResults saved to benchmark_results.json");
}

#[test]
fn discovery_is_the_table_filtered_by_presence() {
    let table = cert_files();
    for mask in 0u32..64 {
        let present: Vec<&str> = table
            .iter()
            .enumerate()
            .filter(|(i, _)| mask & (1 << i) != 0)
            .map(|(_, f)| f.file_name.as_str())
            .collect();
        let (benchmarked, warned, end) = run_scan(true, &present);
        assert_eq!(names(&benchmarked), present);
        assert_eq!(benchmarked.len() + warned.len(), table.len());
        for file in &warned {
            assert!(!present.contains(&file.file_name.as_str()));
        }
        if mask == 0 {
            assert_eq!(end, Directive::Fail(FatalError::NoCertificates));
        } else {
            assert_eq!(end, Directive::Report);
        }
    }
}
