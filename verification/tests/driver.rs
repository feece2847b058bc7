use hdfs_log_loader::pipeline::{LineOutcome, Pipeline, RunSummary};
use hdfs_log_loader::record::LogRecord;

fn valid_line(i: usize) -> String {
    format!(
        r#"{{"timestamp":{},"severity_text":"INFO","body":"line {}","tenant_id":{}}}"#,
        i,
        i,
        i % 5
    )
}

/// Drives `n` valid lines through the pipeline, confirming every batch,
/// and returns the emitted batches and the summary.
fn run_valid(n: usize, batch_size: usize, row_cap: Option<usize>) -> (Vec<Vec<LogRecord>>, RunSummary) {
    let mut p = Pipeline::new(batch_size, row_cap);
    let mut batches: Vec<Vec<LogRecord>> = Vec::new();
    let mut i: usize = 0;
    while i < n && p.wants_input() {
        i += 1;
        match p.offer_line(&valid_line(i)) {
            LineOutcome::Buffered => {}
            LineOutcome::ParseFailed(e) => panic!("unexpected parse failure: line {}", e.line),
            LineOutcome::BatchReady(b) => {
                batches.push(b);
                p.confirm_inserted();
            }
        }
    }
    if let Some(b) = p.finish() {
        batches.push(b);
        p.confirm_inserted();
    }
    (batches, p.summary())
}

#[test]
fn empty_input_yields_no_batches() {
    let (batches, s) = run_valid(0, 10, None);
    assert_eq!(batches.len(), 0);
    assert_eq!(s.total_read, 0);
    assert_eq!(s.total_inserted, 0);
}

#[test]
fn one_valid_one_malformed() {
    let mut p = Pipeline::new(10, None);
    let first = r#"{"timestamp":1,"severity_text":"INFO","body":"a","tenant_id":7}"#;
    assert!(matches!(p.offer_line(first), LineOutcome::Buffered));
    match p.offer_line("not json") {
        LineOutcome::ParseFailed(e) => assert_eq!(e.line, 2),
        _ => panic!("malformed line must fail to parse"),
    }
    let b = p.finish().expect("one buffered record remains");
    assert_eq!(b.len(), 1);
    assert_eq!(b[0].timestamp, 1);
    assert_eq!(b[0].severity_text, "INFO");
    assert_eq!(b[0].body, "a");
    assert_eq!(b[0].tenant_id, 7);
    p.confirm_inserted();
    let s = p.summary();
    assert_eq!(s.total_read, 2);
    assert_eq!(s.total_inserted, 1);
}

#[test]
fn three_full_batches() {
    let (batches, s) = run_valid(150000, 50000, None);
    assert_eq!(batches.len(), 3);
    for b in &batches {
        assert_eq!(b.len(), 50000);
    }
    assert_eq!(s.total_read, 150000);
    assert_eq!(s.total_inserted, 150000);
}

#[test]
fn batch_count_is_ceiling() {
    let (batches, s) = run_valid(25, 10, None);
    assert_eq!(batches.len(), 3);
    assert_eq!(batches[0].len(), 10);
    assert_eq!(batches[1].len(), 10);
    assert_eq!(batches[2].len(), 5);
    assert_eq!(s.total_inserted, 25);
}

#[test]
fn exact_multiple_leaves_no_short_batch() {
    let (batches, s) = run_valid(20, 10, None);
    assert_eq!(batches.len(), 2);
    assert_eq!(batches[0].len(), 10);
    assert_eq!(batches[1].len(), 10);
    assert_eq!(s.total_read, 20);
    assert_eq!(s.total_inserted, 20);
}

#[test]
fn batch_size_one() {
    let (batches, s) = run_valid(3, 1, None);
    assert_eq!(batches.len(), 3);
    assert_eq!(s.total_inserted, 3);
}

#[test]
fn max_rows_smaller_than_batch() {
    let (batches, s) = run_valid(100, 10, Some(5));
    assert_eq!(batches.len(), 1);
    assert_eq!(batches[0].len(), 5);
    assert_eq!(s.total_read, 5);
    assert_eq!(s.total_inserted, 5);
}

#[test]
fn max_rows_counts_consumed_lines_not_inserted() {
    let mut p = Pipeline::new(10, Some(3));
    let mut parse_errors: usize = 0;
    let bad_then_good = ["not json", "also not json", ""];
    let mut i: usize = 0;
    // The cap truncates the input: after three consumed lines, valid or
    // not, the driver takes no more.
    while p.wants_input() {
        let line = if i < 2 {
            bad_then_good[i].to_string()
        } else {
            valid_line(i)
        };
        i += 1;
        match p.offer_line(&line) {
            LineOutcome::ParseFailed(_) => parse_errors += 1,
            LineOutcome::Buffered => {}
            LineOutcome::BatchReady(_) => panic!("batch of 10 cannot fill in 3 lines"),
        }
    }
    assert_eq!(i, 3);
    let b = p.finish().expect("the one valid record remains");
    assert_eq!(b.len(), 1);
    p.confirm_inserted();
    let s = p.summary();
    assert_eq!(parse_errors, 2);
    assert_eq!(s.total_read, 3);
    assert_eq!(s.total_inserted, 1);
    assert_eq!(s.total_read - s.total_inserted, parse_errors);
}

#[test]
fn ordering_preserved_across_batches() {
    let (batches, _) = run_valid(25, 10, None);
    let mut expected: i64 = 1;
    for b in &batches {
        for rec in b {
            assert_eq!(rec.timestamp, expected);
            assert_eq!(rec.body, format!("line {}", expected));
            expected += 1;
        }
    }
    assert_eq!(expected, 26);
}

#[test]
fn sink_failure_on_second_batch_keeps_first_batch_counts() {
    let mut p = Pipeline::new(50000, None);
    let mut batches_seen: usize = 0;
    let mut i: usize = 0;
    let mut halted = false;
    while i < 150000 && p.wants_input() {
        i += 1;
        match p.offer_line(&valid_line(i)) {
            LineOutcome::Buffered => {}
            LineOutcome::ParseFailed(_) => panic!("all lines are valid"),
            LineOutcome::BatchReady(b) => {
                batches_seen += 1;
                assert_eq!(b.len(), 50000);
                if batches_seen == 2 {
                    // The sink reports a fatal error: do not confirm,
                    // stop the run where it stands.
                    halted = true;
                    break;
                }
                p.confirm_inserted();
            }
        }
    }
    assert!(halted);
    let s = p.summary();
    assert_eq!(s.total_read, 100000);
    assert_eq!(s.total_inserted, 50000);
}

#[test]
fn counters_before_confirmation() {
    let mut p = Pipeline::new(2, None);
    assert!(matches!(p.offer_line(&valid_line(1)), LineOutcome::Buffered));
    let out = p.offer_line(&valid_line(2));
    let b = match out {
        LineOutcome::BatchReady(b) => b,
        _ => panic!("second record fills the batch"),
    };
    assert_eq!(b.len(), 2);
    // Not yet confirmed: nothing counts as inserted, and no further
    // line is accepted while the batch is in flight.
    assert!(p.is_flushing());
    assert!(!p.wants_input());
    assert_eq!(p.total_inserted(), 0);
    p.confirm_inserted();
    assert!(!p.is_flushing());
    assert_eq!(p.total_read(), 2);
    assert_eq!(p.total_inserted(), 2);
}
