use std::collections::BTreeMap;

use json_split::error::SplitError;
use json_split::naming::OutputNaming;
use json_split::plan::{plan_outputs, OutputRecord};
use json_split::writer::{report_line, step, WriterAction, WriterEvent, WriterState};

fn record(filename: &str, content: &str) -> OutputRecord {
    OutputRecord { filename: filename.to_string(), content: content.to_string() }
}

fn two() -> Vec<OutputRecord> {
    vec![record("0.json", "{\"a\":1}"), record("1.json", "{\"a\":\"é\"}")]
}

struct Outcome {
    state: WriterState,
    files: BTreeMap<String, String>,
    reports: Vec<(usize, usize, bool)>,
    abort: Option<SplitError>,
    probes: usize,
}

fn drive(
    records: &Vec<OutputRecord>,
    dry_run: bool,
    files: BTreeMap<String, String>,
    failing: Option<usize>,
) -> Outcome {
    let mut outcome =
        Outcome { state: WriterState::Ready { next: 0 }, files, reports: vec![], abort: None, probes: 0 };
    let mut event = WriterEvent::Continue;
    for _ in 0..(3 * records.len() + 2) {
        let (next, action) = step(records, dry_run, outcome.state, event);
        outcome.state = next;
        event = match action {
            WriterAction::Probe { index } => {
                outcome.probes += 1;
                WriterEvent::Exists { exists: outcome.files.contains_key(&records[index].filename) }
            }
            WriterAction::Create { index } => {
                if failing == Some(index) {
                    WriterEvent::Written { error: Some("disk full".to_string()) }
                } else {
                    outcome
                        .files
                        .insert(records[index].filename.clone(), records[index].content.clone());
                    WriterEvent::Written { error: None }
                }
            }
            WriterAction::Report { index, bytes, simulated } => {
                outcome.reports.push((index, bytes, simulated));
                WriterEvent::Continue
            }
            WriterAction::Abort { error } => {
                outcome.abort = Some(error);
                return outcome;
            }
            WriterAction::Stop => return outcome,
        };
    }
    panic!("the write step did not come to an end");
}

#[test]
fn ready_probes_the_next_file_in_a_real_run() {
    assert_eq!(
        step(&two(), false, WriterState::Ready { next: 0 }, WriterEvent::Continue),
        (WriterState::Probing { index: 0 }, WriterAction::Probe { index: 0 })
    );
    assert_eq!(
        step(&two(), false, WriterState::Ready { next: 1 }, WriterEvent::Continue),
        (WriterState::Probing { index: 1 }, WriterAction::Probe { index: 1 })
    );
}

#[test]
fn ready_reports_at_once_in_a_dry_run() {
    assert_eq!(
        step(&two(), true, WriterState::Ready { next: 0 }, WriterEvent::Continue),
        (
            WriterState::Ready { next: 1 },
            WriterAction::Report { index: 0, bytes: 7, simulated: true }
        )
    );
}

#[test]
fn ready_past_the_last_record_is_done() {
    assert_eq!(
        step(&two(), false, WriterState::Ready { next: 2 }, WriterEvent::Continue),
        (WriterState::Done, WriterAction::Stop)
    );
    assert_eq!(
        step(&two(), true, WriterState::Ready { next: 2 }, WriterEvent::Continue),
        (WriterState::Done, WriterAction::Stop)
    );
    assert_eq!(
        step(&vec![], false, WriterState::Ready { next: 0 }, WriterEvent::Continue),
        (WriterState::Done, WriterAction::Stop)
    );
}

#[test]
fn an_absent_file_is_created() {
    assert_eq!(
        step(&two(), false, WriterState::Probing { index: 1 }, WriterEvent::Exists { exists: false }),
        (WriterState::Writing { index: 1 }, WriterAction::Create { index: 1 })
    );
}

#[test]
fn an_existing_file_aborts_the_run() {
    assert_eq!(
        step(&two(), false, WriterState::Probing { index: 1 }, WriterEvent::Exists { exists: true }),
        (
            WriterState::Failed,
            WriterAction::Abort {
                error: SplitError::OutputFileExists { filename: "1.json".to_string() }
            }
        )
    );
}

#[test]
fn a_written_file_is_reported_with_its_byte_count() {
    assert_eq!(
        step(&two(), false, WriterState::Writing { index: 1 }, WriterEvent::Written { error: None }),
        (
            WriterState::Ready { next: 2 },
            WriterAction::Report { index: 1, bytes: 10, simulated: false }
        )
    );
}

#[test]
fn a_failed_write_aborts_the_run() {
    assert_eq!(
        step(
            &two(),
            false,
            WriterState::Writing { index: 0 },
            WriterEvent::Written { error: Some("denied".to_string()) }
        ),
        (
            WriterState::Failed,
            WriterAction::Abort {
                error: SplitError::OutputWriteError {
                    filename: "0.json".to_string(),
                    message: "denied".to_string(),
                }
            }
        )
    );
}

#[test]
fn an_answer_that_does_not_fit_leads_to_a_new_probe() {
    let probe = (WriterState::Probing { index: 0 }, WriterAction::Probe { index: 0 });
    assert_eq!(step(&two(), false, WriterState::Probing { index: 0 }, WriterEvent::Continue), probe);
    assert_eq!(
        step(&two(), false, WriterState::Probing { index: 0 }, WriterEvent::Written { error: None }),
        probe
    );
    assert_eq!(step(&two(), false, WriterState::Writing { index: 0 }, WriterEvent::Continue), probe);
    assert_eq!(
        step(&two(), false, WriterState::Writing { index: 0 }, WriterEvent::Exists { exists: false }),
        probe
    );
}

#[test]
fn ended_runs_stay_ended() {
    for event in [
        WriterEvent::Continue,
        WriterEvent::Exists { exists: false },
        WriterEvent::Written { error: None },
    ] {
        assert_eq!(
            step(&two(), false, WriterState::Done, event),
            (WriterState::Done, WriterAction::Stop)
        );
    }
    assert_eq!(
        step(&two(), false, WriterState::Failed, WriterEvent::Exists { exists: false }),
        (WriterState::Failed, WriterAction::Stop)
    );
}

#[test]
fn a_dry_run_never_probes_or_creates() {
    let states = [
        WriterState::Ready { next: 0 },
        WriterState::Probing { index: 0 },
        WriterState::Writing { index: 1 },
        WriterState::Probing { index: 5 },
        WriterState::Done,
        WriterState::Failed,
    ];
    for state in states {
        for event in [
            WriterEvent::Continue,
            WriterEvent::Exists { exists: false },
            WriterEvent::Exists { exists: true },
            WriterEvent::Written { error: None },
            WriterEvent::Written { error: Some("x".to_string()) },
        ] {
            let (_, action) = step(&two(), true, state, event);
            assert!(matches!(action, WriterAction::Report { simulated: true, .. } | WriterAction::Stop));
        }
    }
}

#[test]
fn a_real_run_writes_every_record() {
    let outcome = drive(&two(), false, BTreeMap::new(), None);
    assert_eq!(outcome.state, WriterState::Done);
    assert_eq!(outcome.abort, None);
    assert_eq!(outcome.reports, vec![(0, 7, false), (1, 10, false)]);
    assert_eq!(outcome.files.len(), 2);
    assert_eq!(outcome.files["0.json"], "{\"a\":1}");
    assert_eq!(outcome.files["1.json"], "{\"a\":\"é\"}");
}

#[test]
fn a_dry_run_reports_what_a_real_run_reports() {
    let real = drive(&two(), false, BTreeMap::new(), None);
    let dry = drive(&two(), true, BTreeMap::new(), None);
    assert_eq!(dry.state, WriterState::Done);
    assert_eq!(dry.probes, 0);
    assert!(dry.files.is_empty());
    assert_eq!(dry.reports, vec![(0, 7, true), (1, 10, true)]);
    let plain = |reports: &Vec<(usize, usize, bool)>| -> Vec<(usize, usize)> {
        reports.iter().map(|r| (r.0, r.1)).collect()
    };
    assert_eq!(plain(&dry.reports), plain(&real.reports));
}

#[test]
fn a_dry_run_does_not_mind_existing_files() {
    let mut files = BTreeMap::new();
    files.insert("0.json".to_string(), "old".to_string());
    let dry = drive(&two(), true, files.clone(), None);
    assert_eq!(dry.state, WriterState::Done);
    assert_eq!(dry.abort, None);
    assert_eq!(dry.files, files);
    assert_eq!(dry.reports.len(), 2);
}

#[test]
fn an_existing_first_file_stops_the_run_before_any_write() {
    let mut files = BTreeMap::new();
    files.insert("0.json".to_string(), "old".to_string());
    let outcome = drive(&two(), false, files.clone(), None);
    assert_eq!(outcome.state, WriterState::Failed);
    assert_eq!(outcome.abort, Some(SplitError::OutputFileExists { filename: "0.json".to_string() }));
    assert_eq!(outcome.files, files);
    assert_eq!(outcome.reports, vec![]);
}

#[test]
fn an_existing_later_file_leaves_the_earlier_ones_written() {
    let mut files = BTreeMap::new();
    files.insert("1.json".to_string(), "old".to_string());
    let outcome = drive(&two(), false, files, None);
    assert_eq!(outcome.state, WriterState::Failed);
    assert_eq!(outcome.abort, Some(SplitError::OutputFileExists { filename: "1.json".to_string() }));
    assert_eq!(outcome.reports, vec![(0, 7, false)]);
    assert_eq!(outcome.files["0.json"], "{\"a\":1}");
    assert_eq!(outcome.files["1.json"], "old");
}

#[test]
fn a_name_that_comes_twice_stops_the_run_at_the_second() {
    let records = vec![record("same.json", "1"), record("same.json", "2"), record("c.json", "3")];
    let outcome = drive(&records, false, BTreeMap::new(), None);
    assert_eq!(
        outcome.abort,
        Some(SplitError::OutputFileExists { filename: "same.json".to_string() })
    );
    assert_eq!(outcome.reports, vec![(0, 1, false)]);
    assert_eq!(outcome.files.len(), 1);
    assert_eq!(outcome.files["same.json"], "1");
}

#[test]
fn a_failing_write_stops_the_run() {
    let outcome = drive(&two(), false, BTreeMap::new(), Some(1));
    assert_eq!(outcome.state, WriterState::Failed);
    assert_eq!(
        outcome.abort,
        Some(SplitError::OutputWriteError {
            filename: "1.json".to_string(),
            message: "disk full".to_string(),
        })
    );
    assert_eq!(outcome.reports, vec![(0, 7, false)]);
}

#[test]
fn a_planned_batch_is_written_as_planned() {
    let input = r#"[{"j":"{\"a\":1}"},{"j":"{\"a\":2}"}]"#;
    let records =
        plan_outputs(input.as_bytes(), "j", &OutputNaming::ArrayIndex { padding: None }).unwrap();
    let outcome = drive(&records, false, BTreeMap::new(), None);
    assert_eq!(outcome.state, WriterState::Done);
    assert_eq!(outcome.files.len(), 2);
    assert_eq!(outcome.files["0.json"], "{\"a\":1}");
    assert_eq!(outcome.files["1.json"], "{\"a\":2}");
}

#[test]
fn a_rejected_batch_leaves_nothing_to_write() {
    let input = r#"[{"j":"{\"a\":1}"},{"x":1}]"#;
    let plan = plan_outputs(input.as_bytes(), "j", &OutputNaming::ArrayIndex { padding: None });
    let failure = plan.unwrap_err();
    assert_eq!(failure.error, SplitError::ExtractionCountMismatch { expected: 2, actual: 1 });
}

#[test]
fn report_lines_tell_written_from_simulated() {
    assert_eq!(report_line("0.json", 7, false), "Wrote 7 bytes to file: 0.json");
    assert_eq!(report_line("0.json", 7, true), "Would have written 7 bytes to file: 0.json");
    assert_eq!(report_line("a b.json", 1024, false), "Wrote 1024 bytes to file: a b.json");
    assert_eq!(report_line("", 0, true), "Would have written 0 bytes to file: ");
}
