//! The write step against a model of the files it works on.
//!
//! The model keeps, for each file name, the content of the file. It answers
//! a probe truthfully, and a request to create a file either carries it out
//! or fails and leaves behind what the failure is said to leave. Driving the
//! decisions of [`crate::writer`] against it shows what a run does to files.

use vstd::prelude::*;
use crate::plan::OutputRecord;
use crate::writer::{byte_len, spec_begin, spec_step, WriterAction, WriterEvent, WriterState};

verus! {

/// What a failing write reports, and what it leaves under the file's name,
/// if anything.
pub struct WriteFailure {
    pub message: String,
    pub leftover: Option<String>,
}

/// The files after `action`, and the answer to it. The write of the record
/// at `index` fails where `failures` has an entry for `index`.
pub open spec fn spec_answer(
    records: Seq<OutputRecord>,
    failures: Map<int, WriteFailure>,
    files: Map<Seq<char>, Seq<char>>,
    action: WriterAction,
) -> (Map<Seq<char>, Seq<char>>, WriterEvent) {
    match action {
        WriterAction::Probe { index } => (
            files,
            WriterEvent::Exists { exists: files.dom().contains(records[index as int].filename@) },
        ),
        WriterAction::Create { index } => if failures.dom().contains(index as int) {
            (
                match failures[index as int].leftover {
                    Some(partial) => files.insert(records[index as int].filename@, partial@),
                    None => files,
                },
                WriterEvent::Written { error: Some(failures[index as int].message) },
            )
        } else {
            (
                files.insert(records[index as int].filename@, records[index as int].content@),
                WriterEvent::Written { error: None },
            )
        },
        _ => (files, WriterEvent::Continue),
    }
}

/// Up to `fuel` decisions, each followed by the model's answer: the state
/// reached, the files then, and the reports made on the way, each as the
/// index of its record and the number of bytes.
pub open spec fn spec_drive(
    records: Seq<OutputRecord>,
    dry_run: bool,
    failures: Map<int, WriteFailure>,
    state: WriterState,
    event: WriterEvent,
    files: Map<Seq<char>, Seq<char>>,
    fuel: nat,
) -> (WriterState, Map<Seq<char>, Seq<char>>, Seq<(usize, usize)>)
    decreases fuel,
{
    if fuel == 0 {
        (state, files, Seq::empty())
    } else {
        let (next, action) = spec_step(records, dry_run, state, event);
        match action {
            WriterAction::Stop => (next, files, Seq::empty()),
            WriterAction::Abort { error } => (next, files, Seq::empty()),
            WriterAction::Report { index, bytes, simulated } => {
                let rest = spec_drive(
                    records,
                    dry_run,
                    failures,
                    next,
                    WriterEvent::Continue,
                    files,
                    (fuel - 1) as nat,
                );
                (rest.0, rest.1, seq![(index, bytes)] + rest.2)
            },
            _ => {
                let answer = spec_answer(records, failures, files, action);
                spec_drive(records, dry_run, failures, next, answer.1, answer.0, (fuel - 1) as nat)
            },
        }
    }
}

/// One report for each record from `from` on: its index and its length in
/// bytes.
pub open spec fn reports_from(records: Seq<OutputRecord>, from: nat) -> Seq<(usize, usize)> {
    Seq::new(
        (records.len() - from) as nat,
        |i: int| ((from + i) as usize, byte_len(records[from + i])),
    )
}

/// Whether `event` may be acted on in `state`: the answer to a probe has to
/// be true of `files`.
pub open spec fn truthful(
    records: Seq<OutputRecord>,
    files: Map<Seq<char>, Seq<char>>,
    state: WriterState,
    event: WriterEvent,
) -> bool {
    match (state, event) {
        (WriterState::Probing { index }, WriterEvent::Exists { exists }) => index < records.len()
            ==> exists == files.dom().contains(records[index as int].filename@),
        _ => true,
    }
}

/// A file is created only on the news that it is not there, and never in a
/// dry run.
pub proof fn lemma_create_needs_absence(
    records: Seq<OutputRecord>,
    dry_run: bool,
    state: WriterState,
    event: WriterEvent,
)
    ensures
        spec_step(records, dry_run, state, event).1 matches WriterAction::Create { index } ==> {
            &&& !dry_run
            &&& index < records.len()
            &&& state == WriterState::Probing { index }
            &&& event == WriterEvent::Exists { exists: false }
        },
{
}

/// A dry run asks for reports only: it never probes, creates or aborts.
pub proof fn lemma_dry_run_only_reports(
    records: Seq<OutputRecord>,
    state: WriterState,
    event: WriterEvent,
)
    ensures
        spec_step(records, true, state, event).1 is Report || spec_step(
            records,
            true,
            state,
            event,
        ).1 is Stop,
{
}

/// No run changes a file that was there before it: as long as probes are
/// answered truthfully, whatever `path` held at the start it holds in the
/// end.
pub proof fn lemma_existing_file_unchanged(
    records: Seq<OutputRecord>,
    dry_run: bool,
    failures: Map<int, WriteFailure>,
    state: WriterState,
    event: WriterEvent,
    files: Map<Seq<char>, Seq<char>>,
    fuel: nat,
    path: Seq<char>,
)
    requires
        files.dom().contains(path),
        truthful(records, files, state, event),
    ensures
        spec_drive(records, dry_run, failures, state, event, files, fuel).1.dom().contains(path),
        spec_drive(records, dry_run, failures, state, event, files, fuel).1[path] == files[path],
    decreases fuel,
{
    if fuel > 0 {
        let (next, action) = spec_step(records, dry_run, state, event);
        match action {
            WriterAction::Stop => {},
            WriterAction::Abort { error } => {},
            WriterAction::Report { index, bytes, simulated } => {
                lemma_existing_file_unchanged(
                    records,
                    dry_run,
                    failures,
                    next,
                    WriterEvent::Continue,
                    files,
                    (fuel - 1) as nat,
                    path,
                );
            },
            _ => {
                let answer = spec_answer(records, failures, files, action);
                lemma_existing_file_unchanged(
                    records,
                    dry_run,
                    failures,
                    next,
                    answer.1,
                    answer.0,
                    (fuel - 1) as nat,
                    path,
                );
            },
        }
    }
}

/// A dry run leaves every file as it was, wherever it starts.
pub proof fn lemma_dry_run_keeps_files(
    records: Seq<OutputRecord>,
    failures: Map<int, WriteFailure>,
    state: WriterState,
    event: WriterEvent,
    files: Map<Seq<char>, Seq<char>>,
    fuel: nat,
)
    ensures
        spec_drive(records, true, failures, state, event, files, fuel).1 == files,
    decreases fuel,
{
    if fuel > 0 {
        let (next, action) = spec_step(records, true, state, event);
        match action {
            WriterAction::Report { index, bytes, simulated } => {
                lemma_dry_run_keeps_files(
                    records,
                    failures,
                    next,
                    WriterEvent::Continue,
                    files,
                    (fuel - 1) as nat,
                );
            },
            _ => {},
        }
    }
}

/// A dry run that is given the time reports every record from `next` on and
/// ends in `Done`.
pub proof fn lemma_dry_run_reports(
    records: Seq<OutputRecord>,
    failures: Map<int, WriteFailure>,
    next: usize,
    event: WriterEvent,
    files: Map<Seq<char>, Seq<char>>,
    fuel: nat,
)
    requires
        records.len() <= usize::MAX,
        next <= records.len(),
        fuel > records.len() - next,
    ensures
        spec_drive(
            records,
            true,
            failures,
            WriterState::Ready { next },
            event,
            files,
            fuel,
        ).0 == WriterState::Done,
        spec_drive(
            records,
            true,
            failures,
            WriterState::Ready { next },
            event,
            files,
            fuel,
        ).2 == reports_from(records, next as nat),
    decreases fuel,
{
    let run = spec_drive(records, true, failures, WriterState::Ready { next }, event, files, fuel);
    if next < records.len() {
        lemma_dry_run_reports(
            records,
            failures,
            (next + 1) as usize,
            WriterEvent::Continue,
            files,
            (fuel - 1) as nat,
        );
        assert(run.2 =~= reports_from(records, next as nat));
    } else {
        assert(run.2 =~= reports_from(records, next as nat));
    }
}

/// The record that `state` is working on or will take up next.
pub open spec fn position(state: WriterState) -> Option<usize> {
    match state {
        WriterState::Ready { next } => Some(next),
        WriterState::Probing { index } => Some(index),
        WriterState::Writing { index } => Some(index),
        _ => None,
    }
}

/// A real run reports what the dry run reports, as far as it gets: its
/// reports are the first of those of the dry run, and all of them where it
/// ends in `Done`.
pub proof fn lemma_real_run_reports(
    records: Seq<OutputRecord>,
    failures: Map<int, WriteFailure>,
    state: WriterState,
    event: WriterEvent,
    files: Map<Seq<char>, Seq<char>>,
    fuel: nat,
)
    requires
        records.len() <= usize::MAX,
        position(state) matches Some(at) && at <= records.len(),
    ensures
        ({
            let run = spec_drive(records, false, failures, state, event, files, fuel);
            let all = reports_from(records, position(state)->0 as nat);
            &&& run.2.len() <= all.len()
            &&& run.2 == all.subrange(0, run.2.len() as int)
            &&& run.0 == WriterState::Done ==> run.2 == all
        }),
    decreases fuel,
{
    let at = position(state)->0;
    let run = spec_drive(records, false, failures, state, event, files, fuel);
    let all = reports_from(records, at as nat);
    if fuel == 0 {
        assert(run.2 =~= all.subrange(0, 0));
    } else {
        let (next, action) = spec_step(records, false, state, event);
        match action {
            WriterAction::Stop => {
                assert(run.2 =~= all.subrange(0, 0));
                assert(at == records.len());
                assert(run.2 =~= all);
            },
            WriterAction::Abort { error } => {
                assert(run.2 =~= all.subrange(0, 0));
            },
            WriterAction::Report { index, bytes, simulated } => {
                lemma_real_run_reports(
                    records,
                    failures,
                    next,
                    WriterEvent::Continue,
                    files,
                    (fuel - 1) as nat,
                );
                let rest = spec_drive(
                    records,
                    false,
                    failures,
                    next,
                    WriterEvent::Continue,
                    files,
                    (fuel - 1) as nat,
                );
                let later = reports_from(records, (at + 1) as nat);
                assert(all =~= seq![(index, bytes)] + later);
                assert(run.2 =~= all.subrange(0, run.2.len() as int));
            },
            _ => {
                let answer = spec_answer(records, failures, files, action);
                lemma_real_run_reports(
                    records,
                    failures,
                    next,
                    answer.1,
                    answer.0,
                    (fuel - 1) as nat,
                );
            },
        }
    }
}

/// A dry run reports what a real run reports: where the real run handles
/// every record, the two make the same reports, index for index and byte
/// count for byte count, and the dry run leaves the files as they were.
pub proof fn lemma_dry_run_matches_real_run(
    records: Seq<OutputRecord>,
    failures: Map<int, WriteFailure>,
    files: Map<Seq<char>, Seq<char>>,
    fuel: nat,
    dry_fuel: nat,
)
    requires
        records.len() <= usize::MAX,
        dry_fuel > records.len(),
        spec_drive(
            records,
            false,
            failures,
            WriterState::Ready { next: 0 },
            WriterEvent::Continue,
            files,
            fuel,
        ).0 == WriterState::Done,
    ensures
        spec_drive(
            records,
            true,
            failures,
            WriterState::Ready { next: 0 },
            WriterEvent::Continue,
            files,
            dry_fuel,
        ).2 == spec_drive(
            records,
            false,
            failures,
            WriterState::Ready { next: 0 },
            WriterEvent::Continue,
            files,
            fuel,
        ).2,
        spec_drive(
            records,
            true,
            failures,
            WriterState::Ready { next: 0 },
            WriterEvent::Continue,
            files,
            dry_fuel,
        ).1 == files,
{
    let start = WriterState::Ready { next: 0 };
    lemma_dry_run_reports(records, failures, 0, WriterEvent::Continue, files, dry_fuel);
    lemma_dry_run_keeps_files(records, failures, start, WriterEvent::Continue, files, dry_fuel);
    lemma_real_run_reports(records, failures, start, WriterEvent::Continue, files, fuel);
}

} // verus!
