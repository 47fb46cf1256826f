//! The write step, as decisions.
//!
//! The library never touches a file. It says what to do next, is told what
//! came of it, and decides again: whoever drives it probes, creates and
//! prints. A file is created only in answer to the news that it is not
//! there, and a dry run asks for nothing but reports.

use vstd::prelude::*;
use vstd::string::StringExecFns;
use vstd::utf8::encode_utf8;
use crate::decimal::{decimal, format_decimal};
use crate::error::SplitError;
use crate::plan::OutputRecord;

verus! {

/// Where the write step stands.
#[derive(Debug, Clone, Copy, PartialEq, Eq)]
pub enum WriterState {
    /// The record at `next` is the next one to handle.
    Ready { next: usize },
    /// Asked whether the file of the record at `index` exists.
    Probing { index: usize },
    /// Asked to create the file of the record at `index`.
    Writing { index: usize },
    /// Every record is handled.
    Done,
    /// The run was aborted.
    Failed,
}

/// What the driver reports back.
#[derive(Debug, PartialEq, Eq)]
pub enum WriterEvent {
    /// The last action needed no answer.
    Continue,
    /// Whether the probed file exists.
    Exists { exists: bool },
    /// How creating and writing the file went: `None` for success, else the
    /// reason for the failure.
    Written { error: Option<String> },
}

/// What the driver is to do next.
#[derive(Debug, PartialEq, Eq)]
pub enum WriterAction {
    /// Find out whether the file of the record at `index` exists.
    Probe { index: usize },
    /// Create the file of the record at `index` and write its content.
    Create { index: usize },
    /// Tell the operator that `bytes` bytes went to the file of the record
    /// at `index`, or would have gone there in a real run.
    Report { index: usize, bytes: usize, simulated: bool },
    /// Give the run up for this reason.
    Abort { error: SplitError },
    /// Nothing is left to do.
    Stop,
}

/// The length of a record's content in bytes of UTF-8.
pub open spec fn byte_len(record: OutputRecord) -> usize {
    encode_utf8(record.content@).len() as usize
}

/// The decision on taking up the record at `next`.
pub open spec fn spec_begin(records: Seq<OutputRecord>, dry_run: bool, next: usize) -> (
    WriterState,
    WriterAction,
) {
    if next >= records.len() {
        (WriterState::Done, WriterAction::Stop)
    } else if dry_run {
        (
            WriterState::Ready { next: (next + 1) as usize },
            WriterAction::Report {
                index: next,
                bytes: byte_len(records[next as int]),
                simulated: true,
            },
        )
    } else {
        (WriterState::Probing { index: next }, WriterAction::Probe { index: next })
    }
}

/// The decision in `state` on `event`.
///
/// An answer that does not fit the question is not acted on: the file is
/// probed again. In a dry run no state asks for anything but a report.
pub open spec fn spec_step(
    records: Seq<OutputRecord>,
    dry_run: bool,
    state: WriterState,
    event: WriterEvent,
) -> (WriterState, WriterAction) {
    match state {
        WriterState::Done => (WriterState::Done, WriterAction::Stop),
        WriterState::Failed => (WriterState::Failed, WriterAction::Stop),
        WriterState::Ready { next } => spec_begin(records, dry_run, next),
        WriterState::Probing { index } => if index >= records.len() || dry_run {
            spec_begin(records, dry_run, index)
        } else {
            match event {
                WriterEvent::Exists { exists } => if exists {
                    (
                        WriterState::Failed,
                        WriterAction::Abort {
                            error: SplitError::OutputFileExists {
                                filename: records[index as int].filename,
                            },
                        },
                    )
                } else {
                    (WriterState::Writing { index }, WriterAction::Create { index })
                },
                _ => (WriterState::Probing { index }, WriterAction::Probe { index }),
            }
        },
        WriterState::Writing { index } => if index >= records.len() || dry_run {
            spec_begin(records, dry_run, index)
        } else {
            match event {
                WriterEvent::Written { error: None } => (
                    WriterState::Ready { next: (index + 1) as usize },
                    WriterAction::Report {
                        index,
                        bytes: byte_len(records[index as int]),
                        simulated: false,
                    },
                ),
                WriterEvent::Written { error: Some(message) } => (
                    WriterState::Failed,
                    WriterAction::Abort {
                        error: SplitError::OutputWriteError {
                            filename: records[index as int].filename,
                            message,
                        },
                    },
                ),
                _ => (WriterState::Probing { index }, WriterAction::Probe { index }),
            }
        },
    }
}

/// The line that reports a file: written, or what a real run would write.
pub open spec fn spec_report_line(filename: Seq<char>, bytes: usize, simulated: bool) -> Seq<char> {
    (if simulated {
        "Would have written "@
    } else {
        "Wrote "@
    }) + decimal(bytes as nat) + " bytes to file: "@ + filename
}

/// Writes the line that reports a file.
pub fn report_line(filename: &str, bytes: usize, simulated: bool) -> (line: String)
    ensures
        line@ == spec_report_line(filename@, bytes, simulated),
{
    let start = if simulated {
        String::from_str("Would have written ")
    } else {
        String::from_str("Wrote ")
    };
    start.concat(format_decimal(bytes).as_str()).concat(" bytes to file: ").concat(filename)
}

/// Takes up the record at `next`.
fn begin(records: &Vec<OutputRecord>, dry_run: bool, next: usize) -> (decision: (
    WriterState,
    WriterAction,
))
    ensures
        decision == spec_begin(records@, dry_run, next),
{
    if next >= records.len() {
        (WriterState::Done, WriterAction::Stop)
    } else if dry_run {
        let bytes = records[next].content.as_str().len();
        (
            WriterState::Ready { next: next + 1 },
            WriterAction::Report { index: next, bytes, simulated: true },
        )
    } else {
        (WriterState::Probing { index: next }, WriterAction::Probe { index: next })
    }
}

/// Decides what to do in `state` now that `event` has come in, and which
/// state that leads to. A run starts in `Ready { next: 0 }`.
pub fn step(
    records: &Vec<OutputRecord>,
    dry_run: bool,
    state: WriterState,
    event: WriterEvent,
) -> (decision: (WriterState, WriterAction))
    ensures
        decision == spec_step(records@, dry_run, state, event),
{
    match state {
        WriterState::Done => (WriterState::Done, WriterAction::Stop),
        WriterState::Failed => (WriterState::Failed, WriterAction::Stop),
        WriterState::Ready { next } => begin(records, dry_run, next),
        WriterState::Probing { index } => {
            if index >= records.len() || dry_run {
                begin(records, dry_run, index)
            } else {
                match event {
                    WriterEvent::Exists { exists } => {
                        if exists {
                            let filename = records[index].filename.clone();
                            (
                                WriterState::Failed,
                                WriterAction::Abort {
                                    error: SplitError::OutputFileExists { filename },
                                },
                            )
                        } else {
                            (WriterState::Writing { index }, WriterAction::Create { index })
                        }
                    },
                    _ => (WriterState::Probing { index }, WriterAction::Probe { index }),
                }
            }
        },
        WriterState::Writing { index } => {
            if index >= records.len() || dry_run {
                begin(records, dry_run, index)
            } else {
                match event {
                    WriterEvent::Written { error: None } => {
                        let bytes = records[index].content.as_str().len();
                        (
                            WriterState::Ready { next: index + 1 },
                            WriterAction::Report { index, bytes, simulated: false },
                        )
                    },
                    WriterEvent::Written { error: Some(message) } => {
                        let filename = records[index].filename.clone();
                        (
                            WriterState::Failed,
                            WriterAction::Abort {
                                error: SplitError::OutputWriteError { filename, message },
                            },
                        )
                    },
                    _ => (WriterState::Probing { index }, WriterAction::Probe { index }),
                }
            }
        },
    }
}

} // verus!
