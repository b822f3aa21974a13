//! Stream-reader logic: for each iteration of a reader worker, decide from the
//! cancellation flag and the read outcome whether to stop, emit a plain line
//! event, or route the line through the external log parser first.

use vstd::prelude::*;

use crate::events::{spec_line_event, OutputEvent, StreamKind};

verus! {

/// What one read iteration of a reader worker observed on its pipe.
#[derive(Debug)]
pub enum ReadOutcome {
    /// A complete line, without its terminator.
    Line(String),
    /// End of stream: the pipe closed.
    EndOfStream,
    /// A read error; treated exactly like end of stream, never escalated.
    ReadError,
}

/// What the reader worker must do next.
#[derive(Debug)]
pub enum ReaderStep {
    /// Emit this event and keep reading.
    Emit(OutputEvent),
    /// Log mode: hand this line to the external log-line parser, then emit the
    /// event that `log_record_event` builds from the line and the metadata.
    ParseLine(String),
    /// Stop reading and send the completion signal.
    Stop,
}

/// The decision an uncancelled reader takes for one read outcome: end of
/// stream and read errors stop it silently; a line read in log mode is routed
/// to the external parser; otherwise the line is forwarded verbatim, with no
/// parser invocation.
pub open spec fn spec_reader_step(kind: StreamKind, is_log: bool, outcome: ReadOutcome) -> ReaderStep {
    match outcome {
        ReadOutcome::Line(l) => if is_log {
            ReaderStep::ParseLine(l)
        } else {
            ReaderStep::Emit(spec_line_event(kind, false, l, None))
        },
        ReadOutcome::EndOfStream => ReaderStep::Stop,
        ReadOutcome::ReadError => ReaderStep::Stop,
    }
}

/// One decision step of a stream reader: the cancellation signal, checked
/// before the line is consumed, stops the reader at once; otherwise the
/// uncancelled decision of `spec_reader_step` is taken.
pub fn reader_step(kind: StreamKind, is_log: bool, cancelled: bool, outcome: ReadOutcome) -> (step:
    ReaderStep)
    ensures
        step == if cancelled {
            ReaderStep::Stop
        } else {
            spec_reader_step(kind, is_log, outcome)
        },
{
    if cancelled {
        ReaderStep::Stop
    } else {
        match outcome {
            ReadOutcome::Line(l) => {
                if is_log {
                    ReaderStep::ParseLine(l)
                } else {
                    match kind {
                        StreamKind::Stdout => ReaderStep::Emit(OutputEvent::StdOutLine { text: l }),
                        StreamKind::Stderr => ReaderStep::Emit(OutputEvent::StdErrLine { text: l }),
                    }
                }
            },
            ReadOutcome::EndOfStream => ReaderStep::Stop,
            ReadOutcome::ReadError => ReaderStep::Stop,
        }
    }
}

/// One full reader iteration: check the reader's own cancellation signal
/// non-blockingly, then decide. Whether the signal had arrived depends on the
/// sender's timing, so the contract covers both outcomes; a stream end or a
/// read error stops the reader either way.
pub fn reader_poll_step(
    cancel: &crossbeam_channel::Receiver<()>,
    kind: StreamKind,
    is_log: bool,
    outcome: ReadOutcome,
) -> (step: ReaderStep)
    ensures
        step == ReaderStep::Stop || step == spec_reader_step(kind, is_log, outcome),
        (outcome matches ReadOutcome::EndOfStream) ==> step == ReaderStep::Stop,
        (outcome matches ReadOutcome::ReadError) ==> step == ReaderStep::Stop,
{
    let cancelled = crate::session::poll_signal(cancel);
    reader_step(kind, is_log, cancelled, outcome)
}

/// The event for a line read in log mode, carrying whatever metadata the
/// external parser produced for it (possibly none).
pub fn log_record_event(kind: StreamKind, text: String, metadata: Option<String>) -> (e:
    OutputEvent)
    ensures
        e == spec_line_event(kind, true, text, metadata),
        !e.is_exit(),
{
    match kind {
        StreamKind::Stdout => OutputEvent::StdOutLogRecord { text, metadata },
        StreamKind::Stderr => OutputEvent::StdErrLogRecord { text, metadata },
    }
}

} // verus!
