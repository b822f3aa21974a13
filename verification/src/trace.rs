//! The event trace of one whole command: which events the collaborator
//! observes, in which order. This is where the two hard guarantees live —
//! every output event precedes the terminal event, and exactly one `Exit` is
//! delivered per command.

use vstd::prelude::*;

use crate::events::{lemma_line_event_not_exit, spec_line_event, OutputEvent, StreamKind};

verus! {

/// The events one stream reader contributes, in reading order: one event per
/// line read before end of stream, carrying the parser's metadata exactly
/// when log mode is on for that stream.
pub open spec fn spec_reader_events(
    kind: StreamKind,
    is_log: bool,
    lines: Seq<String>,
    metas: Seq<Option<String>>,
) -> Seq<OutputEvent> {
    Seq::new(
        lines.len(),
        |i: int|
            spec_line_event(
                kind,
                is_log,
                lines[i],
                if is_log {
                    metas[i]
                } else {
                    None
                },
            ),
    )
}

/// The full event sequence of a command that ran to completion: every stdout
/// event, every stderr event, then the single terminal event.
pub open spec fn spec_command_events(
    stdout_lines: Seq<String>,
    stdout_metas: Seq<Option<String>>,
    stdout_is_log: bool,
    stderr_lines: Seq<String>,
    stderr_metas: Seq<Option<String>>,
    stderr_is_log: bool,
    code: i32,
) -> Seq<OutputEvent> {
    spec_reader_events(StreamKind::Stdout, stdout_is_log, stdout_lines, stdout_metas)
        + spec_reader_events(StreamKind::Stderr, stderr_is_log, stderr_lines, stderr_metas)
        + seq![OutputEvent::Exit { code }]
}

/// Every output event of a command is observed strictly before its `Exit`
/// event, and exactly one `Exit` is delivered — whatever the lines, the log
/// modes and the exit code were.
pub proof fn lemma_single_exit_comes_last(
    stdout_lines: Seq<String>,
    stdout_metas: Seq<Option<String>>,
    stdout_is_log: bool,
    stderr_lines: Seq<String>,
    stderr_metas: Seq<Option<String>>,
    stderr_is_log: bool,
    code: i32,
)
    ensures
        ({
            let events = spec_command_events(
                stdout_lines,
                stdout_metas,
                stdout_is_log,
                stderr_lines,
                stderr_metas,
                stderr_is_log,
                code,
            );
            &&& events.len() == stdout_lines.len() + stderr_lines.len() + 1
            &&& events.last() == (OutputEvent::Exit { code })
            &&& forall|i: int| 0 <= i < events.len() - 1 ==> !(#[trigger] events[i]).is_exit()
            &&& forall|i: int|
                0 <= i < events.len() && (#[trigger] events[i]).is_exit() ==> i == events.len() - 1
        }),
{
    let out = spec_reader_events(StreamKind::Stdout, stdout_is_log, stdout_lines, stdout_metas);
    let err = spec_reader_events(StreamKind::Stderr, stderr_is_log, stderr_lines, stderr_metas);
    let events = out + err + seq![OutputEvent::Exit { code }];
    assert forall|i: int| 0 <= i < events.len() - 1 implies !(#[trigger] events[i]).is_exit() by {
        if i < out.len() {
            assert(events[i] == out[i]);
            lemma_line_event_not_exit(
                StreamKind::Stdout,
                stdout_is_log,
                stdout_lines[i],
                if stdout_is_log {
                    stdout_metas[i]
                } else {
                    None
                },
            );
        } else {
            assert(events[i] == err[i - out.len()]);
            lemma_line_event_not_exit(
                StreamKind::Stderr,
                stderr_is_log,
                stderr_lines[i - out.len()],
                if stderr_is_log {
                    stderr_metas[i - out.len()]
                } else {
                    None
                },
            );
        }
    }
}

/// A reader that observes its cancellation signal before consuming its k-th
/// line emits exactly the events of the first k lines: cancellation only
/// truncates the stream at a line boundary — no event beyond what was already
/// read is emitted, none is reordered, and none is invented.
pub proof fn lemma_cancellation_truncates_the_stream(
    kind: StreamKind,
    is_log: bool,
    lines: Seq<String>,
    metas: Seq<Option<String>>,
    k: int,
)
    requires
        0 <= k <= lines.len(),
        metas.len() == lines.len(),
    ensures
        spec_reader_events(kind, is_log, lines.take(k), metas.take(k)) =~= spec_reader_events(
            kind,
            is_log,
            lines,
            metas,
        ).take(k),
{
}

/// The delivered event sequence of a command whose child exited with
/// `exit_code` after its readers collected these lines (and, for a stream in
/// log mode, the parser's metadata for each line, position by position).
///
/// The result is line-oriented — one event per line, in order — and ends in
/// the single `Exit` event, after every output event.
pub fn command_events(
    stdout_lines: &Vec<String>,
    stdout_metas: &Vec<Option<String>>,
    stdout_is_log: bool,
    stderr_lines: &Vec<String>,
    stderr_metas: &Vec<Option<String>>,
    stderr_is_log: bool,
    exit_code: i32,
) -> (events: Vec<OutputEvent>)
    requires
        stdout_metas@.len() == stdout_lines@.len(),
        stderr_metas@.len() == stderr_lines@.len(),
    ensures
        events@ == spec_command_events(
            stdout_lines@,
            stdout_metas@,
            stdout_is_log,
            stderr_lines@,
            stderr_metas@,
            stderr_is_log,
            exit_code,
        ),
        events@.len() > 0,
        events@.last() == (OutputEvent::Exit { code: exit_code }),
        forall|i: int| 0 <= i < events@.len() - 1 ==> !(#[trigger] events@[i]).is_exit(),
{
    let mut events: Vec<OutputEvent> = Vec::new();
    push_reader_events(&mut events, StreamKind::Stdout, stdout_is_log, stdout_lines, stdout_metas);
    push_reader_events(&mut events, StreamKind::Stderr, stderr_is_log, stderr_lines, stderr_metas);
    events.push(OutputEvent::Exit { code: exit_code });
    proof {
        let out = spec_reader_events(StreamKind::Stdout, stdout_is_log, stdout_lines@, stdout_metas@);
        let err = spec_reader_events(StreamKind::Stderr, stderr_is_log, stderr_lines@, stderr_metas@);
        assert(events@ =~= out + err + seq![OutputEvent::Exit { code: exit_code }]);
        lemma_single_exit_comes_last(
            stdout_lines@,
            stdout_metas@,
            stdout_is_log,
            stderr_lines@,
            stderr_metas@,
            stderr_is_log,
            exit_code,
        );
    }
    events
}

/// Append one reader's events, one per line in reading order.
fn push_reader_events(
    events: &mut Vec<OutputEvent>,
    kind: StreamKind,
    is_log: bool,
    lines: &Vec<String>,
    metas: &Vec<Option<String>>,
)
    requires
        metas@.len() == lines@.len(),
    ensures
        final(events)@ =~= old(events)@ + spec_reader_events(kind, is_log, lines@, metas@),
{
    let ghost initial = events@;
    let mut i: usize = 0;
    while i < lines.len()
        invariant
            0 <= i <= lines@.len(),
            metas@.len() == lines@.len(),
            events@ =~= initial + spec_reader_events(kind, is_log, lines@, metas@).take(i as int),
        decreases lines@.len() - i,
    {
        let text = lines[i].clone();
        let metadata = if is_log {
            metas[i].clone()
        } else {
            None
        };
        let event = match kind {
            StreamKind::Stdout => if is_log {
                OutputEvent::StdOutLogRecord { text, metadata }
            } else {
                OutputEvent::StdOutLine { text }
            },
            StreamKind::Stderr => if is_log {
                OutputEvent::StdErrLogRecord { text, metadata }
            } else {
                OutputEvent::StdErrLine { text }
            },
        };
        events.push(event);
        proof {
            assert(events@ =~= initial + spec_reader_events(kind, is_log, lines@, metas@).take(
                i + 1,
            ));
        }
        i += 1;
    }
    proof {
        assert(spec_reader_events(kind, is_log, lines@, metas@).take(lines@.len() as int)
            =~= spec_reader_events(kind, is_log, lines@, metas@));
    }
}

} // verus!
