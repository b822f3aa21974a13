//! The outbound event contract: every observable outcome of one command is a
//! sequence of these events, ending in exactly one `Exit`.

use vstd::prelude::*;

verus! {

/// One event delivered to the session collaborator.
///
/// `Exit` is terminal: it is emitted exactly once per command and always last.
/// The `LogRecord` variants carry the metadata the external log-line parser
/// produced for the line (possibly none); the plain variants carry the line
/// verbatim.
#[derive(Debug, PartialEq, Eq)]
pub enum OutputEvent {
    Error { message: String },
    StdOutLine { text: String },
    StdOutLogRecord { text: String, metadata: Option<String> },
    StdErrLine { text: String },
    StdErrLogRecord { text: String, metadata: Option<String> },
    Exit { code: i32 },
}

impl OutputEvent {
    /// Whether this is the terminal event of a command.
    pub open spec fn is_exit(self) -> bool {
        self matches OutputEvent::Exit { .. }
    }
}

/// Which of the two captured streams of the child a value belongs to.
#[derive(Debug, Clone, Copy, PartialEq, Eq, Structural)]
pub enum StreamKind {
    Stdout,
    Stderr,
}

/// The event a stream reader emits for one successfully read line: the
/// log-record variant of the stream when log mode is on (carrying the parser's
/// metadata), the plain-line variant otherwise.
pub open spec fn spec_line_event(
    kind: StreamKind,
    is_log: bool,
    text: String,
    metadata: Option<String>,
) -> OutputEvent {
    match kind {
        StreamKind::Stdout => if is_log {
            OutputEvent::StdOutLogRecord { text, metadata }
        } else {
            OutputEvent::StdOutLine { text }
        },
        StreamKind::Stderr => if is_log {
            OutputEvent::StdErrLogRecord { text, metadata }
        } else {
            OutputEvent::StdErrLine { text }
        },
    }
}

/// A line event is never the terminal event.
pub proof fn lemma_line_event_not_exit(
    kind: StreamKind,
    is_log: bool,
    text: String,
    metadata: Option<String>,
)
    ensures
        !spec_line_event(kind, is_log, text, metadata).is_exit(),
{
}

} // verus!
