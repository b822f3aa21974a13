//! Process-execution-and-streaming core: launches a shell command, models the
//! line-event stream of its stdout/stderr, discovers and signals the process
//! tree on cancellation, and guarantees that exactly one `Exit` event ends
//! every command, after all output events.

pub mod events;
pub mod reader;
pub mod launcher;
pub mod terminator;
pub mod watcher;
pub mod session;
pub mod trace;
