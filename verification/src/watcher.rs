//! Process watcher: a small state machine with states Running and Exited
//! (plus the terminal Finished), driven by a worker that polls the child,
//! reacts to the cancellation signal, joins both stream readers, and only
//! then hands out the single `Exit` event of the command.

use vstd::prelude::*;

use crate::events::{OutputEvent, StreamKind};

verus! {

/// The exit code reported when the OS cannot supply one (the child was killed
/// by a signal, or the wait itself failed).
pub const SENTINEL_EXIT_CODE: i32 = -1;

/// The watcher's state. No method admits a `Finished` watcher, so once the
/// terminal event has been taken, no second one can ever be produced.
#[derive(Debug, Clone, Copy, PartialEq, Eq, Structural)]
pub enum WatcherPhase {
    /// The child may still be running: poll it, or react to cancellation.
    Running,
    /// The child exited with this code; the readers must be joined before the
    /// terminal event may be emitted.
    Exited { code: i32 },
    /// The single `Exit` event has been handed out; nothing follows it.
    Finished { code: i32 },
}

/// What a non-blocking poll of the child reported.
#[derive(Debug, Clone, Copy, PartialEq, Eq)]
pub enum PollOutcome {
    /// The child has exited, with the code the OS supplied, if any.
    Exited { code: Option<i32> },
    /// The child is still running.
    StillRunning,
    /// The OS refused the poll; absorbed as an exit with the sentinel code.
    PollError,
}

/// What the watcher worker must do next.
#[derive(Debug, Clone, Copy, PartialEq, Eq, Structural)]
pub enum WatcherAction {
    /// Cancellation: terminate the whole process tree rooted at the child
    /// (graceful pass, grace period, forced pass), force-kill the child
    /// handle, block until the OS confirms the exit, and report the reaped
    /// code through `on_child_reaped`.
    KillAndReap { pid: u32 },
    /// Sleep one poll interval, then poll the child again.
    Sleep,
    /// The child has exited: move on to joining the stream readers.
    Proceed,
}

/// Relies on crossbeam_channel::Receiver::recv: blocks until the one-shot
/// completion signal arrives or every sender was dropped; either way the
/// reader worker on the other end has finished, so the result is ignored.
#[verifier::external_body]
fn await_signal(receiver: &crossbeam_channel::Receiver<()>) {
    let _ = receiver.recv();
}

/// The process watcher owns the child handle from the one-time transfer until
/// exit. Its principal contract: `take_exit_event` — the only source of an
/// `Exit` event — demands that every captured stream has reported completion,
/// so every output event of the command precedes the terminal event.
pub struct ProcessWatcher {
    pub phase: WatcherPhase,
    pub child_pid: u32,
    /// Whether stdout was captured at all; an uncaptured stream needs no join.
    pub has_stdout: bool,
    /// Whether stderr was captured at all.
    pub has_stderr: bool,
    pub stdout_done: bool,
    pub stderr_done: bool,
}

/// The OS-reported exit code, or the sentinel when the OS supplied none.
pub open spec fn spec_code_or_sentinel(code: Option<i32>) -> i32 {
    match code {
        Some(c) => c,
        None => SENTINEL_EXIT_CODE,
    }
}

/// The transition an uncancelled Running watcher takes for one poll outcome:
/// the action for the worker, and the next phase.
pub open spec fn spec_poll_transition(poll: PollOutcome) -> (WatcherAction, WatcherPhase) {
    match poll {
        PollOutcome::Exited { code } => (
            WatcherAction::Proceed,
            WatcherPhase::Exited { code: spec_code_or_sentinel(code) },
        ),
        PollOutcome::StillRunning => (WatcherAction::Sleep, WatcherPhase::Running),
        PollOutcome::PollError => (
            WatcherAction::Proceed,
            WatcherPhase::Exited { code: SENTINEL_EXIT_CODE },
        ),
    }
}

impl ProcessWatcher {
    /// Both captured streams have reported completion (an uncaptured stream
    /// counts as complete from the start).
    pub open spec fn all_captured_streams_done(self) -> bool {
        &&& (self.has_stdout ==> self.stdout_done)
        &&& (self.has_stderr ==> self.stderr_done)
    }

    /// The exit code captured on the transition out of `Running`.
    pub open spec fn captured_code(self) -> i32 {
        match self.phase {
            WatcherPhase::Running => SENTINEL_EXIT_CODE,
            WatcherPhase::Exited { code } => code,
            WatcherPhase::Finished { code } => code,
        }
    }

    /// A watcher for a freshly transferred child handle.
    pub fn new(child_pid: u32, has_stdout: bool, has_stderr: bool) -> (w: ProcessWatcher)
        ensures
            w.phase == WatcherPhase::Running,
            w.child_pid == child_pid,
            w.has_stdout == has_stdout,
            w.has_stderr == has_stderr,
            !w.stdout_done,
            !w.stderr_done,
    {
        ProcessWatcher {
            phase: WatcherPhase::Running,
            child_pid,
            has_stdout,
            has_stderr,
            stdout_done: false,
            stderr_done: false,
        }
    }

    /// One iteration of the Running state: the cancellation signal, checked
    /// first, leads to the kill-and-reap path; otherwise a spontaneous exit
    /// (or a failed poll, absorbed with the sentinel code) moves the watcher
    /// to Exited, and a still-running child means sleeping one interval.
    pub fn step_running(&mut self, cancel_signaled: bool, poll: PollOutcome) -> (action:
        WatcherAction)
        requires
            old(self).phase == WatcherPhase::Running,
        ensures
            final(self).child_pid == old(self).child_pid,
            final(self).has_stdout == old(self).has_stdout,
            final(self).has_stderr == old(self).has_stderr,
            final(self).stdout_done == old(self).stdout_done,
            final(self).stderr_done == old(self).stderr_done,
            cancel_signaled ==> action == (WatcherAction::KillAndReap {
                pid: old(self).child_pid,
            }) && final(self).phase == WatcherPhase::Running,
            !cancel_signaled ==> action == spec_poll_transition(poll).0 && final(self).phase
                == spec_poll_transition(poll).1,
    {
        if cancel_signaled {
            WatcherAction::KillAndReap { pid: self.child_pid }
        } else {
            match poll {
                PollOutcome::Exited { code } => {
                    let c = match code {
                        Some(c) => c,
                        None => SENTINEL_EXIT_CODE,
                    };
                    self.phase = WatcherPhase::Exited { code: c };
                    WatcherAction::Proceed
                },
                PollOutcome::StillRunning => WatcherAction::Sleep,
                PollOutcome::PollError => {
                    self.phase = WatcherPhase::Exited { code: SENTINEL_EXIT_CODE };
                    WatcherAction::Proceed
                },
            }
        }
    }

    /// One Running iteration against the watcher's own cancellation signal,
    /// checked non-blockingly before the poll outcome is considered. Whether
    /// the signal had arrived depends on the sender's timing, so the contract
    /// covers both outcomes of the check.
    pub fn step_with_signal(
        &mut self,
        cancel: &crossbeam_channel::Receiver<()>,
        poll: PollOutcome,
    ) -> (action: WatcherAction)
        requires
            old(self).phase == WatcherPhase::Running,
        ensures
            final(self).child_pid == old(self).child_pid,
            final(self).has_stdout == old(self).has_stdout,
            final(self).has_stderr == old(self).has_stderr,
            final(self).stdout_done == old(self).stdout_done,
            final(self).stderr_done == old(self).stderr_done,
            (action == (WatcherAction::KillAndReap { pid: old(self).child_pid })
                && final(self).phase == WatcherPhase::Running) || (action == spec_poll_transition(
                poll,
            ).0 && final(self).phase == spec_poll_transition(poll).1),
    {
        let cancel_signaled = crate::session::poll_signal(cancel);
        self.step_running(cancel_signaled, poll)
    }

    /// After the kill-and-reap path: the OS confirmed the exit and reported
    /// this code, if any; the sentinel stands in when it reported none (or
    /// the blocking wait itself failed).
    pub fn on_child_reaped(&mut self, reported: Option<i32>)
        requires
            old(self).phase == WatcherPhase::Running,
        ensures
            final(self).phase == (WatcherPhase::Exited {
                code: spec_code_or_sentinel(reported),
            }),
            final(self).child_pid == old(self).child_pid,
            final(self).has_stdout == old(self).has_stdout,
            final(self).has_stderr == old(self).has_stderr,
            final(self).stdout_done == old(self).stdout_done,
            final(self).stderr_done == old(self).stderr_done,
    {
        let c = match reported {
            Some(c) => c,
            None => SENTINEL_EXIT_CODE,
        };
        self.phase = WatcherPhase::Exited { code: c };
    }

    /// Which captured stream's completion signal must still be awaited, if
    /// any: stdout is joined first, then stderr.
    pub fn pending_join(&self) -> (k: Option<StreamKind>)
        ensures
            k == if self.has_stdout && !self.stdout_done {
                Some(StreamKind::Stdout)
            } else if self.has_stderr && !self.stderr_done {
                Some(StreamKind::Stderr)
            } else {
                Option::<StreamKind>::None
            },
            k is None <==> self.all_captured_streams_done(),
    {
        if self.has_stdout && !self.stdout_done {
            Some(StreamKind::Stdout)
        } else if self.has_stderr && !self.stderr_done {
            Some(StreamKind::Stderr)
        } else {
            None
        }
    }

    /// A stream reader's completion signal arrived.
    pub fn on_reader_done(&mut self, kind: StreamKind)
        ensures
            final(self).phase == old(self).phase,
            final(self).child_pid == old(self).child_pid,
            final(self).has_stdout == old(self).has_stdout,
            final(self).has_stderr == old(self).has_stderr,
            final(self).stdout_done == (old(self).stdout_done || kind == StreamKind::Stdout),
            final(self).stderr_done == (old(self).stderr_done || kind == StreamKind::Stderr),
    {
        match kind {
            StreamKind::Stdout => self.stdout_done = true,
            StreamKind::Stderr => self.stderr_done = true,
        }
    }

    /// Block until every captured stream has reported completion: the join
    /// step of the Exited state, after which — and only after which — the
    /// terminal event may be taken. Joins stdout first, then stderr; an
    /// uncaptured or already-joined stream is not waited on.
    pub fn join_readers(
        &mut self,
        stdout_done: &crossbeam_channel::Receiver<()>,
        stderr_done: &crossbeam_channel::Receiver<()>,
    )
        ensures
            final(self).all_captured_streams_done(),
            final(self).phase == old(self).phase,
            final(self).child_pid == old(self).child_pid,
            final(self).has_stdout == old(self).has_stdout,
            final(self).has_stderr == old(self).has_stderr,
    {
        loop
            invariant
                self.phase == old(self).phase,
                self.child_pid == old(self).child_pid,
                self.has_stdout == old(self).has_stdout,
                self.has_stderr == old(self).has_stderr,
            decreases (if self.has_stdout && !self.stdout_done {
                1int
            } else {
                0int
            }) + (if self.has_stderr && !self.stderr_done {
                1int
            } else {
                0int
            }),
        {
            match self.pending_join() {
                Some(kind) => {
                    match kind {
                        StreamKind::Stdout => await_signal(stdout_done),
                        StreamKind::Stderr => await_signal(stderr_done),
                    }
                    self.on_reader_done(kind);
                },
                None => {
                    return ;
                },
            }
        }
    }

    /// The single terminal event of the command. It can only be taken after
    /// the child exited and every captured stream reported completion — so
    /// all output events were delivered first — and it moves the watcher to
    /// Finished, which no method of this type admits again: exactly one
    /// `Exit` per command.
    pub fn take_exit_event(&mut self) -> (e: OutputEvent)
        requires
            old(self).phase matches WatcherPhase::Exited { .. },
            old(self).all_captured_streams_done(),
        ensures
            e == (OutputEvent::Exit { code: old(self).captured_code() }),
            e.is_exit(),
            final(self).phase == (WatcherPhase::Finished { code: old(self).captured_code() }),
            final(self).child_pid == old(self).child_pid,
    {
        let code = match self.phase {
            WatcherPhase::Exited { code } => code,
            WatcherPhase::Running => SENTINEL_EXIT_CODE,
            WatcherPhase::Finished { code } => code,
        };
        self.phase = WatcherPhase::Finished { code };
        OutputEvent::Exit { code }
    }
}

} // verus!
