//! The command session: owns the per-command configuration, the three
//! cancellation-signal senders and — until the one-time transfer to the
//! watcher — the child-process handle. Starting a command installs fresh
//! signals and yields the shell invocation; cancel/teardown fires every
//! signal at most once and only kills a child the session still owns.

use vstd::prelude::*;
use vstd::string::StringExecFns;

use crate::events::OutputEvent;
use crate::launcher::{build_invocation, normalize_separators, spec_normalize_separators,
    ShellInvocation};

verus! {

#[verifier::external_type_specification]
#[verifier::external_body]
#[verifier::reject_recursive_types(T)]
pub struct ExSender<T>(crossbeam_channel::Sender<T>);

#[verifier::external_type_specification]
#[verifier::external_body]
#[verifier::reject_recursive_types(T)]
pub struct ExReceiver<T>(crossbeam_channel::Receiver<T>);

/// Relies on crossbeam_channel::bounded: a single-capacity channel, used as a
/// one-shot, fire-and-forget signal between the session and one worker.
#[verifier::external_body]
fn signal_channel() -> (crossbeam_channel::Sender<()>, crossbeam_channel::Receiver<()>) {
    crossbeam_channel::bounded::<()>(1)
}

/// Relies on crossbeam_channel::Sender::try_send: delivers the unit signal
/// unless the channel is already full or disconnected, and never blocks. The
/// result is deliberately ignored: a full channel already carries the signal,
/// and a disconnected one has no worker left to wake.
#[verifier::external_body]
fn send_signal(sender: &crossbeam_channel::Sender<()>) {
    let _ = sender.try_send(());
}

/// Relies on crossbeam_channel::Receiver::try_recv: true exactly when the
/// one-shot signal had already arrived; never blocks. Whether it had depends
/// on the sender's timing, so callers state what holds either way.
#[verifier::external_body]
pub(crate) fn poll_signal(receiver: &crossbeam_channel::Receiver<()>) -> bool {
    receiver.try_recv().is_ok()
}

/// The three cancellation-signal senders of one in-flight command, held by
/// the session until `cleanup_threads` consumes them — at most once.
pub struct ShutdownSenders {
    pub stdout: crossbeam_channel::Sender<()>,
    pub stderr: crossbeam_channel::Sender<()>,
    pub wait: crossbeam_channel::Sender<()>,
}

/// The session's record of the launched child process. It cannot be copied:
/// at every instant either the session or the watcher owns it, never both,
/// which rules out concurrent wait/kill calls on the same OS handle.
#[derive(Debug, PartialEq, Eq, Structural)]
pub struct ChildHandle {
    pub pid: u32,
}

/// What starting a command hands back for the workers the caller must run:
/// the shell invocation to spawn, and one cancellation-signal receiver for
/// each of the two stream readers and the watcher.
pub struct LaunchSetup {
    pub invocation: ShellInvocation,
    pub stdout_cancel: crossbeam_channel::Receiver<()>,
    pub stderr_cancel: crossbeam_channel::Receiver<()>,
    pub watcher_cancel: crossbeam_channel::Receiver<()>,
}

/// One client connection's command session: at most one in-flight command.
pub struct WsRunCmd {
    /// The configured working directory, not yet normalized or validated.
    pub working_directory: Option<String>,
    /// Whether stdout is to be parsed as structured log content.
    pub stdout_is_log: bool,
    /// Whether stderr is to be parsed as structured log content.
    pub stderr_is_log: bool,
    /// The cancellation senders of the in-flight command, if not yet consumed.
    pub shutdown_senders: Option<ShutdownSenders>,
    /// The child handle, while the session (not the watcher) owns it.
    pub child: Option<ChildHandle>,
}

impl WsRunCmd {
    /// A fresh session: no child, no signals installed.
    pub fn new(working_directory: Option<String>, stdout_is_log: bool, stderr_is_log: bool) -> (s:
        WsRunCmd)
        ensures
            s.working_directory == working_directory,
            s.stdout_is_log == stdout_is_log,
            s.stderr_is_log == stderr_is_log,
            s.shutdown_senders is None,
            s.child is None,
    {
        WsRunCmd {
            working_directory,
            stdout_is_log,
            stderr_is_log,
            shutdown_senders: None,
            child: None,
        }
    }

    /// The configured working directory with its separators normalized for
    /// the host platform; the caller validates that this path exists and is a
    /// directory before `cmd_run` is given the verdict.
    pub fn working_dir_normalized(&self) -> (nd: Option<String>)
        ensures
            self.working_directory is None ==> nd is None,
            self.working_directory matches Some(d) ==> (nd matches Some(n) && n@
                == spec_normalize_separators(d@)),
    {
        match &self.working_directory {
            Some(d) => Some(normalize_separators(d.as_str())),
            None => None,
        }
    }

    /// Start one command: install three fresh cancellation signals (replacing
    /// any previous set), and — unless a configured working directory failed
    /// validation, in which case the single `Error` event is returned and
    /// nothing may be spawned — hand back the shell invocation and the three
    /// signal receivers. `dir_ok` is the caller's verdict on the normalized
    /// working directory; it is ignored when none is configured.
    pub fn cmd_run(&mut self, cmd: &String, dir_ok: bool) -> (r: Result<LaunchSetup, OutputEvent>)
        ensures
            final(self).working_directory == old(self).working_directory,
            final(self).stdout_is_log == old(self).stdout_is_log,
            final(self).stderr_is_log == old(self).stderr_is_log,
            final(self).child == old(self).child,
            final(self).shutdown_senders is Some,
            !dir_ok ==> (old(self).working_directory matches Some(d) ==> (r matches Err(e)
                && e matches OutputEvent::Error { message } && message@
                == "Working directory does not exist or is not a directory: "@
                + spec_normalize_separators(d@))),
            (old(self).working_directory is None || dir_ok) ==> (r matches Ok(setup) && {
                &&& setup.invocation.program@ == "sh"@
                &&& setup.invocation.args@.len() == 2
                &&& setup.invocation.args@[0]@ == "-c"@
                &&& setup.invocation.args@[1]@ == "exec "@ + cmd@
                &&& setup.invocation.env_name@ == "TEN_LOG_FORMATTER"@
                &&& setup.invocation.env_value@ == if old(self).stdout_is_log || old(
                    self,
                ).stderr_is_log {
                    "json"@
                } else {
                    ""@
                }
                &&& (old(self).working_directory is None ==> setup.invocation.working_dir is None)
                &&& (old(self).working_directory matches Some(d)
                    ==> (setup.invocation.working_dir matches Some(n) && n@
                    == spec_normalize_separators(d@)))
            }),
    {
        let (stdout_tx, stdout_rx) = signal_channel();
        let (stderr_tx, stderr_rx) = signal_channel();
        let (wait_tx, wait_rx) = signal_channel();
        self.shutdown_senders = Some(
            ShutdownSenders { stdout: stdout_tx, stderr: stderr_tx, wait: wait_tx },
        );

        let working_dir = match &self.working_directory {
            Some(d) => {
                let normalized = normalize_separators(d.as_str());
                if !dir_ok {
                    let message = "Working directory does not exist or is not a directory: "
                        .to_owned().concat(normalized.as_str());
                    return Err(OutputEvent::Error { message });
                }
                Some(normalized)
            },
            None => None,
        };

        let invocation = build_invocation(
            cmd,
            self.stdout_is_log,
            self.stderr_is_log,
            working_dir,
        );
        Ok(
            LaunchSetup {
                invocation,
                stdout_cancel: stdout_rx,
                stderr_cancel: stderr_rx,
                watcher_cancel: wait_rx,
            },
        )
    }

    /// Record the successfully spawned child; the session owns its handle
    /// until the one-time transfer to the watcher.
    pub fn on_spawned(&mut self, pid: u32)
        requires
            old(self).child is None,
        ensures
            final(self).child == Some(ChildHandle { pid }),
            final(self).working_directory == old(self).working_directory,
            final(self).stdout_is_log == old(self).stdout_is_log,
            final(self).stderr_is_log == old(self).stderr_is_log,
            final(self).shutdown_senders is Some <==> old(self).shutdown_senders is Some,
    {
        self.child = Some(ChildHandle { pid });
    }

    /// The one-time transfer of the child handle to the watcher worker: after
    /// it, the session holds nothing, so a later teardown cannot touch the
    /// handle the watcher owns.
    pub fn transfer_child_to_watcher(&mut self) -> (h: Option<ChildHandle>)
        ensures
            final(self).child is None,
            h == old(self).child,
            final(self).working_directory == old(self).working_directory,
            final(self).stdout_is_log == old(self).stdout_is_log,
            final(self).stderr_is_log == old(self).stderr_is_log,
            final(self).shutdown_senders is Some <==> old(self).shutdown_senders is Some,
    {
        let mut h: Option<ChildHandle> = None;
        core::mem::swap(&mut h, &mut self.child);
        h
    }

    /// The single `Error` event for a spawn the OS refused; no `Exit` event
    /// ever follows it, because no child exists to watch.
    pub fn spawn_error_event(err: &String) -> (e: OutputEvent)
        ensures
            e matches OutputEvent::Error { message } && message@ == "Failed to spawn command: "@
                + err@,
            !e.is_exit(),
    {
        let message = "Failed to spawn command: ".to_owned().concat(err.as_str());
        OutputEvent::Error { message }
    }

    /// Cancel and tear down: fire all three cancellation signals — the
    /// senders are consumed, so a second call finds none and fires nothing —
    /// and surrender the child handle, if the session still owns it, for the
    /// caller to kill (tree first, then the handle). When the watcher already
    /// owns the handle, nothing is returned and nothing may be killed here:
    /// the fired signal makes the watcher perform the kill, which rules out a
    /// double kill on the same handle. Canceling a command whose child is
    /// gone (or was never spawned) is a no-op.
    pub fn cleanup_threads(&mut self) -> (to_kill: Option<u32>)
        ensures
            final(self).shutdown_senders is None,
            final(self).child is None,
            final(self).working_directory == old(self).working_directory,
            final(self).stdout_is_log == old(self).stdout_is_log,
            final(self).stderr_is_log == old(self).stderr_is_log,
            old(self).child matches Some(h) ==> to_kill == Some(h.pid),
            old(self).child is None ==> to_kill is None,
    {
        let mut senders: Option<ShutdownSenders> = None;
        core::mem::swap(&mut senders, &mut self.shutdown_senders);
        match senders {
            Some(s) => {
                send_signal(&s.stdout);
                send_signal(&s.stderr);
                send_signal(&s.wait);
            },
            None => {},
        }

        let mut child: Option<ChildHandle> = None;
        core::mem::swap(&mut child, &mut self.child);
        match child {
            Some(h) => Some(h.pid),
            None => None,
        }
    }
}

} // verus!
