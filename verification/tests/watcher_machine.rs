use cmd_run::events::{OutputEvent, StreamKind};
use cmd_run::watcher::{PollOutcome, ProcessWatcher, WatcherAction, WatcherPhase};

#[test]
fn spontaneous_exit_then_joins_then_single_exit_event() {
    let mut w = ProcessWatcher::new(11, true, true);
    assert_eq!(
        w.step_running(false, PollOutcome::StillRunning),
        WatcherAction::Sleep
    );
    assert_eq!(
        w.step_running(false, PollOutcome::Exited { code: Some(0) }),
        WatcherAction::Proceed
    );
    assert_eq!(w.phase, WatcherPhase::Exited { code: 0 });

    // Both captured streams must report completion before Exit may be taken.
    assert_eq!(w.pending_join(), Some(StreamKind::Stdout));
    w.on_reader_done(StreamKind::Stdout);
    assert_eq!(w.pending_join(), Some(StreamKind::Stderr));
    w.on_reader_done(StreamKind::Stderr);
    assert_eq!(w.pending_join(), None);

    let e = w.take_exit_event();
    assert_eq!(e, OutputEvent::Exit { code: 0 });
    assert_eq!(w.phase, WatcherPhase::Finished { code: 0 });
}

#[test]
fn cancellation_mid_execution_kills_tree_then_exits_with_reaped_code() {
    let mut w = ProcessWatcher::new(77, true, true);
    // The cancel signal wins over everything else: the worker must terminate
    // the whole process tree rooted at the child, then reap it.
    assert_eq!(
        w.step_running(true, PollOutcome::StillRunning),
        WatcherAction::KillAndReap { pid: 77 }
    );
    assert_eq!(w.phase, WatcherPhase::Running);
    // The OS could not supply a code for the killed child: sentinel.
    w.on_child_reaped(None);
    assert_eq!(w.phase, WatcherPhase::Exited { code: -1 });

    w.on_reader_done(StreamKind::Stdout);
    w.on_reader_done(StreamKind::Stderr);
    assert_eq!(w.pending_join(), None);
    assert_eq!(w.take_exit_event(), OutputEvent::Exit { code: -1 });
}

#[test]
fn join_readers_consumes_both_completion_signals() {
    let (stdout_done_tx, stdout_done_rx) = crossbeam_channel::bounded::<()>(1);
    let (stderr_done_tx, stderr_done_rx) = crossbeam_channel::bounded::<()>(1);
    stdout_done_tx.send(()).unwrap();
    stderr_done_tx.send(()).unwrap();

    let mut w = ProcessWatcher::new(3, true, true);
    w.step_running(false, PollOutcome::Exited { code: Some(0) });
    w.join_readers(&stdout_done_rx, &stderr_done_rx);
    // Both signals were taken off their channels, and only now may Exit go out.
    assert!(stdout_done_rx.try_recv().is_err());
    assert!(stderr_done_rx.try_recv().is_err());
    assert_eq!(w.take_exit_event(), OutputEvent::Exit { code: 0 });
}

#[test]
fn uncaptured_streams_need_no_join() {
    let mut w = ProcessWatcher::new(5, false, false);
    w.step_running(false, PollOutcome::Exited { code: Some(9) });
    // Nothing to wait for: the terminal event is available immediately.
    assert_eq!(w.pending_join(), None);
    assert_eq!(w.take_exit_event(), OutputEvent::Exit { code: 9 });
}

#[test]
fn failed_poll_is_absorbed_as_sentinel_exit() {
    let mut w = ProcessWatcher::new(5, false, true);
    assert_eq!(
        w.step_running(false, PollOutcome::PollError),
        WatcherAction::Proceed
    );
    assert_eq!(w.phase, WatcherPhase::Exited { code: -1 });
    assert_eq!(w.pending_join(), Some(StreamKind::Stderr));
    w.on_reader_done(StreamKind::Stderr);
    assert_eq!(w.take_exit_event(), OutputEvent::Exit { code: -1 });
}

#[test]
fn os_reported_code_wins_over_sentinel() {
    let mut w = ProcessWatcher::new(5, false, false);
    assert_eq!(
        w.step_running(true, PollOutcome::StillRunning),
        WatcherAction::KillAndReap { pid: 5 }
    );
    w.on_child_reaped(Some(137));
    assert_eq!(w.take_exit_event(), OutputEvent::Exit { code: 137 });
}

#[test]
fn signal_aware_step_takes_the_kill_path() {
    let (tx, rx) = crossbeam_channel::bounded::<()>(1);
    tx.send(()).unwrap();
    let mut w = ProcessWatcher::new(9, false, false);
    assert_eq!(
        w.step_with_signal(&rx, PollOutcome::StillRunning),
        WatcherAction::KillAndReap { pid: 9 }
    );
    // The one-shot signal was consumed; from here the poll outcome decides.
    assert_eq!(
        w.step_with_signal(&rx, PollOutcome::StillRunning),
        WatcherAction::Sleep
    );
}
