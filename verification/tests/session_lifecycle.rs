use cmd_run::events::OutputEvent;
use cmd_run::session::WsRunCmd;

#[test]
fn invocation_is_posix_shell_with_exec_wrapper() {
    let mut session = WsRunCmd::new(None, false, false);
    let setup = session
        .cmd_run(&"printf 'a\nb\n'".to_string(), true)
        .expect("no working directory is configured, so the launch must be ok");
    let inv = &setup.invocation;
    assert_eq!(inv.program, "sh");
    assert_eq!(inv.args, vec!["-c".to_string(), "exec printf 'a\nb\n'".to_string()]);
    assert_eq!(inv.env_name, "TEN_LOG_FORMATTER");
    assert_eq!(inv.env_value, "");
    assert_eq!(inv.working_dir, None);
}

#[test]
fn log_formatter_set_when_either_stream_is_log() {
    let mut session = WsRunCmd::new(None, true, false);
    let setup = session.cmd_run(&"true".to_string(), true).unwrap();
    assert_eq!(setup.invocation.env_value, "json");

    let mut session = WsRunCmd::new(None, false, true);
    let setup = session.cmd_run(&"true".to_string(), true).unwrap();
    assert_eq!(setup.invocation.env_value, "json");
}

#[test]
fn missing_working_directory_yields_single_error_and_no_spawn() {
    let mut session = WsRunCmd::new(Some("no\\such\\dir".to_string()), false, false);
    // The caller found the normalized directory missing: no invocation comes
    // back, so nothing can be spawned; the one Error event names the path.
    let err = match session.cmd_run(&"true".to_string(), false) {
        Err(e) => e,
        Ok(_) => panic!("a missing working directory must be rejected"),
    };
    match &err {
        OutputEvent::Error { message } => {
            assert_eq!(
                message,
                "Working directory does not exist or is not a directory: no/such/dir"
            );
        },
        other => panic!("expected an Error event, got {other:?}"),
    }
    assert!(!matches!(err, OutputEvent::Exit { .. }));
    // No child was ever recorded, so teardown finds nothing to kill: no Exit
    // event will ever be produced for this command.
    assert_eq!(session.cleanup_threads(), None);
}

#[test]
fn working_directory_separators_are_normalized() {
    let session = WsRunCmd::new(Some("a\\b\\c".to_string()), false, false);
    assert_eq!(session.working_dir_normalized(), Some("a/b/c".to_string()));
    let session = WsRunCmd::new(None, false, false);
    assert_eq!(session.working_dir_normalized(), None);
}

#[test]
fn empty_command_still_gets_the_exec_wrapper() {
    let mut session = WsRunCmd::new(None, false, false);
    let setup = session.cmd_run(&String::new(), true).unwrap();
    assert_eq!(setup.invocation.args[1], "exec ");
}

#[test]
fn paths_without_backslashes_are_unchanged() {
    let session = WsRunCmd::new(Some("/usr/local/bin".to_string()), false, false);
    assert_eq!(session.working_dir_normalized(), Some("/usr/local/bin".to_string()));
}

#[test]
fn spawn_error_yields_error_event_and_no_exit() {
    let e = WsRunCmd::spawn_error_event(&"No such file or directory".to_string());
    assert_eq!(
        e,
        OutputEvent::Error {
            message: "Failed to spawn command: No such file or directory".to_string()
        }
    );
    assert!(!matches!(e, OutputEvent::Exit { .. }));
}

#[test]
fn cleanup_is_idempotent_and_surrenders_the_child_once() {
    let mut session = WsRunCmd::new(None, false, false);
    let _setup = session.cmd_run(&"sleep 100".to_string(), true).unwrap();
    session.on_spawned(4242);
    // First teardown: the session still owns the child, so the caller must
    // kill pid 4242 (tree first, then the handle).
    assert_eq!(session.cleanup_threads(), Some(4242));
    // Second teardown: signals already consumed, child already surrendered —
    // a safe no-op, no double kill.
    assert_eq!(session.cleanup_threads(), None);
}

#[test]
fn teardown_after_transfer_does_not_touch_the_watchers_handle() {
    let mut session = WsRunCmd::new(None, false, false);
    let _setup = session.cmd_run(&"sleep 100".to_string(), true).unwrap();
    session.on_spawned(7);
    let handle = session.transfer_child_to_watcher();
    assert_eq!(handle.map(|h| h.pid), Some(7));
    // The watcher owns the handle now: teardown fires the signals but must
    // not kill through the session, avoiding a double kill on one handle.
    assert_eq!(session.cleanup_threads(), None);
}

#[test]
fn cancellation_signals_reach_all_three_workers() {
    let mut session = WsRunCmd::new(None, false, false);
    let setup = session.cmd_run(&"sleep 100".to_string(), true).unwrap();
    session.cleanup_threads();
    // Each worker's one-shot channel now carries its signal.
    assert!(setup.stdout_cancel.try_recv().is_ok());
    assert!(setup.stderr_cancel.try_recv().is_ok());
    assert!(setup.watcher_cancel.try_recv().is_ok());
}

#[test]
fn starting_a_command_installs_fresh_signals() {
    let mut session = WsRunCmd::new(None, false, false);
    let first = session.cmd_run(&"true".to_string(), true).unwrap();
    let second = session.cmd_run(&"true".to_string(), true).unwrap();
    session.cleanup_threads();
    // Only the freshly installed set is fired.
    assert!(first.watcher_cancel.try_recv().is_err());
    assert!(second.watcher_cancel.try_recv().is_ok());
}
