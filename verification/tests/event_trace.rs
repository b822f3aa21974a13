use cmd_run::events::{OutputEvent, StreamKind};
use cmd_run::reader::{log_record_event, reader_poll_step, reader_step, ReadOutcome, ReaderStep};
use cmd_run::trace::command_events;

fn no_meta(n: usize) -> Vec<Option<String>> {
    let mut v = Vec::new();
    for _ in 0..n {
        v.push(None);
    }
    v
}

#[test]
fn two_lines_then_exit() {
    // printf a\nb\n with log mode off: two plain line events, then Exit{0}.
    let lines = vec!["a".to_string(), "b".to_string()];
    let events = command_events(&lines, &no_meta(2), false, &Vec::new(), &no_meta(0), false, 0);
    assert_eq!(
        events,
        vec![
            OutputEvent::StdOutLine { text: "a".to_string() },
            OutputEvent::StdOutLine { text: "b".to_string() },
            OutputEvent::Exit { code: 0 },
        ]
    );
}

#[test]
fn exactly_one_exit_and_it_is_last() {
    let out = vec!["x".to_string(), "y".to_string()];
    let err = vec!["oops".to_string()];
    let events = command_events(&out, &no_meta(2), false, &err, &no_meta(1), false, 7);
    let exits: Vec<&OutputEvent> = events
        .iter()
        .filter(|e| matches!(e, OutputEvent::Exit { .. }))
        .collect();
    assert_eq!(exits.len(), 1);
    assert_eq!(events.last(), Some(&OutputEvent::Exit { code: 7 }));
    for e in &events[..events.len() - 1] {
        assert!(!matches!(e, OutputEvent::Exit { .. }));
    }
}

#[test]
fn exit_emitted_even_with_no_captured_output() {
    let events = command_events(&Vec::new(), &no_meta(0), false, &Vec::new(), &no_meta(0), false, 3);
    assert_eq!(events, vec![OutputEvent::Exit { code: 3 }]);
}

#[test]
fn log_mode_attaches_metadata_to_each_line() {
    let lines = vec!["record".to_string()];
    let metas = vec![Some("meta".to_string())];
    let events = command_events(&lines, &metas, true, &Vec::new(), &no_meta(0), false, 0);
    assert_eq!(
        events[0],
        OutputEvent::StdOutLogRecord {
            text: "record".to_string(),
            metadata: Some("meta".to_string()),
        }
    );
}

#[test]
fn reader_routes_through_parser_only_in_log_mode() {
    // Log mode off: the line is forwarded verbatim, no parser step.
    let step = reader_step(
        StreamKind::Stdout,
        false,
        false,
        ReadOutcome::Line("plain".to_string()),
    );
    assert!(matches!(
        step,
        ReaderStep::Emit(OutputEvent::StdOutLine { ref text }) if text == "plain"
    ));

    // Log mode on: the reader must hand the line to the parser first.
    let step = reader_step(
        StreamKind::Stderr,
        true,
        false,
        ReadOutcome::Line("log line".to_string()),
    );
    assert!(matches!(step, ReaderStep::ParseLine(ref l) if l == "log line"));

    // The parser's metadata (possibly none) accompanies the line event.
    let e = log_record_event(StreamKind::Stderr, "log line".to_string(), None);
    assert_eq!(
        e,
        OutputEvent::StdErrLogRecord { text: "log line".to_string(), metadata: None }
    );
}

#[test]
fn reader_stops_on_cancellation_and_stream_end() {
    let step = reader_step(
        StreamKind::Stdout,
        false,
        true,
        ReadOutcome::Line("late".to_string()),
    );
    assert!(matches!(step, ReaderStep::Stop));
    let step = reader_step(StreamKind::Stdout, false, false, ReadOutcome::EndOfStream);
    assert!(matches!(step, ReaderStep::Stop));
    let step = reader_step(StreamKind::Stderr, true, false, ReadOutcome::ReadError);
    assert!(matches!(step, ReaderStep::Stop));
}

#[test]
fn polled_reader_stops_once_its_signal_arrived() {
    let (tx, rx) = crossbeam_channel::bounded::<()>(1);
    let step = reader_poll_step(&rx, StreamKind::Stdout, false, ReadOutcome::Line("a".to_string()));
    assert!(matches!(step, ReaderStep::Emit(OutputEvent::StdOutLine { ref text }) if text == "a"));
    tx.send(()).unwrap();
    let step = reader_poll_step(&rx, StreamKind::Stdout, false, ReadOutcome::Line("b".to_string()));
    assert!(matches!(step, ReaderStep::Stop));
}
