use sidecar_supervisor::event::CommandEvent;
use sidecar_supervisor::event::TerminatedPayload;
use sidecar_supervisor::middleware::LogsMiddleware;
use sidecar_supervisor::middleware::SqliteMigrationProgress;

#[test]
fn plain_line_is_identity() {
    let mut mw = LogsMiddleware::new();
    let (fwd, sig) = mw.step(CommandEvent::Stdout("hello world".to_string()));
    assert_eq!(fwd, Some(CommandEvent::Stdout("hello world".to_string())));
    assert_eq!(sig, None);
    assert!(!mw.done);
}

#[test]
fn progress_line_fires_and_is_suppressed() {
    let mut mw = LogsMiddleware::new();
    let (fwd, sig) = mw.step(CommandEvent::Stdout("sqlite-migration: 42".to_string()));
    assert_eq!(fwd, None);
    assert_eq!(sig, Some(SqliteMigrationProgress::InProgress(42)));
    assert!(!mw.done);
}

#[test]
fn stderr_marker_line_is_also_intercepted() {
    let mut mw = LogsMiddleware::new();
    let (fwd, sig) = mw.step(CommandEvent::Stderr("sqlite-migration: 7".to_string()));
    assert_eq!(fwd, None);
    assert_eq!(sig, Some(SqliteMigrationProgress::InProgress(7)));
}

#[test]
fn done_line_latches_permanently() {
    let mut mw = LogsMiddleware::new();
    let (fwd, sig) = mw.step(CommandEvent::Stdout("sqlite-migration: done".to_string()));
    assert_eq!(fwd, None);
    assert_eq!(sig, Some(SqliteMigrationProgress::Done));
    assert!(mw.done);

    // Every later line passes through unfiltered, marker or not.
    let (fwd, sig) = mw.step(CommandEvent::Stdout("sqlite-migration: 10".to_string()));
    assert_eq!(fwd, Some(CommandEvent::Stdout("sqlite-migration: 10".to_string())));
    assert_eq!(sig, None);
    let (fwd, sig) = mw.step(CommandEvent::Stdout("sqlite-migration: done".to_string()));
    assert_eq!(fwd, Some(CommandEvent::Stdout("sqlite-migration: done".to_string())));
    assert_eq!(sig, None);
    assert!(mw.done);
}

#[test]
fn malformed_payloads_pass_through() {
    for line in [
        "sqlite-migration: wat",
        "sqlite-migration: 300",
        "sqlite-migration: 256",
        "sqlite-migration:",
        "sqlite-migration: ",
        "sqlite-migration: +42",
        "sqlite-migration: 4 2",
        "sqlite-migration: done ",
        "sqlite-migration: Done",
    ] {
        let mut mw = LogsMiddleware::new();
        let (fwd, sig) = mw.step(CommandEvent::Stdout(line.to_string()));
        assert_eq!(fwd, Some(CommandEvent::Stdout(line.to_string())), "line: {line}");
        assert_eq!(sig, None, "line: {line}");
        assert!(!mw.done, "line: {line}");
    }
}

#[test]
fn multibyte_payload_passes_through() {
    let mut mw = LogsMiddleware::new();
    let (fwd, sig) = mw.step(CommandEvent::Stdout("sqlite-migration: über".to_string()));
    assert_eq!(fwd, Some(CommandEvent::Stdout("sqlite-migration: über".to_string())));
    assert_eq!(sig, None);
}

#[test]
fn marker_must_start_the_line() {
    let mut mw = LogsMiddleware::new();
    let (fwd, sig) = mw.step(CommandEvent::Stdout(" sqlite-migration: 42".to_string()));
    assert_eq!(fwd, Some(CommandEvent::Stdout(" sqlite-migration: 42".to_string())));
    assert_eq!(sig, None);
}

#[test]
fn progress_edge_values() {
    let cases = [
        ("sqlite-migration: 0", 0u8),
        ("sqlite-migration: 255", 255u8),
        ("sqlite-migration: 007", 7u8),
        ("sqlite-migration:42", 42u8),
        ("sqlite-migration:    100", 100u8),
    ];
    for (line, expected) in cases {
        let mut mw = LogsMiddleware::new();
        let (fwd, sig) = mw.step(CommandEvent::Stdout(line.to_string()));
        assert_eq!(fwd, None, "line: {line}");
        assert_eq!(sig, Some(SqliteMigrationProgress::InProgress(expected)), "line: {line}");
    }
}

#[test]
fn non_line_events_pass_through() {
    let mut mw = LogsMiddleware::new();
    let (fwd, sig) = mw.step(CommandEvent::Error("boom".to_string()));
    assert_eq!(fwd, Some(CommandEvent::Error("boom".to_string())));
    assert_eq!(sig, None);

    let payload = TerminatedPayload { code: Some(3), signal: None };
    let (fwd, sig) = mw.step(CommandEvent::Terminated(payload));
    assert_eq!(fwd, Some(CommandEvent::Terminated(payload)));
    assert_eq!(sig, None);
}

#[test]
fn apply_filters_a_whole_stream() {
    let mut mw = LogsMiddleware::new();
    let payload = TerminatedPayload { code: Some(0), signal: None };
    let events = vec![
        CommandEvent::Stdout("starting".to_string()),
        CommandEvent::Stdout("sqlite-migration: 10".to_string()),
        CommandEvent::Stderr("sqlite-migration: 90".to_string()),
        CommandEvent::Stdout("sqlite-migration: done".to_string()),
        CommandEvent::Stdout("sqlite-migration: 10".to_string()),
        CommandEvent::Terminated(payload),
    ];
    let (out, signals) = mw.apply(events);
    assert_eq!(
        out,
        vec![
            CommandEvent::Stdout("starting".to_string()),
            CommandEvent::Stdout("sqlite-migration: 10".to_string()),
            CommandEvent::Terminated(payload),
        ]
    );
    assert_eq!(
        signals,
        vec![
            SqliteMigrationProgress::InProgress(10),
            SqliteMigrationProgress::InProgress(90),
            SqliteMigrationProgress::Done,
        ]
    );
    assert!(mw.done);

    // The terminal event is still last, and still unique.
    let terminals = out
        .iter()
        .filter(|e| matches!(e, CommandEvent::Terminated(_)))
        .count();
    assert_eq!(terminals, 1);
    assert!(matches!(out.last(), Some(CommandEvent::Terminated(_))));
}
