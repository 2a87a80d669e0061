use sidecar_supervisor::control::KillRequestError;
use sidecar_supervisor::control::KillSwitch;
use sidecar_supervisor::event::CommandEvent;
use sidecar_supervisor::event::StreamKind;
use sidecar_supervisor::event::TerminatedPayload;
use sidecar_supervisor::reader::DrainBarrier;
use sidecar_supervisor::reader::ReadOutcome;
use sidecar_supervisor::reader::read_step;
use sidecar_supervisor::serve::ServeAction;
use sidecar_supervisor::serve::ServeConsumer;
use sidecar_supervisor::serve::TerminationNotice;
use sidecar_supervisor::supervisor::ExitStatusModel;
use sidecar_supervisor::supervisor::PollResult;
use sidecar_supervisor::supervisor::TerminationSupervisor;
use sidecar_supervisor::supervisor::WaitOutcome;
use sidecar_supervisor::supervisor::normalize_status;
use sidecar_supervisor::supervisor::signal_from_status;

#[test]
fn normal_exit_reports_code_and_no_signal() {
    let status = ExitStatusModel { code: Some(3), signal: None };
    let p = normalize_status(&status, true);
    assert_eq!(p, TerminatedPayload { code: Some(3), signal: None });
    let p = normalize_status(&status, false);
    assert_eq!(p, TerminatedPayload { code: Some(3), signal: None });
}

#[test]
fn signal_kill_reports_signal_and_no_code_on_posix() {
    let status = ExitStatusModel { code: None, signal: Some(9) };
    let p = normalize_status(&status, true);
    assert_eq!(p, TerminatedPayload { code: None, signal: Some(9) });
}

#[test]
fn platforms_without_signal_semantics_never_report_one() {
    let status = ExitStatusModel { code: Some(1), signal: Some(9) };
    assert_eq!(signal_from_status(&status, false), None);
    let p = normalize_status(&status, false);
    assert_eq!(p, TerminatedPayload { code: Some(1), signal: None });
}

#[test]
fn poll_emits_terminated_on_exit() {
    let mut sup = TerminationSupervisor::new(true);
    assert_eq!(sup.poll(PollResult::StillRunning), None);
    assert!(!sup.finished);
    let status = ExitStatusModel { code: Some(0), signal: None };
    let r = sup.poll(PollResult::Exited(status));
    assert_eq!(
        r,
        Some(CommandEvent::Terminated(TerminatedPayload { code: Some(0), signal: None }))
    );
    assert!(sup.finished);
}

#[test]
fn wait_failure_emits_error_instead_of_terminated() {
    let mut sup = TerminationSupervisor::new(true);
    let r = sup.poll(PollResult::WaitFailed("wait failed".to_string()));
    assert_eq!(r, Some(CommandEvent::Error("wait failed".to_string())));
    assert!(sup.finished);
}

#[test]
fn kill_request_is_consumed_once() {
    let mut sup = TerminationSupervisor::new(true);
    assert!(!sup.wait(WaitOutcome::TickElapsed));
    assert!(sup.kill_open);
    // The first request starts the forceful termination.
    assert!(sup.wait(WaitOutcome::KillRequested));
    assert!(!sup.kill_open);
    // Later requests are no longer listened for.
    assert!(!sup.wait(WaitOutcome::KillRequested));
    assert!(!sup.wait(WaitOutcome::TickElapsed));
}

#[test]
fn closed_kill_channel_stops_listening_without_killing() {
    let mut sup = TerminationSupervisor::new(true);
    assert!(!sup.wait(WaitOutcome::KillChannelClosed));
    assert!(!sup.kill_open);
    assert!(!sup.wait(WaitOutcome::KillRequested));
}

#[test]
fn kill_switch_is_single_use() {
    let mut ks = KillSwitch::new();
    assert_eq!(ks.request(), Ok(()));
    assert_eq!(ks.request(), Err(KillRequestError::AlreadyPending));
    assert!(ks.consume());
    // Consuming closed the switch for good.
    assert!(!ks.consume());
    assert_eq!(ks.request(), Err(KillRequestError::Closed));
}

#[test]
fn kill_after_exit_is_a_no_op() {
    let mut ks = KillSwitch::new();
    // The supervisor observed the exit and closed the switch without a
    // request having been made.
    assert!(!ks.consume());
    assert_eq!(ks.request(), Err(KillRequestError::Closed));
    assert!(!ks.consume());
}

#[test]
fn reader_tags_lines_by_stream() {
    let (e, go_on) = read_step(StreamKind::Stdout, ReadOutcome::Line("a".to_string()));
    assert_eq!(e, Some(CommandEvent::Stdout("a".to_string())));
    assert!(go_on);
    let (e, go_on) = read_step(StreamKind::Stderr, ReadOutcome::Line("b".to_string()));
    assert_eq!(e, Some(CommandEvent::Stderr("b".to_string())));
    assert!(go_on);
}

#[test]
fn reader_stops_silently_at_end_of_stream() {
    let (e, go_on) = read_step(StreamKind::Stdout, ReadOutcome::EndOfStream);
    assert_eq!(e, None);
    assert!(!go_on);
}

#[test]
fn reader_reports_one_error_and_stops() {
    let (e, go_on) = read_step(StreamKind::Stderr, ReadOutcome::ReadError("broken pipe".to_string()));
    assert_eq!(e, Some(CommandEvent::Error("broken pipe".to_string())));
    assert!(!go_on);
}

#[test]
fn serve_consumer_resolves_exactly_once() {
    let mut c = ServeConsumer::new();
    assert_eq!(
        c.consume(CommandEvent::Stdout("line".to_string())),
        ServeAction::LogLine("line".to_string())
    );
    assert_eq!(
        c.consume(CommandEvent::Stderr("warn".to_string())),
        ServeAction::LogLine("warn".to_string())
    );
    assert_eq!(
        c.consume(CommandEvent::Error("oops".to_string())),
        ServeAction::LogError("oops".to_string())
    );
    let payload = TerminatedPayload { code: Some(0), signal: None };
    assert_eq!(c.consume(CommandEvent::Terminated(payload)), ServeAction::Resolve(payload));
    assert_eq!(c.notice.payload, Some(payload));
    // A second terminal event, which cannot occur, would be ignored.
    let other = TerminatedPayload { code: Some(1), signal: None };
    assert_eq!(c.consume(CommandEvent::Terminated(other)), ServeAction::Ignore);
    assert_eq!(c.notice.payload, Some(payload));
}

#[test]
fn drain_barrier_tracks_active_readers() {
    let mut b = DrainBarrier::new();
    assert!(b.drained());
    b.register();
    b.register();
    assert!(!b.drained());
    b.deregister();
    assert!(!b.drained());
    b.deregister();
    assert!(b.drained());
}

#[test]
fn termination_notice_fires_once() {
    let mut n = TerminationNotice::new();
    let a = TerminatedPayload { code: None, signal: Some(15) };
    let b = TerminatedPayload { code: Some(0), signal: None };
    assert!(n.send(a));
    assert!(!n.send(b));
    assert_eq!(n.payload, Some(a));
}
