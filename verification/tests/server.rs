use miniserver::listener::bind_address;
use miniserver::listener::compose_line;
use miniserver::listener::listener_step;
use miniserver::listener::log_prefix;
use miniserver::listener::ListenerAction;
use miniserver::listener::ListenerEvent;
use miniserver::listener::LogKind;
use miniserver::listener::BIND_FAILURE_STATUS;
use miniserver::listener::READ_DEADLINE_SECS;
use miniserver::parser::parse_request;
use miniserver::parser::AlwaysComplete;
use miniserver::parser::ParsePolicy;
use miniserver::session::report_outcome;
use miniserver::session::run_session;
use miniserver::session::AbandonReason;
use miniserver::session::Phase;
use miniserver::session::ReadEvent;
use miniserver::session::Session;
use miniserver::session::SessionOutcome;

#[test]
fn parse_request_declares_any_buffer_complete() {
    assert!(parse_request(&Vec::new()));
    assert!(parse_request(&b"hello".to_vec()));
    assert!(parse_request(&vec![0xff, 0xfe]));
}

#[test]
fn parse_decision_is_idempotent_on_a_snapshot() {
    let snapshot = b"partial request".to_vec();
    let first = parse_request(&snapshot);
    let second = parse_request(&snapshot);
    assert_eq!(first, second);
    let policy = AlwaysComplete;
    assert_eq!(policy.is_complete(&snapshot), policy.is_complete(&snapshot));
}

#[test]
fn session_reports_exactly_the_bytes_sent() {
    let events = vec![ReadEvent::Data(b"hello".to_vec())];
    let outcome = run_session(AlwaysComplete, true, &events);
    assert_eq!(outcome, Some(SessionOutcome::Reported("hello".to_string())));
}

#[test]
fn server_is_ready_for_the_next_connection() {
    let first = run_session(AlwaysComplete, true, &vec![ReadEvent::Data(b"hello".to_vec())]);
    assert_eq!(first, Some(SessionOutcome::Reported("hello".to_string())));
    let second = run_session(AlwaysComplete, true, &vec![ReadEvent::Data(b"goodbye".to_vec())]);
    assert_eq!(second, Some(SessionOutcome::Reported("goodbye".to_string())));
}

#[test]
fn sequential_sessions_share_no_buffer_state() {
    let one = run_session(AlwaysComplete, true, &vec![ReadEvent::Data(b"first".to_vec())]);
    let two = run_session(AlwaysComplete, true, &vec![ReadEvent::Data(b"second".to_vec())]);
    match (one, two) {
        (Some(SessionOutcome::Reported(a)), Some(SessionOutcome::Reported(b))) => {
            assert_eq!(a, "first");
            assert_eq!(b, "second");
            assert!(!a.contains("second"));
            assert!(!b.contains("first"));
        }
        other => panic!("both sessions should report: {:?}", other),
    }
}

#[test]
fn a_fresh_session_starts_with_an_empty_buffer() {
    let session = Session::new(AlwaysComplete);
    assert!(session.buffer.is_empty());
    assert!(matches!(session.phase, Phase::Idle));
}

#[test]
fn deadline_expiry_completes_on_zero_bytes() {
    let events = vec![ReadEvent::Failed];
    let outcome = run_session(AlwaysComplete, true, &events);
    assert_eq!(outcome, Some(SessionOutcome::Reported(String::new())));
}

#[test]
fn malformed_text_is_abandoned_without_a_report() {
    let events = vec![ReadEvent::Data(vec![0xff, 0xfe, 0xfd])];
    let outcome = run_session(AlwaysComplete, true, &events);
    assert!(matches!(
        outcome,
        Some(SessionOutcome::Abandoned(AbandonReason::Decode(_)))
    ));
    assert!(!matches!(outcome, Some(SessionOutcome::Reported(_))));
}

#[test]
fn config_failure_abandons_before_any_read() {
    let events = vec![ReadEvent::Data(b"never read".to_vec())];
    let outcome = run_session(AlwaysComplete, false, &events);
    assert_eq!(outcome, Some(SessionOutcome::Abandoned(AbandonReason::Config)));
}

#[test]
fn no_read_events_leaves_the_loop_waiting() {
    let events: Vec<ReadEvent> = Vec::new();
    assert_eq!(run_session(AlwaysComplete, true, &events), None);
}

#[test]
fn incremental_session_walkthrough() {
    let mut session = Session::new(AlwaysComplete);
    session.configure_deadline(true);
    assert!(matches!(session.phase, Phase::DeadlineSet));
    session.begin_reading();
    assert!(matches!(session.phase, Phase::Reading));
    let complete = session.on_read(&ReadEvent::Data(b"hi".to_vec()));
    assert!(complete);
    assert_eq!(session.buffer, b"hi".to_vec());
    assert!(matches!(session.phase, Phase::Decoding));
    let outcome = session.finish();
    assert_eq!(outcome, SessionOutcome::Reported("hi".to_string()));
}

#[test]
fn a_failed_read_contributes_zero_bytes() {
    let mut session = Session::new(AlwaysComplete);
    session.configure_deadline(true);
    session.begin_reading();
    let complete = session.on_read(&ReadEvent::Failed);
    assert!(complete);
    assert!(session.buffer.is_empty());
    assert_eq!(session.finish(), SessionOutcome::Reported(String::new()));
}

#[test]
fn report_outcome_maps_each_decoding_result() {
    let ok = report_outcome(Ok("body".to_string()));
    assert_eq!(ok, SessionOutcome::Reported("body".to_string()));
    let err = report_outcome(Err("invalid utf-8 sequence".to_string()));
    assert_eq!(
        err,
        SessionOutcome::Abandoned(AbandonReason::Decode("invalid utf-8 sequence".to_string()))
    );
}

#[test]
fn bind_failure_is_fatal_with_status_one() {
    assert_eq!(listener_step(ListenerEvent::BindFailed), ListenerAction::Exit(1));
    assert_eq!(BIND_FAILURE_STATUS, 1);
}

#[test]
fn accept_failure_skips_to_the_next_connection() {
    assert_eq!(listener_step(ListenerEvent::AcceptFailed), ListenerAction::SkipConnection);
    assert_eq!(listener_step(ListenerEvent::Accepted), ListenerAction::RunSession);
}

#[test]
fn the_address_and_deadline_are_fixed() {
    assert_eq!(bind_address(), "127.0.0.1:8080");
    assert_eq!(READ_DEADLINE_SECS, 15);
}

#[test]
fn the_report_line_contains_the_full_body() {
    let line = compose_line(log_prefix(LogKind::Report), "hello");
    assert_eq!(line, "received new response body: hello");
    assert!(line.contains("hello"));
}

#[test]
fn each_log_line_opens_with_its_fixed_text() {
    assert_eq!(log_prefix(LogKind::BindFailure), "failed to open socket on port 8080: ");
    assert_eq!(log_prefix(LogKind::AcceptFailure), "failed to open incoming stream: ");
    assert_eq!(
        log_prefix(LogKind::ConfigFailure),
        "failed to set read timeout on incoming stream: "
    );
    assert_eq!(log_prefix(LogKind::DecodeFailure), "failed to convert buffer to string: ");
    let bind_line = compose_line(log_prefix(LogKind::BindFailure), "address already in use");
    assert_eq!(bind_line, "failed to open socket on port 8080: address already in use");
}
