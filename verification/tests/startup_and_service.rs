use ctrl_oem3::control::{
    IDLE_TIMEOUT_SECS, handle_connection, keepalive_server, open_connection, start_server, ConnectionAction,
    ConnectionEvent, ConnectionState, ServerAction, ServerEvent, ServerState,
};
use ctrl_oem3::idle::{new_pair, resume_wait, WaitAction, WaitEvent, WaitStep};
use ctrl_oem3::pattern::WindowMatcher;
use ctrl_oem3::startup::{
    decode_base64, on_instance_check, pattern_from_bytes, Launch, OverrideError,
};
use std::time::Duration;

const DEFAULT_PATTERN: &str = "Visual Studio Code$";

fn listening() -> ServerState {
    let first = start_server();
    assert_eq!(first.action, ServerAction::CreateEndpoint { first: true });
    let step = keepalive_server(first.next, ServerEvent::EndpointReady).unwrap();
    assert_eq!(step.action, ServerAction::Accept);
    step.next
}

#[test]
fn base64_pattern_is_decoded() {
    assert_eq!(decode_base64("XkNvZGUk"), Ok("^Code$".to_string()));
    assert_eq!(decode_base64(""), Ok(String::new()));
    assert_eq!(decode_base64("Ww=="), Ok("[".to_string()));
    assert_eq!(decode_base64("w6k="), Ok("\u{e9}".to_string()));
}

#[test]
fn text_that_is_not_base64_is_rejected() {
    assert_eq!(decode_base64("^Code$"), Err(OverrideError::NotBase64));
    assert_eq!(decode_base64("Ww"), Err(OverrideError::NotBase64));
    assert_eq!(decode_base64("Ww= ="), Err(OverrideError::NotBase64));
}

#[test]
fn decoded_bytes_must_be_utf8() {
    assert_eq!(decode_base64("/w=="), Err(OverrideError::NotUtf8));
    assert_eq!(pattern_from_bytes(vec![0xff]), Err(OverrideError::NotUtf8));
    assert_eq!(pattern_from_bytes(vec![0xc3, 0xa9]), Ok("\u{e9}".to_string()));
    assert_eq!(pattern_from_bytes(vec![]), Ok(String::new()));
}

#[test]
fn second_instance_leaves_the_first_in_charge() {
    assert_eq!(on_instance_check(false), Launch::Reuse);
    assert_eq!(on_instance_check(true), Launch::Serve);
}

#[test]
fn service_with_valid_pattern_reports_ok() {
    let matcher = WindowMatcher::new(DEFAULT_PATTERN, DEFAULT_PATTERN).unwrap();
    let state = open_connection().next;
    let step =
        handle_connection(matcher.has_configured(), state, ConnectionEvent::Received(71)).unwrap();
    assert_eq!(step.action, ConnectionAction::Reply(171));
}

#[test]
fn service_with_invalid_configured_pattern_gripes() {
    let configured = decode_base64("Ww==").unwrap();
    let matcher = WindowMatcher::new(DEFAULT_PATTERN, &configured).unwrap();
    assert!(!matcher.has_configured());
    let state = open_connection().next;
    let step =
        handle_connection(matcher.has_configured(), state, ConnectionEvent::Received(71)).unwrap();
    assert_eq!(step.action, ConnectionAction::Reply(172));
    assert!(matcher.matches("main.rs - Visual Studio Code"));
}

#[test]
fn stop_request_ends_the_service_with_success() {
    let mut server = listening();
    server = keepalive_server(server, ServerEvent::Connected).unwrap().next;
    let served = keepalive_server(server, ServerEvent::EndpointReady).unwrap();
    assert_eq!(served.action, ServerAction::Serve);
    let (mut obs, mut idle) = new_pair(Duration::from_secs(6));
    let guard = obs.get_active();
    let conn = open_connection().next;
    let stop = handle_connection(true, conn, ConnectionEvent::Received(72)).unwrap();
    assert_eq!(stop.action, ConnectionAction::SignalStop);
    let end = handle_connection(true, stop.next, ConnectionEvent::Cancelled).unwrap();
    assert_eq!(end.next, ConnectionState::Closed);
    assert_eq!(end.action, ConnectionAction::Finish(None));
    drop(guard);
    assert_eq!(idle.wait(), WaitAction::AwaitChangeOrTimer);
    let stopped = keepalive_server(served.next, ServerEvent::Cancelled).unwrap();
    assert_eq!(stopped.next, ServerState::Stopped);
    assert_eq!(stopped.action, ServerAction::Finish(None));
}

#[test]
fn service_without_connections_ends_after_the_idle_timeout() {
    let server = listening();
    let (_obs, mut idle) = new_pair(Duration::from_secs(IDLE_TIMEOUT_SECS));
    assert_eq!(idle.timeout, Duration::from_secs(6));
    let action = idle.wait();
    assert_eq!(action, WaitAction::AwaitChangeOrTimer);
    assert_eq!(resume_wait(action, WaitEvent::TimerElapsed), Some(WaitStep::Finish(Ok(()))));
    let stopped = keepalive_server(server, ServerEvent::IdleElapsed).unwrap();
    assert_eq!(stopped.action, ServerAction::Finish(None));
}

#[test]
fn new_connection_restarts_the_idle_countdown() {
    let (mut obs, mut idle) = new_pair(Duration::from_secs(6));
    let action = idle.wait();
    assert_eq!(action, WaitAction::AwaitChangeOrTimer);
    let guard = obs.get_active();
    assert_eq!(resume_wait(action, WaitEvent::Changed), Some(WaitStep::Observe));
    let action = idle.wait();
    assert_eq!(action, WaitAction::AwaitChange);
    assert_eq!(resume_wait(action, WaitEvent::TimerElapsed), None);
    drop(guard);
    assert_eq!(resume_wait(action, WaitEvent::Changed), Some(WaitStep::Observe));
    assert_eq!(idle.wait(), WaitAction::AwaitChangeOrTimer);
}
