use unifi_protect_client::flow::{Event, Phase, RequestFlow, Step};
use unifi_protect_client::{status_is_auth_failure, status_is_success, Method, RequestError};

fn network_error() -> reqwest::Error {
    reqwest::Client::new().get("not a url").build().unwrap_err()
}

#[test]
fn start_with_session_sends_at_once() {
    let (flow, step) = RequestFlow::start(Method::Get, true);
    assert!(matches!(step, Step::Send));
    assert_eq!(flow.phase, Phase::Awaiting);
    assert_eq!(flow.retries_remaining, 1);
}

#[test]
fn start_without_session_logs_in_first() {
    let (flow, step) = RequestFlow::start(Method::Patch, false);
    assert!(matches!(step, Step::Authenticate));
    assert_eq!(flow.phase, Phase::Authenticating);
    let (flow, step) = flow.next(Event::Authenticated(Ok(())));
    assert!(matches!(step, Step::Send));
    assert_eq!(flow.phase, Phase::Awaiting);
}

#[test]
fn get_success_is_decoded_then_done() {
    let (flow, _) = RequestFlow::start(Method::Get, true);
    let (flow, step) = flow.next(Event::Responded(Ok(200)));
    assert!(matches!(step, Step::Decode));
    assert_eq!(flow.phase, Phase::Decoding);
    let (flow, step) = flow.next(Event::Decoded(Ok(())));
    assert!(matches!(step, Step::Finish(Ok(()))));
    assert_eq!(flow.phase, Phase::Finished);
}

#[test]
fn patch_success_is_done_at_once() {
    let (flow, _) = RequestFlow::start(Method::Patch, true);
    let (flow, step) = flow.next(Event::Responded(Ok(204)));
    assert!(matches!(step, Step::Finish(Ok(()))));
    assert_eq!(flow.phase, Phase::Finished);
}

#[test]
fn get_rejection_logs_in_again_and_resends() {
    let (flow, _) = RequestFlow::start(Method::Get, true);
    let (flow, step) = flow.next(Event::Responded(Ok(401)));
    assert!(matches!(step, Step::Authenticate));
    assert_eq!(flow.retries_remaining, 0);
    let (flow, step) = flow.next(Event::Authenticated(Ok(())));
    assert!(matches!(step, Step::Send));
    let (flow, step) = flow.next(Event::Responded(Ok(200)));
    assert!(matches!(step, Step::Decode));
    let (_, step) = flow.next(Event::Decoded(Ok(())));
    assert!(matches!(step, Step::Finish(Ok(()))));
}

#[test]
fn second_rejection_is_unauthorized() {
    let (flow, _) = RequestFlow::start(Method::Get, false);
    let (flow, _) = flow.next(Event::Authenticated(Ok(())));
    let (flow, step) = flow.next(Event::Responded(Ok(401)));
    assert!(matches!(step, Step::Authenticate));
    let (flow, step) = flow.next(Event::Authenticated(Ok(())));
    assert!(matches!(step, Step::Send));
    let (flow, step) = flow.next(Event::Responded(Ok(401)));
    assert!(matches!(step, Step::Finish(Err(RequestError::Unauthorized))));
    assert_eq!(flow.phase, Phase::Finished);
}

#[test]
fn get_forbidden_logs_in_again() {
    let (flow, _) = RequestFlow::start(Method::Get, true);
    let (flow, step) = flow.next(Event::Responded(Ok(403)));
    assert!(matches!(step, Step::Authenticate));
    let (flow, _) = flow.next(Event::Authenticated(Ok(())));
    let (_, step) = flow.next(Event::Responded(Ok(403)));
    assert!(matches!(step, Step::Finish(Err(RequestError::Unauthorized))));
}

#[test]
fn session_is_held_after_login_and_kept() {
    let (flow, _) = RequestFlow::start(Method::Get, false);
    assert!(!flow.session_held);
    let (flow, _) = flow.next(Event::Authenticated(Ok(())));
    assert!(flow.session_held);
    let (flow, _) = flow.next(Event::Responded(Ok(500)));
    assert!(flow.session_held);
    let (_, step) = RequestFlow::start(Method::Patch, flow.session_held);
    assert!(matches!(step, Step::Send));
}

#[test]
fn failed_login_holds_no_session() {
    let (flow, _) = RequestFlow::start(Method::Patch, false);
    let (flow, _) = flow.next(Event::Authenticated(Err(RequestError::Unknown)));
    assert!(!flow.session_held);
}

#[test]
fn patch_forbidden_logs_in_again() {
    let (flow, _) = RequestFlow::start(Method::Patch, true);
    let (flow, step) = flow.next(Event::Responded(Ok(403)));
    assert!(matches!(step, Step::Authenticate));
    let (flow, _) = flow.next(Event::Authenticated(Ok(())));
    let (_, step) = flow.next(Event::Responded(Ok(403)));
    assert!(matches!(step, Step::Finish(Err(RequestError::Unauthorized))));
}

#[test]
fn server_error_is_unknown() {
    let (flow, _) = RequestFlow::start(Method::Patch, true);
    let (_, step) = flow.next(Event::Responded(Ok(500)));
    assert!(matches!(step, Step::Finish(Err(RequestError::Unknown))));
}

#[test]
fn network_failure_is_network_error() {
    let (flow, _) = RequestFlow::start(Method::Get, true);
    let (_, step) = flow.next(Event::Responded(Err(network_error())));
    assert!(matches!(step, Step::Finish(Err(RequestError::NetworkError(_)))));
}

#[test]
fn decode_failure_keeps_reason() {
    let (flow, _) = RequestFlow::start(Method::Get, true);
    let (flow, _) = flow.next(Event::Responded(Ok(200)));
    let (_, step) = flow.next(Event::Decoded(Err("missing field `id`".to_string())));
    match step {
        Step::Finish(Err(RequestError::DeserializationError(reason))) => {
            assert_eq!(reason, "missing field `id`")
        }
        _ => panic!("expected a deserialization error"),
    }
}

#[test]
fn failed_login_ends_with_its_error() {
    let (flow, _) = RequestFlow::start(Method::Get, false);
    let (flow, step) = flow.next(Event::Authenticated(Err(RequestError::Unauthorized)));
    assert!(matches!(step, Step::Finish(Err(RequestError::Unauthorized))));
    assert_eq!(flow.phase, Phase::Finished);
}

#[test]
fn unexpected_event_is_unknown() {
    let (flow, _) = RequestFlow::start(Method::Get, true);
    let (flow, step) = flow.next(Event::Decoded(Ok(())));
    assert!(matches!(step, Step::Finish(Err(RequestError::Unknown))));
    let (flow, step) = flow.next(Event::Responded(Ok(200)));
    assert!(matches!(step, Step::Finish(Err(RequestError::Unknown))));
    assert_eq!(flow.phase, Phase::Finished);
}

#[test]
fn five_events_end_every_request() {
    let (flow, _) = RequestFlow::start(Method::Get, false);
    let (flow, _) = flow.next(Event::Authenticated(Ok(())));
    let (flow, _) = flow.next(Event::Responded(Ok(401)));
    let (flow, _) = flow.next(Event::Authenticated(Ok(())));
    let (flow, _) = flow.next(Event::Responded(Ok(200)));
    let (flow, step) = flow.next(Event::Decoded(Ok(())));
    assert!(matches!(step, Step::Finish(Ok(()))));
    assert_eq!(flow.phase, Phase::Finished);
}

#[test]
fn status_classes() {
    assert!(status_is_success(200));
    assert!(status_is_success(299));
    assert!(!status_is_success(199));
    assert!(!status_is_success(300));
    assert!(status_is_auth_failure(401));
    assert!(status_is_auth_failure(403));
    assert!(!status_is_auth_failure(404));
    assert!(!status_is_auth_failure(200));
}
