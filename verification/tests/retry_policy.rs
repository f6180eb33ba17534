use tower_hyper::body::{Body as ProtocolBody, HttpBody, LiftBody};
use tower_hyper::http::{HeaderMap, Request, Response, StatusCode};
use tower_hyper::retry::{Body, Retry, RetryPolicy, RetryStep, TryClone};
use tower_hyper::ProtocolError;

fn response(status: u16) -> Response<LiftBody<ProtocolBody>> {
    let mut r = Response::new(LiftBody::from(ProtocolBody::empty()));
    r.status = StatusCode::new(status);
    r
}

fn request_with_body(body: Body) -> Request<Body> {
    let mut req = Request::new(body);
    req.headers.insert("accept".to_string(), "*/*".to_string());
    req
}

/// Drives the retry machine against a scripted peer; returns the final
/// outcome and how many calls reached the peer.
fn run_against_peer(
    policy: RetryPolicy<ProtocolError>,
    request: Request<Body>,
    script: &[Result<u16, ProtocolError>],
) -> (Result<Response<LiftBody<ProtocolBody>>, ProtocolError>, usize) {
    let mut machine = Retry::new(policy, request);
    let mut calls = 0usize;
    loop {
        let outcome = match script[calls] {
            Ok(status) => Ok(response(status)),
            Err(e) => Err(e),
        };
        calls += 1;
        match machine.on_outcome(outcome) {
            RetryStep::Finished(out) => return (out, calls),
            RetryStep::Again(next) => machine = next,
        }
    }
}

#[test]
fn three_attempts_reach_the_eventual_success() {
    // Peer answers 503, 503, then 200: the policy with attempts=3 keeps
    // retrying through the server errors and returns the 200 response
    // after exactly 3 calls.
    let policy = RetryPolicy::new(3);
    let req = request_with_body(Body::from(b"payload".to_vec()));
    let script = [Ok(503), Ok(503), Ok(200)];
    let (outcome, calls) = run_against_peer(policy, req, &script);
    assert_eq!(calls, 3);
    assert_eq!(outcome.unwrap().status.code, 200);
}

#[test]
fn unclonable_body_is_never_resent() {
    // The body reports the absence signal, so the transport error is
    // returned after a single call even though budget remains.
    let policy = RetryPolicy::new(1);
    let req = request_with_body(Body { body: None });
    let script = [Err(ProtocolError::new(42)), Ok(200)];
    let (outcome, calls) = run_against_peer(policy, req, &script);
    assert_eq!(calls, 1);
    assert_eq!(outcome.unwrap_err(), ProtocolError::new(42));
}

#[test]
fn client_error_class_is_never_retried() {
    // A 4xx response returns immediately, whatever the remaining budget.
    let policy = RetryPolicy::new(200);
    let req = request_with_body(Body::from(b"q".to_vec()));
    let script = [Ok(404), Ok(200)];
    let (outcome, calls) = run_against_peer(policy, req, &script);
    assert_eq!(calls, 1);
    assert_eq!(outcome.unwrap().status.code, 404);
}

#[test]
fn success_is_returned_without_retry() {
    let policy = RetryPolicy::new(3);
    let req = request_with_body(Body::from(b"q".to_vec()));
    let script = [Ok(204), Ok(200)];
    let (outcome, calls) = run_against_peer(policy, req, &script);
    assert_eq!(calls, 1);
    assert_eq!(outcome.unwrap().status.code, 204);
}

#[test]
fn exhausted_budget_returns_the_last_server_error() {
    let policy = RetryPolicy::new(2);
    let req = request_with_body(Body::from(b"q".to_vec()));
    let script = [Ok(500), Ok(502), Ok(503), Ok(200)];
    let (outcome, calls) = run_against_peer(policy, req, &script);
    // Initial call plus two retries: the third answer is final.
    assert_eq!(calls, 3);
    assert_eq!(outcome.unwrap().status.code, 503);
}

#[test]
fn transport_errors_are_eligible_until_exhaustion() {
    let policy = RetryPolicy::new(2);
    let req = request_with_body(Body::from(b"q".to_vec()));
    let script = [Err(ProtocolError::new(1)), Err(ProtocolError::new(2)), Err(ProtocolError::new(3))];
    let (outcome, calls) = run_against_peer(policy, req, &script);
    assert_eq!(calls, 3);
    assert_eq!(outcome.unwrap_err(), ProtocolError::new(3));
}

#[test]
fn policy_retry_decrements_into_a_fresh_value() {
    let policy: RetryPolicy<ProtocolError> = RetryPolicy::new(2);
    let req = request_with_body(Body::from(b"q".to_vec()));
    let resp = response(503);
    let next = policy.retry(&req, Ok(&resp)).expect("server error is eligible");
    // The original policy value is untouched; the decision produced a
    // new one with the counter decremented.
    assert_eq!(policy.attempts, 2);
    assert_eq!(next.attempts, 1);
    let last = next.retry(&req, Ok(&resp)).expect("still one attempt left");
    assert_eq!(last.attempts, 0);
    assert!(last.retry(&req, Ok(&resp)).is_none());
}

#[test]
fn policy_retry_refuses_non_server_errors() {
    let policy: RetryPolicy<ProtocolError> = RetryPolicy::new(5);
    let req = request_with_body(Body::from(b"q".to_vec()));
    assert!(policy.retry(&req, Ok(&response(200))).is_none());
    assert!(policy.retry(&req, Ok(&response(404))).is_none());
    assert!(policy.retry(&req, Ok(&response(301))).is_none());
    assert!(policy.retry(&req, Ok(&response(500))).is_some());
    assert!(policy.retry(&req, Err(&ProtocolError::new(9))).is_some());
}

#[test]
fn clone_request_copies_the_envelope_and_body() {
    let policy: RetryPolicy<ProtocolError> = RetryPolicy::new(1);
    let mut req = Request::new(Body::from(b"the body".to_vec()));
    req.uri = "/search".to_string();
    req.headers.insert("a".to_string(), "1".to_string());
    req.headers.insert("a".to_string(), "2".to_string());

    let clone = policy.clone_request(&req).expect("body is clonable");
    assert_eq!(clone.uri, "/search");
    assert_eq!(clone.headers.entries, req.headers.entries);
    assert_eq!(clone.method, req.method);
    assert_eq!(clone.body.body, Some(b"the body".to_vec()));
    // The original is intact.
    assert_eq!(req.body.body, Some(b"the body".to_vec()));
}

#[test]
fn clone_request_reports_absence_for_a_consumed_body() {
    let policy: RetryPolicy<ProtocolError> = RetryPolicy::new(1);
    let mut body = Body::from(b"once".to_vec());
    assert_eq!(body.poll_data().unwrap(), Some(b"once".to_vec()));
    let req = Request::new(body);
    assert!(policy.clone_request(&req).is_none());
}

#[test]
fn single_chunk_body_drains_and_loses_clonability() {
    let mut body = Body::from(b"chunk".to_vec());
    assert!(!body.is_end_stream());
    assert!(body.try_clone().is_some());
    assert_eq!(body.poll_data().unwrap(), Some(b"chunk".to_vec()));
    assert_eq!(body.poll_data().unwrap(), None);
    assert!(body.poll_trailers().unwrap().is_none());
    assert!(body.is_end_stream());
    assert!(body.try_clone().is_none());
}

#[test]
fn headers_survive_duplication() {
    let mut h = HeaderMap::new();
    h.insert("x-a".to_string(), "1".to_string());
    h.insert("x-b".to_string(), "2".to_string());
    let copy = h.duplicate();
    assert_eq!(copy.entries, h.entries);
    assert_eq!(copy.len(), 2);
}
