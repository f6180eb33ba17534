use tower_hyper::body::{drain_payload, Body, HttpBody};
use tower_hyper::http::{Request, Response, StatusCode};
use tower_hyper::retries;
use tower_hyper::retries::TryClone;
use tower_hyper::server::{lift_response, Error, HttpService, LiftService, Server};
use tower_hyper::util::ConnectorFuture;
use tower_hyper::{ProtocolError, Transport};

/// A service that answers every request with a fixed greeting body.
struct GreetService;

impl HttpService for GreetService {
    type ResponseBody = Body;

    fn poll_ready(&mut self) -> Result<(), ProtocolError> {
        Ok(())
    }

    fn call(&mut self, _request: Request<Body>) -> Result<Response<Body>, ProtocolError> {
        Ok(Response::new(Body::new(vec![b"Hello".to_vec()], None)))
    }
}

/// A service that always fails.
struct FailingService;

impl HttpService for FailingService {
    type ResponseBody = Body;

    fn poll_ready(&mut self) -> Result<(), ProtocolError> {
        Err(ProtocolError::new(21))
    }

    fn call(&mut self, _request: Request<Body>) -> Result<Response<Body>, ProtocolError> {
        Err(ProtocolError::new(22))
    }
}

#[test]
fn lift_service_answers_on_the_payload_contract() {
    let server = Server::new(GreetService);
    let mut svc = LiftService::new(server.maker);
    assert!(svc.poll_ready().is_ok());
    let resp = svc.call(Request::new(Body::empty())).unwrap();
    assert_eq!(resp.status.code, 200);
    let mut payload = resp.body;
    let (data, trailers) = drain_payload(&mut payload).unwrap();
    assert_eq!(data, vec![b"Hello".to_vec()]);
    assert!(trailers.is_none());
}

#[test]
fn lift_service_forwards_failures_unchanged() {
    let mut svc = LiftService::new(FailingService);
    assert_eq!(svc.poll_ready().unwrap_err(), ProtocolError::new(21));
    assert_eq!(svc.call(Request::new(Body::empty())).unwrap_err(), ProtocolError::new(22));
}

#[test]
fn lift_response_keeps_the_envelope_and_stream() {
    let mut resp = Response::new(Body::new(vec![b"a".to_vec(), b"b".to_vec()], None));
    resp.status = StatusCode::new(418);
    resp.headers.insert("server".to_string(), "bridge".to_string());
    let lifted = lift_response(resp);
    assert_eq!(lifted.status.code, 418);
    assert_eq!(
        lifted.headers.entries,
        vec![("server".to_string(), "bridge".to_string())]
    );
    let mut payload = lifted.body;
    let (data, _) = drain_payload(&mut payload).unwrap();
    assert_eq!(data, vec![b"a".to_vec(), b"b".to_vec()]);
}

#[test]
fn server_error_descriptions_name_the_failing_side() {
    let protocol: Error<u32> = Error::Protocol(ProtocolError::new(1));
    assert_eq!(protocol.description(), "protocol error while serving the connection");
    let maker: Error<u32> = Error::MakeService(2);
    assert_eq!(maker.description(), "error producing the inner service");
}

#[test]
fn connector_future_surfaces_the_transport_and_drops_metadata() {
    let mut fut = ConnectorFuture::new();
    assert!(fut.poll::<Transport, &str, ProtocolError>(None).unwrap().is_none());
    let got = fut
        .poll::<Transport, &str, ProtocolError>(Some(Ok((Transport::new(), "peer=10.0.0.1"))))
        .unwrap()
        .expect("transport ready");
    assert!(got.negotiated.is_none());
}

#[test]
fn connector_future_passes_errors_through() {
    let mut fut = ConnectorFuture::new();
    let err = fut
        .poll::<Transport, (), ProtocolError>(Some(Err(ProtocolError::new(30))))
        .unwrap_err();
    assert_eq!(err, ProtocolError::new(30));
}

#[test]
fn sibling_policy_follows_the_same_eligibility_rule() {
    let policy: retries::RetryPolicy<ProtocolError> = retries::RetryPolicy::new(2);
    let req = Request::new(b"payload".to_vec());
    let mut server_error = Response::new(Body::empty());
    server_error.status = StatusCode::new(503);
    let mut success = Response::new(Body::empty());
    success.status = StatusCode::new(200);

    let next = policy.retry(&req, Ok(&server_error)).expect("5xx is eligible");
    assert_eq!(next.attempts, 1);
    assert!(policy.retry(&req, Ok(&success)).is_none());
    assert!(policy.retry(&req, Err(&ProtocolError::new(4))).is_some());
    let spent: retries::RetryPolicy<ProtocolError> = retries::RetryPolicy::new(0);
    assert!(spent.retry(&req, Ok(&server_error)).is_none());
}

#[test]
fn sibling_policy_clones_byte_buffer_requests() {
    let policy: retries::RetryPolicy<ProtocolError> = retries::RetryPolicy::new(1);
    let mut req = Request::new(b"the exact bytes".to_vec());
    req.uri = "/submit".to_string();
    req.headers.insert("k".to_string(), "v".to_string());
    let clone = policy.clone_request(&req).expect("byte buffers always clone");
    assert_eq!(clone.body, req.body);
    assert_eq!(clone.uri, req.uri);
    assert_eq!(clone.headers.entries, req.headers.entries);
    assert_eq!(b"x".to_vec().try_clone(), Some(b"x".to_vec()));
}

#[test]
fn status_code_classes_partition_as_documented() {
    assert!(StatusCode::new(500).is_server_error());
    assert!(StatusCode::new(599).is_server_error());
    assert!(!StatusCode::new(499).is_server_error());
    assert!(!StatusCode::new(600).is_server_error());
    assert!(StatusCode::new(404).is_client_error());
    assert!(StatusCode::new(204).is_success());
    assert!(!StatusCode::new(404).is_success());
}
