use tower_hyper::connect::{
    Builder, Connect, ConnectError, ConnectFuture, ConnectState, QueueExecutor,
};
use tower_hyper::http::Version;
use tower_hyper::util::Connector;
use tower_hyper::{ProtocolError, Transport};

fn start() -> ConnectFuture {
    let mut connect = Connect::new(Connector::new(()));
    connect.call("example.test:80")
}

#[test]
fn successful_connect_spawns_exactly_one_background_task() {
    let mut connect = Connect::new(Connector::new(()));
    assert!(connect.poll_ready::<ProtocolError>(Ok(())).is_ok());
    let mut fut = connect.call("example.test:80");
    let outcome = fut.drive::<ProtocolError, _>(Ok(Transport::new()), Ok(()), &mut connect.executor);
    let (conn, handle) = outcome.expect("connect succeeds");
    assert_eq!(connect.executor.task_count(), 1);
    assert_eq!(fut.state, ConnectState::Connected);
    let _ = (conn, handle);
}

#[test]
fn failed_transport_acquisition_spawns_nothing() {
    let mut exec = QueueExecutor::new();
    let mut fut = start();
    let outcome = fut.drive::<u32, _>(Err(7), Ok(()), &mut exec);
    match outcome {
        Err(ConnectError::Connect(code)) => assert_eq!(code, 7),
        _ => panic!("expected a connect-time transport failure"),
    }
    assert_eq!(exec.task_count(), 0);
    assert_eq!(fut.state, ConnectState::Failed);
}

#[test]
fn failed_handshake_spawns_nothing() {
    let mut exec = QueueExecutor::new();
    let mut fut = start();
    let outcome =
        fut.drive::<u32, _>(Ok(Transport::new()), Err(ProtocolError::new(13)), &mut exec);
    match outcome {
        Err(ConnectError::Handshake(e)) => assert_eq!(e, ProtocolError::new(13)),
        _ => panic!("expected a handshake failure"),
    }
    assert_eq!(exec.task_count(), 0);
    assert_eq!(fut.state, ConnectState::Failed);
}

#[test]
fn saturated_executor_turns_success_into_spawn_error() {
    // The handshake succeeds, but the executor refuses the driver: the
    // whole attempt fails and nothing was spawned.
    let mut exec = QueueExecutor::with_capacity(0);
    let mut fut = start();
    let outcome = fut.drive::<u32, _>(Ok(Transport::new()), Ok(()), &mut exec);
    assert!(matches!(outcome, Err(ConnectError::SpawnError)));
    assert_eq!(exec.task_count(), 0);
    assert_eq!(fut.state, ConnectState::Failed);
}

#[test]
fn http_connection_http2() {
    // A transport that advertises the multiplexed mode adjusts the
    // handshake configuration; protocol selection is transport-driven.
    let mut fut = start();
    let configured = fut.transport_acquired(&Transport::with_negotiated(Version::Http2));
    assert!(configured.http2_only);
    assert_eq!(fut.state, ConnectState::Handshaking);

    let mut plain = start();
    let configured = plain.transport_acquired(&Transport::new());
    assert!(!configured.http2_only);

    let mut http11 = start();
    let configured = http11.transport_acquired(&Transport::with_negotiated(Version::Http11));
    assert!(!configured.http2_only);
}

#[test]
fn builder_knobs_are_kept_and_copied_per_attempt() {
    let mut builder = Builder::new();
    builder.set_http2_only(true);
    builder.set_max_buf_size(4096);
    let mut connect = Connect::with_builder(Connector::new(()), builder);
    let fut = connect.call("a");
    assert!(fut.builder.http2_only);
    assert_eq!(fut.builder.max_buf_size, Some(4096));
    // A forced multiplexed mode stays forced even without negotiation.
    let mut fut = fut;
    let configured = fut.transport_acquired(&Transport::new());
    assert!(configured.http2_only);
    assert_eq!(configured.max_buf_size, Some(4096));
}

#[test]
fn readiness_proxies_the_collaborator_admission_signal() {
    let mut connect = Connect::new(Connector::new(()));
    assert!(connect.poll_ready::<u32>(Ok(())).is_ok());
    match connect.poll_ready::<u32>(Err(3)) {
        Err(ConnectError::Connect(code)) => assert_eq!(code, 3),
        _ => panic!("the collaborator's refusal must surface as Connect"),
    }
}

#[test]
fn connect_error_descriptions_name_the_failing_stage() {
    assert_eq!(
        ConnectError::<u32>::Connect(1).description(),
        "error attempting to establish underlying session layer"
    );
    assert_eq!(
        ConnectError::<u32>::Handshake(ProtocolError::new(1)).description(),
        "error performing protocol handshake"
    );
    assert_eq!(ConnectError::<u32>::SpawnError.description(), "error spawning background task");
}
