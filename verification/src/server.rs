//! The server side of the bridge: accepts a service maker, and lifts each
//! made service — which speaks the generic body contract — onto the
//! payload contract the protocol engine serves connections with.
//!
//! Accepting connections and driving the served protocol loop is I/O the
//! host environment performs; what stands here is the service lifting and
//! the error classification between protocol failures and service-maker
//! failures.

use vstd::prelude::*;

use crate::body::{Body, HttpBody, LiftBody};
use crate::http::{same_response_envelope, Request, Response};
use crate::ProtocolError;

verus! {

/// The service contract a user of the server implements: readiness, then
/// one response per request, both speaking the generic body contract.
pub trait HttpService {
    /// The body type of this service's responses.
    type ResponseBody: HttpBody;

    /// Whether the service can accept a request now.
    fn poll_ready(&mut self) -> Result<(), ProtocolError>;

    /// Produce the response for one request.
    fn call(&mut self, request: Request<Body>) -> Result<
        Response<Self::ResponseBody>,
        ProtocolError,
    >;
}

/// Server implementation for the bridge: holds the maker that produces
/// one service per accepted connection.
#[derive(Debug)]
pub struct Server<S> {
    /// Produces the service each accepted connection is served with.
    pub maker: S,
}

impl<S> Server<S> {
    /// Create a new server from a service maker.
    pub fn new(maker: S) -> (r: Server<S>)
        ensures
            r.maker == maker,
    {
        Server { maker }
    }
}

/// Errors produced by a served connection.
#[derive(Debug)]
pub enum Error<E> {
    /// A failure originating in the protocol engine.
    Protocol(ProtocolError),
    /// A failure producing the inner service.
    MakeService(E),
}

impl<E> Error<E> {
    /// A short description of the failure, by kind.
    pub fn description(&self) -> (r: &'static str)
        ensures
            match self {
                Error::Protocol(_) => r@ == "protocol error while serving the connection"@,
                Error::MakeService(_) => r@ == "error producing the inner service"@,
            },
    {
        match self {
            Error::Protocol(_) => "protocol error while serving the connection",
            Error::MakeService(_) => "error producing the inner service",
        }
    }
}

/// Lift a response speaking the generic body contract onto the payload
/// contract: same envelope, and a body with the same stream model.
pub fn lift_response<B: HttpBody>(resp: Response<B>) -> (r: Response<LiftBody<B>>)
    ensures
        same_response_envelope(resp, r),
        r.body == (LiftBody { inner: resp.body }),
{
    Response {
        status: resp.status,
        version: resp.version,
        headers: resp.headers,
        body: LiftBody::from(resp.body),
    }
}

/// Takes a service on the generic body contract and presents it to the
/// protocol engine on the payload contract: requests are handed through,
/// responses come back with their bodies lifted.
#[derive(Debug)]
pub struct LiftService<T> {
    /// The wrapped service.
    pub inner: T,
}

impl<T: HttpService> LiftService<T> {
    /// Wrap a service.
    pub fn new(inner: T) -> (r: LiftService<T>)
        ensures
            r.inner == inner,
    {
        LiftService { inner }
    }

    /// Forward the wrapped service's readiness.
    pub fn poll_ready(&mut self) -> Result<(), ProtocolError> {
        self.inner.poll_ready()
    }

    /// Serve one request: the wrapped service answers it, and the answer
    /// comes back with its body lifted onto the payload contract.
    pub fn call(&mut self, request: Request<Body>) -> Result<
        Response<LiftBody<T::ResponseBody>>,
        ProtocolError,
    > {
        match self.inner.call(request) {
            Result::Ok(resp) => Result::Ok(lift_response(resp)),
            Result::Err(e) => Result::Err(e),
        }
    }
}

} // verus!
