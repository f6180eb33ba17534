//! The connection handle: the caller-facing capability for submitting
//! requests on an established session.
//!
//! The handle never touches the transport; it holds only a dispatch
//! reference into the session the handshake established. Its lifetime is
//! independent of the background driver's, but not of its correctness:
//! once the driver has terminated with an error, every subsequent call on
//! the handle fails deterministically with that error — recorded failure
//! is sticky and is never cleared.

use vstd::prelude::*;

use crate::background::{Background, DriverState};
use crate::body::{HttpBody, LiftBody, Payload};
use crate::future::ResponseFuture;
use crate::http::{same_request_envelope, Request};
use crate::ProtocolError;

verus! {

/// A caller-facing handle on an established session.
#[derive(Debug)]
pub struct Connection {
    failed: Option<ProtocolError>,
}

impl Connection {
    /// The driver failure this handle has observed, if any. Once set it
    /// never clears: every later call fails with it.
    pub closed spec fn failure(&self) -> Option<ProtocolError> {
        self.failed
    }

    /// A handle on a freshly established session.
    pub(crate) fn new() -> (r: Connection)
        ensures
            r.failure() is None,
    {
        Connection { failed: None }
    }

    /// Two-phase readiness check: observe the associated driver before
    /// calling. A driver that terminated with an error makes the handle
    /// fail now and on every later call.
    pub fn poll_ready(&mut self, driver: &Background) -> (r: Result<(), ProtocolError>)
        ensures
            match old(self).failure() {
                Option::Some(e) => {
                    &&& r == Result::<(), ProtocolError>::Err(e)
                    &&& final(self).failure() == Option::Some(e)
                },
                Option::None => match driver.state {
                    DriverState::Errored(e) => {
                        &&& r == Result::<(), ProtocolError>::Err(e)
                        &&& final(self).failure() == Option::Some(e)
                    },
                    _ => {
                        &&& r is Ok
                        &&& final(self).failure() is None
                    },
                },
            },
    {
        match self.failed {
            Option::Some(e) => Result::Err(e),
            Option::None => match driver.state {
                DriverState::Errored(e) => {
                    self.failed = Option::Some(e);
                    Result::Err(e)
                },
                _ => Result::Ok(()),
            },
        }
    }

    /// Submit a request. On a healthy handle the outgoing body is lifted
    /// onto the payload contract — same envelope, same chunk stream — and
    /// a pending response is returned for the session to complete. On a
    /// handle whose driver has failed, the call fails with the recorded
    /// error instead of hanging.
    pub fn call<B: HttpBody>(&mut self, req: Request<B>) -> (r: Result<
        (Request<LiftBody<B>>, ResponseFuture),
        ProtocolError,
    >)
        ensures
            final(self).failure() == old(self).failure(),
            match old(self).failure() {
                Option::Some(e) => r matches Result::Err(got) && got == e,
                Option::None => r matches Result::Ok(out) && {
                    &&& same_request_envelope(req, out.0)
                    &&& out.0.body == (LiftBody { inner: req.body })
                    &&& Payload::chunks(&out.0.body) == HttpBody::chunks(&req.body)
                    &&& Payload::trailers(&out.0.body) == HttpBody::trailers(&req.body)
                    &&& !out.1.completed
                },
            },
    {
        match self.failed {
            Option::Some(e) => Result::Err(e),
            Option::None => {
                let lifted = Request {
                    method: req.method,
                    uri: req.uri,
                    version: req.version,
                    headers: req.headers,
                    body: LiftBody::from(req.body),
                };
                Result::Ok((lifted, ResponseFuture::new()))
            },
        }
    }
}

} // verus!
