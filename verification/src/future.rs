//! The pending outcome of one submitted request: completes with the
//! response once the session reports it, translating the inbound payload
//! into the generic body representation on the way through.
//!
//! In this model the two body representations coincide chunk for chunk,
//! so the translation forwards the response unchanged; the contract pins
//! that down. Dropping a pending value abandons the request without
//! touching the session or the background driver — the value holds no
//! reference into either.

use vstd::prelude::*;

use crate::body::Body;
use crate::http::Response;
use crate::ProtocolError;

verus! {

/// The eventual response to one submitted request.
#[derive(Debug)]
pub struct ResponseFuture {
    /// Whether the outcome has already been delivered.
    pub completed: bool,
}

impl ResponseFuture {
    /// A still-pending outcome.
    pub(crate) fn new() -> (r: ResponseFuture)
        ensures
            !r.completed,
    {
        ResponseFuture { completed: false }
    }

    /// Poll with what the session reports: nothing yet, the inbound
    /// response, or the protocol failure that ended the exchange. The
    /// outcome is forwarded unchanged — same envelope, same body model.
    pub fn poll(&mut self, event: Option<Result<Response<Body>, ProtocolError>>) -> (r: Result<
        Option<Response<Body>>,
        ProtocolError,
    >)
        requires
            !old(self).completed,
        ensures
            match event {
                Option::None => {
                    &&& r matches Result::Ok(o) && o is None
                    &&& !final(self).completed
                },
                Option::Some(Result::Ok(resp)) => {
                    &&& r == Result::<Option<Response<Body>>, ProtocolError>::Ok(
                        Option::Some(resp),
                    )
                    &&& final(self).completed
                },
                Option::Some(Result::Err(e)) => {
                    &&& r == Result::<Option<Response<Body>>, ProtocolError>::Err(e)
                    &&& final(self).completed
                },
            },
    {
        match event {
            Option::None => Result::Ok(Option::None),
            Option::Some(Result::Ok(resp)) => {
                self.completed = true;
                Result::Ok(Option::Some(resp))
            },
            Option::Some(Result::Err(e)) => {
                self.completed = true;
                Result::Err(e)
            },
        }
    }
}

} // verus!
