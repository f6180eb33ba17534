//! The retry layer: a policy that re-issues a request a bounded number of
//! times, and the state machine that applies it around a wrapped call.
//!
//! Retry eligibility is a function of both the outcome classification and
//! body re-constructibility. A transport-level error is always eligible; a
//! response is eligible only when its status is in the server-error class.
//! An eligible outcome is retried only when the request's body can be
//! duplicated — a body that cannot prove itself unconsumed is never
//! resent, whatever budget remains. Policy values are immutable: each
//! retry decision produces a new value with the counter decremented.

use vstd::prelude::*;

use core::marker::PhantomData;

use crate::body::{HttpBody, LiftBody};
use crate::http::{same_request_envelope, HeaderMap, Request, Response};
use crate::ProtocolError;

verus! {

/// Trait to perform attempted clones of a request's body.
///
/// Duplication is explicit and fallible: the result is either a fresh
/// body with the same stream model — the same chunks and trailers still
/// to be yielded — or the absence signal meaning the value cannot be
/// safely resent.
pub trait TryClone: HttpBody {
    /// Whether a fresh duplicate can be produced in the value's current
    /// state.
    spec fn cloneable(&self) -> bool;

    /// Attempt to clone: a fresh equivalent body, or the absence signal.
    fn try_clone(&self) -> (r: Option<Self>)
        ensures
            r is Some <==> self.cloneable(),
            match r {
                Option::Some(c) => c.chunks() == self.chunks() && c.trailers()
                    == self.trailers(),
                Option::None => true,
            },
    ;
}

/// A specialized single-chunk request body that supports duplication.
///
/// It yields its one chunk, no trailers, and can produce a fresh
/// duplicate for a retry — until the chunk has been consumed, after
/// which duplication reports the absence signal.
#[derive(Debug)]
pub struct Body {
    /// The one chunk, until it is consumed.
    pub body: Option<Vec<u8>>,
}

/// Copy a chunk byte for byte.
fn clone_bytes(b: &Vec<u8>) -> (r: Vec<u8>)
    ensures
        r@ == b@,
{
    let mut out: Vec<u8> = Vec::new();
    let mut i: usize = 0;
    while i < b.len()
        invariant
            i <= b@.len(),
            out@ == b@.subrange(0, i as int),
        decreases b@.len() - i,
    {
        out.push(b[i]);
        proof {
            assert(out@ =~= b@.subrange(0, i + 1 as int));
        }
        i += 1;
    }
    proof {
        assert(out@ =~= b@);
    }
    out
}

impl From<Vec<u8>> for Body {
    fn from(b: Vec<u8>) -> Self {
        Body { body: Some(b) }
    }
}

impl vstd::std_specs::convert::FromSpecImpl<Vec<u8>> for Body {
    open spec fn obeys_from_spec() -> bool {
        true
    }

    open spec fn from_spec(b: Vec<u8>) -> Body {
        Body { body: Some(b) }
    }
}

impl HttpBody for Body {
    open spec fn chunks(&self) -> Seq<Seq<u8>> {
        match self.body {
            Option::Some(c) => seq![c@],
            Option::None => Seq::empty(),
        }
    }

    open spec fn trailers(&self) -> Option<Seq<(Seq<char>, Seq<char>)>> {
        Option::None
    }

    fn poll_data(&mut self) -> (r: Result<Option<Vec<u8>>, ProtocolError>)
        ensures
            r is Ok,
    {
        let taken = self.body.take();
        proof {
            if old(self).body is Some {
                assert(self.chunks() =~= old(self).chunks().drop_first());
            }
        }
        Result::Ok(taken)
    }

    fn poll_trailers(&mut self) -> (r: Result<Option<HeaderMap>, ProtocolError>)
        ensures
            r is Ok,
    {
        Result::Ok(Option::None)
    }

    fn is_end_stream(&self) -> (r: bool) {
        self.body.is_none()
    }
}

impl TryClone for Body {
    open spec fn cloneable(&self) -> bool {
        self.body is Some
    }

    fn try_clone(&self) -> (r: Option<Body>) {
        match &self.body {
            Option::Some(c) => {
                let fresh = Body { body: Option::Some(clone_bytes(c)) };
                proof {
                    assert(fresh.chunks() =~= self.chunks());
                }
                Option::Some(fresh)
            },
            Option::None => Option::None,
        }
    }
}

/// A simple retry policy for requests against the bridge.
///
/// The policy holds the remaining-attempts budget. It is never mutated in
/// place: each decision that grants a retry yields a new policy value
/// with the counter decremented.
#[derive(Debug)]
pub struct RetryPolicy<E> {
    /// The remaining retry budget.
    pub attempts: u8,
    /// Ties the policy to the error type of the wrapped call.
    pub marker: PhantomData<E>,
}

impl<E> RetryPolicy<E> {
    /// Create a new policy with the provided amount of retries.
    pub fn new(attempts: u8) -> (r: RetryPolicy<E>)
        ensures
            r.attempts == attempts,
    {
        RetryPolicy { attempts, marker: PhantomData }
    }

    /// Classify an outcome and decide whether a retry may happen.
    ///
    /// A transport-level error is always eligible; a response is eligible
    /// only in the server-error class — a success- or client-class
    /// response is never retried, whatever budget remains. With no budget
    /// left the answer is always no. A granted retry comes as a fresh
    /// policy with the counter decremented.
    pub fn retry<T>(&self, req: &Request<T>, result: Result<&Response<LiftBody<crate::body::Body>>, &E>) -> (r:
        Option<RetryPolicy<E>>)
        ensures
            r is Some <==> (self.attempts > 0 && match result {
                Result::Ok(res) => res.status.spec_is_server_error(),
                Result::Err(_) => true,
            }),
            match r {
                Option::Some(p) => p.attempts == self.attempts - 1,
                Option::None => true,
            },
    {
        let _ = req;
        if self.attempts == 0 {
            return Option::None;
        }
        match result {
            Result::Ok(res) => {
                if res.status.is_server_error() {
                    Option::Some(RetryPolicy::new(self.attempts - 1))
                } else {
                    Option::None
                }
            },
            Result::Err(_) => Option::Some(RetryPolicy { attempts: self.attempts - 1, marker: PhantomData }),
        }
    }

    /// Attempt to produce a fresh, equivalent request for a retry.
    ///
    /// Succeeds exactly when the body's duplication capability does; the
    /// clone carries the same method, target, version and headers, and an
    /// equivalent unconsumed body. The absence signal means the request
    /// must not be resent.
    pub fn clone_request<T: TryClone>(&self, req: &Request<T>) -> (r: Option<Request<T>>)
        ensures
            r is Some <==> req.body.cloneable(),
            match r {
                Option::Some(c) => same_request_envelope(*req, c) && c.body.chunks()
                    == req.body.chunks() && c.body.trailers() == req.body.trailers(),
                Option::None => true,
            },
    {
        match req.body.try_clone() {
            Option::Some(body) => {
                let clone = Request {
                    method: req.method,
                    uri: req.uri.clone(),
                    version: req.version,
                    headers: req.headers.duplicate(),
                    body,
                };
                Option::Some(clone)
            },
            Option::None => Option::None,
        }
    }
}

/// One in-flight request under the retry policy: the state the layer
/// carries between attempts.
#[derive(Debug)]
pub struct Retry<T, E> {
    /// The policy governing the remaining attempts.
    pub policy: RetryPolicy<E>,
    /// The request the current attempt was issued with.
    pub request: Request<T>,
}

/// What the retry layer does after classifying an outcome.
#[derive(Debug)]
pub enum RetryStep<T, E> {
    /// Return this outcome to the caller, unchanged.
    Finished(Result<Response<LiftBody<crate::body::Body>>, E>),
    /// Re-issue the call with the carried cloned request, under the
    /// carried decremented policy.
    Again(Retry<T, E>),
}

impl<T: TryClone, E> Retry<T, E> {
    /// Begin a retried call: the first attempt uses `request` as given.
    pub fn new(policy: RetryPolicy<E>, request: Request<T>) -> (r: Retry<T, E>)
        ensures
            r.policy == policy,
            r.request == request,
    {
        Retry { policy, request }
    }

    /// Classify the outcome of the current attempt.
    ///
    /// The call finishes — outcome returned unchanged — exactly when the
    /// outcome is ineligible (any response outside the server-error
    /// class), the budget is exhausted, or the body cannot be duplicated.
    /// Otherwise the next attempt carries an equivalent request and a
    /// policy with one attempt fewer.
    pub fn on_outcome(self, outcome: Result<Response<LiftBody<crate::body::Body>>, E>) -> (r: RetryStep<T, E>)
        ensures
            match r {
                RetryStep::Finished(out) => out == outcome,
                RetryStep::Again(next) => {
                    &&& next.policy.attempts == self.policy.attempts - 1
                    &&& same_request_envelope(self.request, next.request)
                    &&& next.request.body.chunks() == self.request.body.chunks()
                    &&& next.request.body.trailers() == self.request.body.trailers()
                },
            },
            (r is Finished) <==> (self.policy.attempts == 0 || (match outcome {
                Result::Ok(res) => !res.status.spec_is_server_error(),
                Result::Err(_) => false,
            }) || !self.request.body.cloneable()),
    {
        let decision = match &outcome {
            Result::Ok(res) => self.policy.retry(&self.request, Result::Ok(res)),
            Result::Err(e) => self.policy.retry(&self.request, Result::Err(e)),
        };
        match decision {
            Option::None => RetryStep::Finished(outcome),
            Option::Some(next_policy) => match self.policy.clone_request(&self.request) {
                Option::Some(next_request) => RetryStep::Again(
                    Retry { policy: next_policy, request: next_request },
                ),
                Option::None => RetryStep::Finished(outcome),
            },
        }
    }
}

} // verus!
