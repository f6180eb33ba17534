//! A sibling retry policy for calls whose responses carry the plain
//! protocol-side body, and whose request bodies convert into it.
//!
//! Eligibility is the same rule as in [`crate::retry`]: only a response
//! in the server-error class, or a transport-level error, may be retried,
//! and only while budget remains; the policy value itself is immutable
//! and every granted retry is a fresh value with the counter decremented.

use vstd::prelude::*;

use core::marker::PhantomData;

use crate::body::Body;
use crate::http::{same_request_envelope, Request, Response};

verus! {

/// Trait to perform attempted clones of a request's body, for body types
/// whose abstract value is their view.
///
/// The duplicate, when one is produced, has the same view as the
/// original; the absence signal means the value cannot be safely resent.
pub trait TryClone: View + Sized {
    /// Whether a fresh duplicate can be produced in the value's current
    /// state.
    spec fn cloneable(&self) -> bool;

    /// Attempt to clone: a fresh value with the same view, or the
    /// absence signal.
    fn try_clone(&self) -> (r: Option<Self>)
        ensures
            r is Some <==> self.cloneable(),
            match r {
                Option::Some(c) => c@ == self@,
                Option::None => true,
            },
    ;
}

/// A byte buffer is always safe to duplicate: copying it yields a fresh,
/// unconsumed request body with the same contents.
impl TryClone for Vec<u8> {
    open spec fn cloneable(&self) -> bool {
        true
    }

    fn try_clone(&self) -> (r: Option<Vec<u8>>) {
        let mut out: Vec<u8> = Vec::new();
        let mut i: usize = 0;
        while i < self.len()
            invariant
                i <= self@.len(),
                out@ == self@.subrange(0, i as int),
            decreases self@.len() - i,
        {
            out.push(self[i]);
            proof {
                assert(out@ =~= self@.subrange(0, i + 1 as int));
            }
            i += 1;
        }
        proof {
            assert(out@ =~= self@);
        }
        Option::Some(out)
    }
}

/// A simple retry policy for requests whose responses carry the plain
/// protocol-side body.
///
/// Holds the remaining-attempts budget; never mutated in place.
#[derive(Debug)]
pub struct RetryPolicy<E> {
    /// The remaining retry budget.
    pub attempts: u8,
    /// Ties the policy to the error type of the wrapped call.
    pub marker: PhantomData<E>,
}

impl<E> RetryPolicy<E> {
    /// Create a new policy with the provided amount of retries.
    pub fn new(attempts: u8) -> (r: RetryPolicy<E>)
        ensures
            r.attempts == attempts,
    {
        RetryPolicy { attempts, marker: PhantomData }
    }

    /// Classify an outcome: a retry is granted — as a fresh policy with
    /// the counter decremented — exactly for a server-error-class
    /// response or a transport-level error, while budget remains.
    pub fn retry<T>(&self, req: &Request<T>, result: Result<&Response<Body>, &E>) -> (r: Option<
        RetryPolicy<E>,
    >)
        ensures
            r is Some <==> (self.attempts > 0 && match result {
                Result::Ok(res) => res.status.spec_is_server_error(),
                Result::Err(_) => true,
            }),
            match r {
                Option::Some(p) => p.attempts == self.attempts - 1,
                Option::None => true,
            },
    {
        let _ = req;
        if self.attempts == 0 {
            return Option::None;
        }
        match result {
            Result::Ok(res) => {
                if res.status.is_server_error() {
                    Option::Some(RetryPolicy::new(self.attempts - 1))
                } else {
                    Option::None
                }
            },
            Result::Err(_) => Option::Some(
                RetryPolicy { attempts: self.attempts - 1, marker: PhantomData },
            ),
        }
    }

    /// Attempt to produce a fresh, equivalent request for a retry:
    /// succeeds exactly when the body's duplication capability does, and
    /// the clone carries the same envelope and a body with the same view.
    pub fn clone_request<T: TryClone>(&self, req: &Request<T>) -> (r: Option<Request<T>>)
        ensures
            r is Some <==> req.body.cloneable(),
            match r {
                Option::Some(c) => same_request_envelope(*req, c) && c.body@ == req.body@,
                Option::None => true,
            },
    {
        match req.body.try_clone() {
            Option::Some(body) => {
                let clone = Request {
                    method: req.method,
                    uri: req.uri.clone(),
                    version: req.version,
                    headers: req.headers.duplicate(),
                    body,
                };
                Option::Some(clone)
            },
            Option::None => Option::None,
        }
    }
}

} // verus!
