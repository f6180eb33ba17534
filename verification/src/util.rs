//! A bridge between a make-connection collaborator's own interface and
//! the shape the connect machinery consumes: always-admitting readiness,
//! and a future that surfaces the eventual transport while discarding the
//! collaborator's extra connection metadata.

use vstd::prelude::*;

verus! {

/// Adapts a make-connection collaborator: the bridge imposes no
/// admission signal of its own, and strips the collaborator's metadata
/// from the acquired transport.
#[derive(Debug)]
pub struct Connector<C> {
    /// The wrapped collaborator.
    pub inner: C,
}

impl<C> Connector<C> {
    /// Construct a new connector from a make-connection collaborator.
    pub fn new(inner: C) -> (r: Connector<C>)
        ensures
            r.inner == inner,
    {
        Connector { inner }
    }

    /// The connector itself is always ready: admission is entirely the
    /// wrapped collaborator's concern.
    pub fn poll_ready<T>(&mut self) -> (r: Result<(), T>)
        ensures
            *final(self) == *old(self),
            r is Ok,
    {
        Result::Ok(())
    }
}

/// The future that resolves to the eventual inner transport produced by
/// the wrapped collaborator.
#[derive(Debug)]
pub struct ConnectorFuture {
    /// Whether the transport has already been surfaced.
    pub completed: bool,
}

impl ConnectorFuture {
    /// A still-pending acquisition.
    pub fn new() -> (r: ConnectorFuture)
        ensures
            !r.completed,
    {
        ConnectorFuture { completed: false }
    }

    /// Poll with what the collaborator reports. A ready transport comes
    /// paired with connection metadata the bridge has no use for: only
    /// the transport is surfaced, the metadata is dropped. Errors pass
    /// through unchanged.
    pub fn poll<T, M, E>(&mut self, event: Option<Result<(T, M), E>>) -> (r: Result<Option<T>, E>)
        requires
            !old(self).completed,
        ensures
            match event {
                Option::None => {
                    &&& r matches Result::Ok(o) && o is None
                    &&& !final(self).completed
                },
                Option::Some(Result::Ok(pair)) => {
                    &&& r matches Result::Ok(o) && o == Option::Some(pair.0)
                    &&& final(self).completed
                },
                Option::Some(Result::Err(e)) => {
                    &&& r matches Result::Err(got) && got == e
                    &&& final(self).completed
                },
            },
    {
        match event {
            Option::None => Result::Ok(Option::None),
            Option::Some(Result::Ok(pair)) => {
                self.completed = true;
                let (transport, _meta) = pair;
                Result::Ok(Option::Some(transport))
            },
            Option::Some(Result::Err(e)) => {
                self.completed = true;
                Result::Err(e)
            },
        }
    }
}

} // verus!
