//! The background driver: the task that exclusively owns a transport after
//! the handshake and runs the protocol's internal I/O loop until the
//! transport closes or a protocol error occurs.
//!
//! The loop's actual I/O happens in the host environment; each turn of the
//! loop reports what it observed as a [`DriverEvent`], and the driver
//! records the consequence. A failure is downgraded to a recorded event —
//! it is stored in the shared [`Handle`] and in the driver's own state,
//! never propagated to a particular pending request. The driver is never
//! restarted.

use vstd::prelude::*;

use crate::{ProtocolError, Transport};

verus! {

/// What one turn of the protocol's internal loop observed.
#[derive(Clone, Copy, PartialEq, Eq, Structural, Debug)]
pub enum DriverEvent {
    /// The loop made progress and the transport is still open.
    Progress,
    /// The transport closed in an orderly way; the task is finished.
    Shutdown,
    /// A protocol error occurred; the task terminates with it.
    Fatal(ProtocolError),
}

/// The driver's lifecycle.
#[derive(Clone, Copy, PartialEq, Eq, Structural, Debug)]
pub enum DriverState {
    /// Still driving the protocol loop.
    Running,
    /// Terminated because the transport closed in an orderly way.
    Closed,
    /// Terminated with the recorded protocol error.
    Errored(ProtocolError),
}

/// What a poll of the driver reports to the executor.
#[derive(Clone, Copy, PartialEq, Eq, Structural, Debug)]
pub enum DriverPoll {
    /// The task is not finished; poll again.
    Pending,
    /// The task finished in an orderly way.
    Finished,
    /// The task terminated with an error; the error was recorded, not
    /// propagated.
    Failed,
}

/// Background task for a client connection.
///
/// Owns the transport after the handshake: no other component can reach
/// the byte stream once the driver holds it.
#[derive(Debug)]
pub struct Background {
    /// The exclusively owned transport.
    pub transport: Transport,
    /// Where the driver stands in its lifecycle.
    pub state: DriverState,
}

/// Shared handle between the background task and the connection's side:
/// a guarded slot where the task records a terminal error for later
/// observation.
#[derive(Debug)]
pub struct Handle {
    /// The recorded terminal error, until someone takes it.
    pub error: Option<ProtocolError>,
}

impl Handle {
    /// Take the recorded error, leaving the slot empty.
    pub fn get_error(&mut self) -> (r: Option<ProtocolError>)
        ensures
            r == old(self).error,
            final(self).error is None,
    {
        self.error.take()
    }
}

impl Background {
    /// Take exclusive ownership of a transport and start the driver,
    /// returning the task and the handle its failures are recorded in.
    pub fn new(transport: Transport) -> (r: (Background, Handle))
        ensures
            r.0.transport == transport,
            r.0.state == DriverState::Running,
            r.1.error is None,
    {
        (Background { transport, state: DriverState::Running }, Handle { error: None })
    }

    /// One turn of the protocol loop. A fatal event terminates the task
    /// and records the error in the handle; it is not propagated.
    pub fn poll(&mut self, event: DriverEvent, handle: &mut Handle) -> (r: DriverPoll)
        requires
            old(self).state == DriverState::Running,
        ensures
            final(self).transport == old(self).transport,
            match event {
                DriverEvent::Progress => {
                    &&& final(self).state == DriverState::Running
                    &&& r == DriverPoll::Pending
                    &&& final(handle).error == old(handle).error
                },
                DriverEvent::Shutdown => {
                    &&& final(self).state == DriverState::Closed
                    &&& r == DriverPoll::Finished
                    &&& final(handle).error == old(handle).error
                },
                DriverEvent::Fatal(e) => {
                    &&& final(self).state == DriverState::Errored(e)
                    &&& r == DriverPoll::Failed
                    &&& final(handle).error == Option::Some(e)
                },
            },
    {
        match event {
            DriverEvent::Progress => DriverPoll::Pending,
            DriverEvent::Shutdown => {
                self.state = DriverState::Closed;
                DriverPoll::Finished
            },
            DriverEvent::Fatal(e) => {
                self.state = DriverState::Errored(e);
                handle.error = Option::Some(e);
                DriverPoll::Failed
            },
        }
    }
}

} // verus!
