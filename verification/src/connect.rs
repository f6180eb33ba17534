//! The connect/handshake state machine: turns a target into a ready
//! connection by acquiring a transport, performing the protocol
//! handshake, and spawning the background driver.
//!
//! The machine is the tagged pair of states `Acquiring → Handshaking`,
//! either of which can step to a terminal failure. Protocol selection is
//! transport-driven: when the acquired transport advertises a negotiated
//! multiplexed mode, the handshake configuration is adjusted before the
//! handshake runs, never hardcoded. A handshake is only ever counted as
//! successful once its driver has been scheduled: exactly one background
//! task is spawned for a successful outcome, and none for a failed one.

use vstd::prelude::*;

use crate::background::Background;
use crate::connection::Connection;
use crate::http::Version;
use crate::{ProtocolError, Transport};

verus! {

/// Handshake configuration: the recognized transport-negotiation knobs.
#[derive(Clone, Copy, Debug)]
pub struct Builder {
    /// Force the multiplexed protocol version for the handshake.
    pub http2_only: bool,
    /// Handshake buffer size, if overridden.
    pub max_buf_size: Option<usize>,
}

impl Builder {
    /// The default configuration: nothing forced, nothing overridden.
    pub fn new() -> (r: Builder)
        ensures
            !r.http2_only,
            r.max_buf_size is None,
    {
        Builder { http2_only: false, max_buf_size: None }
    }

    /// Force (or stop forcing) the multiplexed protocol version.
    pub fn set_http2_only(&mut self, enabled: bool)
        ensures
            final(self).http2_only == enabled,
            final(self).max_buf_size == old(self).max_buf_size,
    {
        self.http2_only = enabled;
    }

    /// Override the handshake buffer size.
    pub fn set_max_buf_size(&mut self, max: usize)
        ensures
            final(self).http2_only == old(self).http2_only,
            final(self).max_buf_size == Option::Some(max),
    {
        self.max_buf_size = Option::Some(max);
    }
}

/// The error produced from creating a connection.
#[derive(Debug)]
pub enum ConnectError<T> {
    /// An error occurred while attempting to establish the underlying
    /// transport.
    Connect(T),
    /// An error occurred while performing the protocol handshake.
    Handshake(ProtocolError),
    /// The background task could not be scheduled on the executor.
    SpawnError,
}

impl<T> ConnectError<T> {
    /// A short description of the failure, by kind.
    pub fn description(&self) -> (r: &'static str)
        ensures
            match self {
                ConnectError::Connect(_) => r@
                    == "error attempting to establish underlying session layer"@,
                ConnectError::Handshake(_) => r@ == "error performing protocol handshake"@,
                ConnectError::SpawnError => r@ == "error spawning background task"@,
            },
    {
        match self {
            ConnectError::Connect(_) => "error attempting to establish underlying session layer",
            ConnectError::Handshake(_) => "error performing protocol handshake",
            ConnectError::SpawnError => "error spawning background task",
        }
    }
}

/// Executor that will schedule the background driver of a connection.
///
/// `spawned` counts the tasks the executor has accepted; an executor that
/// cannot accept another task reports the failure distinguishably instead
/// of dropping the task silently.
pub trait ConnectExecutor {
    /// How many background tasks this executor has accepted so far.
    spec fn spawned(&self) -> nat;

    /// Hand a background task to the executor. `true` means the task was
    /// scheduled; `false` means the executor refused it (saturation), and
    /// the count is unchanged.
    fn spawn(&mut self, task: Background) -> (r: bool)
        ensures
            r ==> final(self).spawned() == old(self).spawned() + 1,
            !r ==> final(self).spawned() == old(self).spawned(),
    ;
}

/// An executor that parks accepted drivers in a queue for the host loop
/// to run, refusing new tasks beyond an optional capacity.
#[derive(Debug)]
pub struct QueueExecutor {
    /// The accepted tasks, in acceptance order.
    pub tasks: Vec<Background>,
    /// The most tasks this executor will accept, if bounded.
    pub capacity: Option<usize>,
}

impl QueueExecutor {
    /// An executor without a capacity bound.
    pub fn new() -> (r: QueueExecutor)
        ensures
            r.spawned() == 0,
            r.capacity is None,
    {
        let r = QueueExecutor { tasks: Vec::new(), capacity: None };
        r
    }

    /// An executor that refuses tasks beyond `capacity`.
    pub fn with_capacity(capacity: usize) -> (r: QueueExecutor)
        ensures
            r.spawned() == 0,
            r.capacity == Option::Some(capacity),
    {
        QueueExecutor { tasks: Vec::new(), capacity: Option::Some(capacity) }
    }

    /// How many tasks have been accepted.
    pub fn task_count(&self) -> (r: usize)
        ensures
            r == self.spawned(),
    {
        self.tasks.len()
    }
}

impl ConnectExecutor for QueueExecutor {
    open spec fn spawned(&self) -> nat {
        self.tasks@.len()
    }

    fn spawn(&mut self, task: Background) -> (r: bool)
        ensures
            r <==> !(old(self).capacity matches Option::Some(c) && old(self).tasks@.len() >= c),
            r ==> final(self).tasks@ == old(self).tasks@.push(task),
            final(self).capacity == old(self).capacity,
    {
        let full = match self.capacity {
            Option::Some(c) => self.tasks.len() >= c,
            Option::None => false,
        };
        if full {
            false
        } else {
            self.tasks.push(task);
            true
        }
    }
}

/// Where a connect attempt stands.
#[derive(Clone, Copy, PartialEq, Eq, Structural, Debug)]
pub enum ConnectState {
    /// Waiting for the make-connection collaborator to yield a transport.
    Acquiring,
    /// Waiting for the protocol handshake on the acquired transport.
    Handshaking,
    /// Terminal: a connection was produced and its driver spawned.
    Connected,
    /// Terminal: the attempt failed; the error was already surfaced.
    Failed,
}

/// The future that represents the eventual connection or error: the
/// connect state machine, stepped by what the collaborators report.
#[derive(Debug)]
pub struct ConnectFuture {
    /// The current state of the attempt.
    pub state: ConnectState,
    /// The handshake configuration this attempt will use, adjusted once
    /// the transport reports what it negotiated.
    pub builder: Builder,
}

impl ConnectFuture {
    /// The transport was acquired: inspect its negotiated protocol,
    /// adjust the handshake configuration accordingly, and move on to the
    /// handshake. Returns the configuration the handshake must use.
    pub fn transport_acquired(&mut self, transport: &Transport) -> (b: Builder)
        requires
            old(self).state == ConnectState::Acquiring,
        ensures
            final(self).state == ConnectState::Handshaking,
            final(self).builder == b,
            b.http2_only == (old(self).builder.http2_only || transport.negotiated == Option::Some(
                Version::Http2,
            )),
            b.max_buf_size == old(self).builder.max_buf_size,
    {
        let mut b = self.builder;
        match transport.negotiated_version() {
            Option::Some(Version::Http2) => b.set_http2_only(true),
            _ => (),
        }
        self.state = ConnectState::Handshaking;
        self.builder = b;
        b
    }

    /// Transport acquisition failed: the attempt is over, with the
    /// collaborator's error wrapped as a connect-time failure.
    pub fn transport_failed<T>(&mut self, err: T) -> (e: ConnectError<T>)
        requires
            old(self).state == ConnectState::Acquiring,
        ensures
            final(self).state == ConnectState::Failed,
            final(self).builder == old(self).builder,
            e == ConnectError::Connect(err),
    {
        self.state = ConnectState::Failed;
        ConnectError::Connect(err)
    }

    /// The handshake failed: the attempt is over. No driver was spawned.
    pub fn handshake_failed<T>(&mut self, err: ProtocolError) -> (e: ConnectError<T>)
        requires
            old(self).state == ConnectState::Handshaking,
        ensures
            final(self).state == ConnectState::Failed,
            final(self).builder == old(self).builder,
            e == ConnectError::<T>::Handshake(err),
    {
        self.state = ConnectState::Failed;
        ConnectError::Handshake(err)
    }

    /// The handshake succeeded, yielding the driver that now owns the
    /// transport. The driver is handed to the executor; only if it was
    /// scheduled is the attempt successful. An un-scheduled driver makes
    /// the whole attempt fail with `SpawnError`, and nothing was spawned.
    pub fn handshake_done<T, E: ConnectExecutor>(&mut self, driver: Background, exec: &mut E) -> (r:
        Result<Connection, ConnectError<T>>)
        requires
            old(self).state == ConnectState::Handshaking,
        ensures
            final(self).builder == old(self).builder,
            match r {
                Result::Ok(conn) => {
                    &&& final(self).state == ConnectState::Connected
                    &&& final(exec).spawned() == old(exec).spawned() + 1
                    &&& conn.failure() is None
                },
                Result::Err(e) => {
                    &&& e == ConnectError::<T>::SpawnError
                    &&& final(self).state == ConnectState::Failed
                    &&& final(exec).spawned() == old(exec).spawned()
                },
            },
    {
        if exec.spawn(driver) {
            self.state = ConnectState::Connected;
            Result::Ok(Connection::new())
        } else {
            self.state = ConnectState::Failed;
            Result::Err(ConnectError::SpawnError)
        }
    }

    /// Run the whole attempt against what the collaborators reported:
    /// the transport-acquisition outcome and, when a transport was
    /// acquired, the handshake outcome on it.
    ///
    /// Exactly one background task is spawned when the result is a
    /// connection, and none when it is an error; the error taxonomy
    /// follows the collaborator that failed.
    pub fn drive<T, E: ConnectExecutor>(
        &mut self,
        transport: Result<Transport, T>,
        handshake: Result<(), ProtocolError>,
        exec: &mut E,
    ) -> (r: Result<(Connection, crate::background::Handle), ConnectError<T>>)
        requires
            old(self).state == ConnectState::Acquiring,
        ensures
            r is Ok ==> final(exec).spawned() == old(exec).spawned() + 1,
            r is Err ==> final(exec).spawned() == old(exec).spawned(),
            match transport {
                Result::Err(te) => r matches Result::Err(e) && e == ConnectError::Connect(te),
                Result::Ok(_) => match handshake {
                    Result::Err(pe) => r matches Result::Err(e) && e == ConnectError::<T>::Handshake(pe),
                    Result::Ok(_) => r is Ok || (r matches Result::Err(e) && e
                        == ConnectError::<T>::SpawnError),
                },
            },
            r matches Result::Ok(out) && {
                &&& final(self).state == ConnectState::Connected
                &&& out.0.failure() is None
                &&& out.1.error is None
            } || (r is Err && final(self).state == ConnectState::Failed),
            transport matches Result::Ok(t) ==> final(self).builder.http2_only == (old(
                self,
            ).builder.http2_only || t.negotiated == Option::Some(Version::Http2)),
    {
        match transport {
            Result::Err(te) => Result::Err(self.transport_failed(te)),
            Result::Ok(t) => {
                let _configured = self.transport_acquired(&t);
                match handshake {
                    Result::Err(pe) => Result::Err(self.handshake_failed(pe)),
                    Result::Ok(_) => {
                        let (driver, handle) = Background::new(t);
                        match self.handshake_done(driver, exec) {
                            Result::Ok(conn) => Result::Ok((conn, handle)),
                            Result::Err(e) => Result::Err(e),
                        }
                    },
                }
            },
        }
    }
}

/// Creates connections: the make-service side of the bridge.
///
/// Holds the make-connection collaborator, the handshake configuration,
/// and the executor that background drivers will be scheduled on; each
/// call starts one connect attempt with a copy of the configuration.
#[derive(Debug)]
pub struct Connect<C, E> {
    /// The make-connection collaborator that yields transports.
    pub inner: C,
    /// The handshake configuration each attempt starts from.
    pub builder: Builder,
    /// The executor background drivers are scheduled on.
    pub executor: E,
}

impl<C> Connect<C, QueueExecutor> {
    /// Create a `Connect` with the default configuration and a fresh
    /// queue executor.
    pub fn new(inner: C) -> (r: Connect<C, QueueExecutor>)
        ensures
            r.inner == inner,
            !r.builder.http2_only,
            r.builder.max_buf_size is None,
            r.executor.spawned() == 0,
    {
        Connect::with_builder(inner, Builder::new())
    }

    /// Create a `Connect` with the given configuration and a fresh queue
    /// executor.
    pub fn with_builder(inner: C, builder: Builder) -> (r: Connect<C, QueueExecutor>)
        ensures
            r.inner == inner,
            r.builder == builder,
            r.executor.spawned() == 0,
    {
        Connect::with_executor(inner, builder, QueueExecutor::new())
    }
}

impl<C, E> Connect<C, E> {
    /// Create a `Connect` that schedules background drivers on the given
    /// executor.
    pub fn with_executor(inner: C, builder: Builder, exec: E) -> (r: Connect<C, E>)
        ensures
            r.inner == inner,
            r.builder == builder,
            r.executor == exec,
    {
        Connect { inner, builder, executor: exec }
    }

    /// Readiness proxies the make-connection collaborator's own admission
    /// signal; its refusal is surfaced as a connect-time failure.
    pub fn poll_ready<T>(&mut self, inner_ready: Result<(), T>) -> (r: Result<(), ConnectError<T>>)
        ensures
            *final(self) == *old(self),
            match inner_ready {
                Result::Ok(_) => r is Ok,
                Result::Err(e) => r matches Result::Err(got) && got == ConnectError::Connect(e),
            },
    {
        match inner_ready {
            Result::Ok(_) => Result::Ok(()),
            Result::Err(e) => Result::Err(ConnectError::Connect(e)),
        }
    }

    /// Start a connect attempt towards `target`. The target is consumed
    /// by transport acquisition; the attempt begins acquiring, with a
    /// copy of this maker's configuration.
    pub fn call<A>(&mut self, target: A) -> (f: ConnectFuture)
        ensures
            *final(self) == *old(self),
            f.state == ConnectState::Acquiring,
            f.builder == old(self).builder,
    {
        let _ = target;
        ConnectFuture { state: ConnectState::Acquiring, builder: self.builder }
    }
}

} // verus!
