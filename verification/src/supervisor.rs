//! The supervisor of the streaming connection: at most one connection is
//! recorded as active, and a connection that is replaced gets a shutdown
//! signal no later than its replacement is recorded.

use vstd::prelude::*;

verus! {

/// Why a streaming connection could not be created.
#[derive(Clone, Copy, Debug, PartialEq, Eq, Structural)]
pub enum ConnectError {
    Transport,
    Authentication,
    Remote,
}

/// What the supervisor records: no connection, or the one active
/// connection, by its handle.
#[derive(Clone, Copy, Debug, PartialEq, Eq, Structural)]
pub enum ConnectionState {
    NoConnection,
    Active(u64),
}

/// The supervisor's record.
#[derive(Clone, Copy, Debug, PartialEq, Eq, Structural)]
pub struct Supervisor {
    pub state: ConnectionState,
    /// Whether a shutdown signal has been issued to the active connection.
    pub shutdown_issued: bool,
}

impl Supervisor {
    /// A shutdown signal can only have gone to a connection that is there.
    pub open spec fn wf(&self) -> bool {
        self.state is NoConnection ==> !self.shutdown_issued
    }

    /// The handle of the active connection.
    pub open spec fn active(&self) -> Option<u64> {
        match self.state {
            ConnectionState::Active(h) => Some(h),
            ConnectionState::NoConnection => None,
        }
    }

    /// The record after a shutdown signal went to the active connection: the
    /// connection is still the recorded one.
    pub open spec fn after_signal(self) -> Supervisor {
        Supervisor { state: self.state, shutdown_issued: self.state is Active }
    }

    /// The record after an attempt to create a connection. A failure changes
    /// nothing. A new connection becomes the active one, with no signal
    /// issued to it.
    pub open spec fn after_install(self, created: Result<u64, ConnectError>) -> Supervisor {
        match created {
            Ok(h) => Supervisor { state: ConnectionState::Active(h), shutdown_issued: false },
            Err(_) => self,
        }
    }

    /// The connection that must get its shutdown signal at the moment of an
    /// installation: the one that is replaced, unless it has its signal.
    pub open spec fn owed_signal(self, created: Result<u64, ConnectError>) -> Option<u64> {
        match (created, self.state) {
            (Ok(_), ConnectionState::Active(old)) => if self.shutdown_issued {
                None
            } else {
                Some(old)
            },
            _ => None,
        }
    }

    /// A supervisor without a connection.
    pub fn new() -> (r: Supervisor)
        ensures
            r.wf(),
            r.state is NoConnection,
            !r.shutdown_issued,
    {
        Supervisor { state: ConnectionState::NoConnection, shutdown_issued: false }
    }

    /// Whether the record is well formed.
    pub fn is_wf(&self) -> (r: bool)
        ensures
            r == self.wf(),
    {
        match self.state {
            ConnectionState::NoConnection => !self.shutdown_issued,
            ConnectionState::Active(_) => true,
        }
    }

    /// Gets the handle of the active connection.
    pub fn active_handle(&self) -> (r: Option<u64>)
        ensures
            r == self.active(),
    {
        match self.state {
            ConnectionState::Active(h) => Some(h),
            ConnectionState::NoConnection => None,
        }
    }

    /// A request to replace the connection has come: returns the handle to
    /// broadcast the shutdown signal to, and records that it was issued. The
    /// active connection stays the recorded one until another is installed.
    pub fn begin_supersede(&mut self) -> (r: Option<u64>)
        requires
            old(self).wf(),
        ensures
            final(self).wf(),
            *final(self) == old(self).after_signal(),
            r == old(self).active(),
    {
        match self.state {
            ConnectionState::Active(h) => {
                self.shutdown_issued = true;
                Some(h)
            },
            ConnectionState::NoConnection => None,
        }
    }

    /// Records the outcome of an attempt to create a connection. A failure
    /// is handed back and the record stays as it was. A new connection
    /// becomes the active one; where the one it replaces has had no shutdown
    /// signal, its handle is returned, to be signalled now.
    pub fn install(&mut self, created: Result<u64, ConnectError>) -> (r: Result<
        Option<u64>,
        ConnectError,
    >)
        requires
            old(self).wf(),
        ensures
            final(self).wf(),
            *final(self) == old(self).after_install(created),
            r == match created {
                Ok(_) => Ok::<Option<u64>, ConnectError>(old(self).owed_signal(created)),
                Err(e) => Err::<Option<u64>, ConnectError>(e),
            },
    {
        match created {
            Err(e) => Err(e),
            Ok(h) => {
                let owed: Option<u64> = match self.state {
                    ConnectionState::Active(old_handle) => if self.shutdown_issued {
                        None
                    } else {
                        Some(old_handle)
                    },
                    ConnectionState::NoConnection => None,
                };
                self.state = ConnectionState::Active(h);
                self.shutdown_issued = false;
                Ok(owed)
            },
        }
    }

    /// The process exits: no connection is recorded any more, and the handle
    /// of the one that was active is returned, to be signalled.
    pub fn shutdown(&mut self) -> (r: Option<u64>)
        ensures
            final(self).wf(),
            final(self).state is NoConnection,
            !final(self).shutdown_issued,
            r == old(self).active(),
    {
        let r = self.active_handle();
        self.state = ConnectionState::NoConnection;
        self.shutdown_issued = false;
        r
    }
}

/// A connection that is replaced has its shutdown signal before, or at the
/// moment when, the new one is recorded: either the signal was issued
/// earlier, or the installation returns its handle for signalling. After the
/// installation the new connection is the only one recorded.
pub proof fn lemma_supersede_signals_prior(s: Supervisor, old_handle: u64, new_handle: u64)
    requires
        s.wf(),
        s.state == ConnectionState::Active(old_handle),
    ensures
        s.shutdown_issued || s.owed_signal(Ok(new_handle)) == Some(old_handle),
        s.after_signal().shutdown_issued,
        s.after_signal().owed_signal(Ok(new_handle)) is None,
        s.after_install(Ok(new_handle)).active() == Some(new_handle),
        s.after_signal().after_install(Ok(new_handle)).active() == Some(new_handle),
{
}

/// A failed attempt to create a connection leaves the record as it was, and
/// no shutdown signal is owed on its account.
pub proof fn lemma_failed_creation_keeps_state(s: Supervisor, e: ConnectError)
    ensures
        s.after_install(Err(e)) == s,
        s.owed_signal(Err(e)) is None,
{
}

} // verus!
