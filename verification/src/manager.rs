use vstd::prelude::*;

use crate::connection::Connection;
use crate::connection::RawConnection;
use crate::connection::healthy;
use crate::connection::spec_probe_ok;
use crate::connection::spec_probe_state;
use crate::connection::wf;
use crate::error::Error;
use crate::error::RecycleError;
use crate::error::spec_ping_message;

verus! {

/// What creating a connection from the outcome of an establishment attempt
/// yields: a fresh wrapper on success, the establishment failure surfaced
/// verbatim otherwise.
pub open spec fn spec_create(established: Result<RawConnection, String>) -> Result<
    Connection,
    Error,
> {
    match established {
        Ok(raw) => Ok(Connection { raw, terminal: false }),
        Err(cause) => Err(Error::Connection(cause)),
    }
}

/// Law: every connection a successful create yields answers an immediate
/// probe. Establishment opens the transport, so the fresh wrapper is healthy
/// and its first ping — and, by idempotence, any run of pings before the
/// transport is severed — succeeds.
pub proof fn lemma_create_then_probe_succeeds(established: Result<RawConnection, String>)
    requires
        established matches Ok(raw) && raw.alive,
    ensures
        spec_create(established) matches Ok(c) && healthy(c) && spec_probe_ok(c),
{
}

/// The resource manager a pool drives: stateless beyond the immutable
/// address of the target it establishes connections against.
#[derive(Clone, Debug)]
pub struct Manager {
    database_url: String,
}

impl Manager {
    /// The target address this manager establishes connections against.
    pub closed spec fn url(self) -> Seq<char> {
        self.database_url@
    }

    /// Builds a manager for the given target address. The address is stored
    /// once and never mutated afterward.
    pub fn new(database_url: String) -> (m: Manager)
        ensures
            m.url() == database_url@,
    {
        Manager { database_url }
    }

    /// The stored target address.
    pub fn database_url(&self) -> (s: &str)
        ensures
            s@ == self.url(),
    {
        self.database_url.as_str()
    }

    /// Lifecycle hook that populates an empty pool slot. Establishing the
    /// session is a transport round trip against this manager's address: the
    /// caller performs it and hands the outcome in. A success is wrapped
    /// fresh; a failure is surfaced verbatim as an establishment error, with
    /// zero retries — retry policy belongs to the pool. An established
    /// session is, by the meaning of establishment, one whose transport was
    /// just opened.
    pub fn create(&self, established: Result<RawConnection, String>) -> (r: Result<
        Connection,
        Error,
    >)
        requires
            established matches Ok(raw) ==> raw.alive,
        ensures
            r == spec_create(established),
            r matches Ok(c) ==> healthy(c) && wf(c),
    {
        match established {
            Ok(raw) => Ok(Connection::from(raw)),
            Err(cause) => Err(Error::Connection(cause)),
        }
    }

    /// Lifecycle hook that validates a previously leased wrapper before the
    /// pool returns it to the idle set. Runs the health probe: on success the
    /// wrapper is untouched and may idle again; on failure the wrapper is
    /// terminal and the pool must destroy it — the manager never repairs in
    /// place, and every failure class collapses to the same eviction mandate,
    /// carried as text because the pool's recycle channel is string-based.
    /// A wrapper that already failed validation never comes back here: a
    /// correct pool destroyed it.
    pub fn recycle(&self, connection: &mut Connection) -> (r: Result<(), RecycleError>)
        requires
            !old(connection).terminal,
        ensures
            *final(connection) == spec_probe_state(*old(connection)),
            r is Ok <==> spec_probe_ok(*old(connection)),
            r is Ok ==> *final(connection) == *old(connection),
            r matches Err(RecycleError::Message(m)) ==> m@ == spec_ping_message(
                "connection closed"@,
            ) && final(connection).terminal,
            wf(*final(connection)),
    {
        match connection.ping() {
            Ok(()) => Ok(()),
            Err(cause) => Err(Error::Ping(cause).to_recycle_error()),
        }
    }
}

} // verus!
