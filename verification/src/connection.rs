use vstd::prelude::*;

verus! {

/// The fixed, side-effect-free statement used to test liveness. It round
/// trips through the full connection stack at negligible cost and depends on
/// no schema.
pub fn health_probe() -> (s: &'static str)
    ensures
        s@ == "SELECT 1"@,
{
    "SELECT 1"
}

/// The health probe in the shape `Connection::interact` hands an operation
/// its access: it takes the raw connection over, runs the probe, and gives
/// the connection back with the affected row count — one row over a live
/// transport, a closed-transport failure otherwise.
pub fn run_probe(conn: RawConnection) -> (out: (RawConnection, Result<u64, String>))
    ensures
        out.0 == conn,
        conn.alive ==> (out.1 matches Ok(n) && n == 1u64),
        !conn.alive ==> (out.1 matches Err(m) && m@ == "connection closed"@),
{
    let mut conn = conn;
    let r = conn.execute(health_probe());
    (conn, r)
}

/// The model of a raw session against a remote target. The one observable
/// the adapter ever reads of it is liveness: whether the transport under the
/// session is still open. Exactly one raw connection exists per successful
/// establishment; it is never repaired in place.
#[derive(Clone, Debug, PartialEq, Eq, Structural)]
pub struct RawConnection {
    /// Whether the transport under this session is still open. Severing is
    /// one-way: no operation of this crate reopens a closed transport.
    pub alive: bool,
}

impl RawConnection {
    /// A freshly established session: establishing is, by definition, the
    /// act of opening the transport, so the result is live.
    pub fn establish_fresh() -> (r: RawConnection)
        ensures
            r.alive,
    {
        RawConnection { alive: true }
    }

    /// Models the transport being severed out-of-band (peer reset, network
    /// partition, backend shutdown). One-way.
    pub fn sever(&mut self)
        ensures
            !final(self).alive,
    {
        self.alive = false;
    }

    /// Runs one statement over the session and answers with the affected row
    /// count: the model backend acknowledges every statement with a single
    /// affected row, which is all the health probe relies on. A severed
    /// session answers nothing but a closed-transport failure, and stays as
    /// it is: execution never repairs a session.
    pub fn execute(&mut self, statement: &str) -> (r: Result<u64, String>)
        ensures
            *final(self) == *old(self),
            old(self).alive ==> r == Result::<u64, String>::Ok(1u64),
            !old(self).alive ==> (r matches Err(m) && m@ == "connection closed"@),
    {
        if self.alive {
            Ok(1)
        } else {
            Err("connection closed".to_owned())
        }
    }
}

/// The exclusive-access wrapper around one raw connection.
///
/// This crate fixes the exclusive-owner model as its contract: the wrapper is
/// the sole owner of the raw connection, and the pool's checkout/return
/// discipline is the exclusivity guarantee, so the wrapper itself carries no
/// lock and `interact` hands out direct, ownership-transferred access. (The
/// queueing discipline a shared-owner wrapper would need instead is stated
/// and proved in `crate::lock`.)
#[derive(Clone, Debug, PartialEq, Eq, Structural)]
pub struct Connection {
    /// The one raw connection this wrapper owns.
    pub raw: RawConnection,
    /// Set once a validation probe has failed. Terminal: nothing in this
    /// crate clears it, and a correct pool destroys the wrapper instead of
    /// ever returning it to the idle set.
    pub terminal: bool,
}

/// A wrapper is well formed when a failed validation has left no live
/// transport behind: validation fails only on a severed session, and no
/// operation repairs one.
pub open spec fn wf(c: Connection) -> bool {
    c.terminal ==> !c.raw.alive
}

/// A wrapper fit to hand to a consumer: transport open, no failed validation
/// behind it.
pub open spec fn healthy(c: Connection) -> bool {
    c.raw.alive && !c.terminal
}

/// The wrapper state a probe leaves behind: a probe against a live session
/// changes nothing at all; one against a severed session marks the wrapper
/// terminal.
pub open spec fn spec_probe_state(c: Connection) -> Connection {
    if c.raw.alive {
        c
    } else {
        Connection { raw: c.raw, terminal: true }
    }
}

/// Whether a probe against the wrapper succeeds: exactly when the transport
/// under it is still open.
pub open spec fn spec_probe_ok(c: Connection) -> bool {
    c.raw.alive
}

/// The wrapper state after `n` consecutive probes.
pub open spec fn spec_probe_n(c: Connection, n: nat) -> Connection
    decreases n,
{
    if n == 0 {
        c
    } else {
        spec_probe_state(spec_probe_n(c, (n - 1) as nat))
    }
}

/// Law: probing is idempotent. Against a healthy wrapper, any number of
/// consecutive probes are that many independent successes, and none has an
/// observable effect beyond its round trip: the wrapper after each of them is
/// the wrapper before.
pub proof fn lemma_probe_idempotent(c: Connection, n: nat)
    requires
        spec_probe_ok(c),
    ensures
        spec_probe_n(c, n) == c,
        spec_probe_ok(spec_probe_n(c, n)),
    decreases n,
{
    if n > 0 {
        lemma_probe_idempotent(c, (n - 1) as nat);
    }
}

/// Law: a failed validation is terminal. Once a probe has failed against a
/// wrapper, no number of further probes revives it: the transport stays
/// severed, the terminal mark stays set, and every further probe fails too.
/// A correct pool therefore never sees it become valid again.
pub proof fn lemma_terminal_is_absorbing(c: Connection, n: nat)
    requires
        c.terminal,
        wf(c),
    ensures
        spec_probe_n(c, n) == c,
        !spec_probe_ok(spec_probe_n(c, n)),
    decreases n,
{
    if n > 0 {
        lemma_terminal_is_absorbing(c, (n - 1) as nat);
    }
}

/// Law: no probe repairs a session. A probe against a severed transport
/// leaves it severed and marks the wrapper terminal; recovery happens only
/// through a later, brand-new establishment driven by the pool.
pub proof fn lemma_no_repair_in_place(c: Connection)
    requires
        !c.raw.alive,
    ensures
        !spec_probe_state(c).raw.alive,
        spec_probe_state(c).terminal,
        wf(spec_probe_state(c)),
{
}

impl From<RawConnection> for Connection {
    /// Takes sole ownership of a raw connection; no probe has failed against
    /// the fresh wrapper yet.
    fn from(conn: RawConnection) -> (c: Connection) {
        Connection { raw: conn, terminal: false }
    }
}

impl vstd::std_specs::convert::FromSpecImpl<RawConnection> for Connection {
    open spec fn obeys_from_spec() -> bool {
        true
    }

    open spec fn from_spec(conn: RawConnection) -> Connection {
        Connection { raw: conn, terminal: false }
    }
}

impl Connection {
    /// Shared view of the raw connection.
    pub fn as_ref(&self) -> (r: &RawConnection)
        ensures
            *r == self.raw,
    {
        &self.raw
    }

    /// Direct mutable access to the raw connection: in the exclusive-owner
    /// model the pool's checkout is the exclusivity guarantee, so no lock
    /// gates this.
    pub fn as_mut(&mut self) -> (r: &mut RawConnection)
        ensures
            *r == old(self).raw,
            *final(self) == (Connection { raw: *final(r), terminal: old(self).terminal }),
    {
        &mut self.raw
    }

    /// Runs the health probe under the exclusivity the wrapper guarantees and
    /// answers with success, or with the rendered cause of the failure. A
    /// successful probe has no observable effect beyond the round trip; a
    /// failed one marks the wrapper terminal.
    pub fn ping(&mut self) -> (r: Result<(), String>)
        ensures
            *final(self) == spec_probe_state(*old(self)),
            r is Ok <==> spec_probe_ok(*old(self)),
            r matches Err(m) ==> m@ == "connection closed"@,
    {
        match self.raw.execute(health_probe()) {
            Ok(_) => Ok(()),
            Err(cause) => {
                self.terminal = true;
                Err(cause)
            },
        }
    }

    /// The scoped-access primitive: hands the supplied operation exclusive,
    /// ownership-transferred access to the raw connection for the duration of
    /// its run, and gives back whatever the operation returns, unchanged. The
    /// wrapper afterwards owns exactly the raw connection the operation left
    /// behind, on every exit path: release is by ownership, not by a cleanup
    /// the operation could skip.
    ///
    /// A terminal wrapper never circulates (a correct pool destroys it on the
    /// failed recycle), so exclusive access here is always grantable and the
    /// operation's outcome is the call's only outcome. Re-entrant use needs
    /// no ruling out: the operation owns the raw connection outright, and no
    /// second wrapper of the same connection exists in this model.
    pub fn interact<T, F: FnOnce(RawConnection) -> (RawConnection, T)>(
        &mut self,
        operation: F,
    ) -> (r: T)
        requires
            !old(self).terminal,
            call_requires(operation, (old(self).raw,)),
        ensures
            call_ensures(operation, (old(self).raw,), (final(self).raw, r)),
            final(self).terminal == old(self).terminal,
    {
        let mut taken = RawConnection { alive: false };
        core::mem::swap(&mut taken, &mut self.raw);
        let (given_back, result) = operation(taken);
        self.raw = given_back;
        result
    }
}

} // verus!
