use vstd::prelude::*;

verus! {

/// The queueing discipline that gates a raw connection shared by several
/// wrapper handles: at most one task holds access at a time, waiters are
/// granted strictly in the order they asked, a waiter cancelled before its
/// grant is simply gone, and release is unconditional. In the exclusive-owner
/// model (the one `crate::connection` fixes) the pool's checkout plays this
/// role; a shared-owner wrapper must put a primitive with exactly this
/// discipline around its raw connection.
pub struct LockState {
    holder: Option<u64>,
    waiters: Vec<u64>,
}

/// The mathematical state of the discipline: who holds access, and the queue
/// of tasks waiting for it, earliest first.
pub struct LockModel {
    pub holder: Option<u64>,
    pub waiters: Seq<u64>,
}

/// The phases one access request passes through, in order; `Released` is
/// terminal for that request.
#[derive(Clone, Copy, Debug, PartialEq, Eq, Structural)]
pub enum Phase {
    /// Asked for access, not yet granted.
    Requesting,
    /// Sole access granted; the operation is running.
    Holding,
    /// Not in the protocol: never asked, done, or cancelled.
    Released,
}

/// A task appears at most once in the protocol: the queue has no duplicates
/// and the holder is not also queued.
pub open spec fn wf(m: LockModel) -> bool {
    &&& m.waiters.no_duplicates()
    &&& (m.holder matches Some(h) ==> !m.waiters.contains(h))
}

/// Where one task stands in the protocol.
pub open spec fn phase_of(m: LockModel, id: u64) -> Phase {
    if m.holder == Some(id) {
        Phase::Holding
    } else if m.waiters.contains(id) {
        Phase::Requesting
    } else {
        Phase::Released
    }
}

/// A new request joins the back of the queue; nothing else moves.
pub open spec fn spec_request(m: LockModel, id: u64) -> LockModel {
    LockModel { holder: m.holder, waiters: m.waiters.push(id) }
}

/// The task a grant would hand access to now: the earliest waiter, and only
/// when no one is holding.
pub open spec fn spec_grantee(m: LockModel) -> Option<u64> {
    if m.holder is None && m.waiters.len() > 0 {
        Some(m.waiters[0])
    } else {
        None
    }
}

/// Granting hands access to the earliest waiter and dequeues it; when no
/// grant is due, nothing moves.
pub open spec fn spec_grant(m: LockModel) -> LockModel {
    if m.holder is None && m.waiters.len() > 0 {
        LockModel {
            holder: Some(m.waiters[0]),
            waiters: m.waiters.subrange(1, m.waiters.len() as int),
        }
    } else {
        m
    }
}

/// Release gives access up; the queue is untouched.
pub open spec fn spec_release(m: LockModel) -> LockModel {
    LockModel { holder: None, waiters: m.waiters }
}

/// A cancelled waiter leaves the queue; everyone else keeps their place and
/// their order.
pub open spec fn spec_cancel(m: LockModel, id: u64) -> LockModel
    recommends
        m.waiters.contains(id),
{
    LockModel { holder: m.holder, waiters: m.waiters.remove(m.waiters.index_of(id)) }
}

impl LockState {
    /// The mathematical state this value stands for.
    pub closed spec fn model(self) -> LockModel {
        LockModel { holder: self.holder, waiters: self.waiters@ }
    }

    /// A fresh discipline: nobody holds, nobody waits.
    pub fn new() -> (s: LockState)
        ensures
            s.model().holder is None,
            s.model().waiters == Seq::<u64>::empty(),
            wf(s.model()),
    {
        LockState { holder: None, waiters: Vec::new() }
    }

    /// Who holds access now.
    pub fn holder(&self) -> (r: Option<u64>)
        ensures
            r == self.model().holder,
    {
        self.holder
    }

    /// How many tasks are queued.
    pub fn waiting_count(&self) -> (n: usize)
        ensures
            n == self.model().waiters.len(),
    {
        self.waiters.len()
    }

    /// The given task asks for access and joins the back of the queue. A
    /// task asks at most once before it is granted or cancelled.
    pub fn request(&mut self, id: u64)
        requires
            wf(old(self).model()),
            phase_of(old(self).model(), id) == Phase::Released,
        ensures
            final(self).model() == spec_request(old(self).model(), id),
            wf(final(self).model()),
    {
        self.waiters.push(id);
        proof {
            let w0 = old(self).waiters@;
            let w1 = self.waiters@;
            assert forall|i: int, j: int|
                0 <= i < w1.len() && 0 <= j < w1.len() && i != j implies w1[i] != w1[j] by {
                assert(forall|k: int| 0 <= k < w0.len() ==> w1[k] == w0[k]);
            }
        }
    }

    /// Hands access to the earliest waiter, when nobody holds it and someone
    /// waits; answers who was granted. No waiter is ever skipped: the grant
    /// is first-come-first-served.
    pub fn try_grant(&mut self) -> (granted: Option<u64>)
        requires
            wf(old(self).model()),
        ensures
            granted == spec_grantee(old(self).model()),
            final(self).model() == spec_grant(old(self).model()),
            wf(final(self).model()),
    {
        if self.holder.is_none() && self.waiters.len() > 0 {
            let id = self.waiters.remove(0);
            self.holder = Some(id);
            proof {
                let w0 = old(self).waiters@;
                assert(self.waiters@ =~= w0.subrange(1, w0.len() as int));
            }
            Some(id)
        } else {
            None
        }
    }

    /// The holder gives access up. Unconditional: it needs nothing of how
    /// the held operation ended, and the queue is untouched.
    pub fn release(&mut self, id: u64)
        requires
            wf(old(self).model()),
            phase_of(old(self).model(), id) == Phase::Holding,
        ensures
            final(self).model() == spec_release(old(self).model()),
            wf(final(self).model()),
    {
        self.holder = None;
    }

    /// A waiter cancelled before its grant leaves the queue: it was never
    /// granted, and it never will be. Everyone else keeps their place.
    pub fn cancel(&mut self, id: u64)
        requires
            wf(old(self).model()),
            phase_of(old(self).model(), id) == Phase::Requesting,
        ensures
            final(self).model() == spec_cancel(old(self).model(), id),
            wf(final(self).model()),
            phase_of(final(self).model(), id) == Phase::Released,
    {
        let ghost w0 = self.waiters@;
        let mut k: usize = 0;
        while k < self.waiters.len() && self.waiters[k] != id
            invariant
                self.holder == old(self).holder,
                self.waiters@ == w0,
                w0 == old(self).waiters@,
                0 <= k <= self.waiters.len(),
                forall|i: int| 0 <= i < k ==> w0[i] != id,
            decreases self.waiters.len() - k,
        {
            k += 1;
        }
        proof {
            assert(w0.contains(id));
            assert(k < w0.len() && w0[k as int] == id);
            let ci = w0.index_of(id);
            assert(0 <= ci < w0.len() && w0[ci] == id);
            assert(k as int == ci);
        }
        self.waiters.remove(k);
        proof {
            lemma_cancel_wf(old(self).model(), id);
            lemma_cancelled_is_out(old(self).model(), id);
        }
    }
}

/// Cancelling a waiter keeps the protocol well formed.
pub proof fn lemma_cancel_wf(m: LockModel, id: u64)
    requires
        wf(m),
        m.waiters.contains(id),
    ensures
        wf(spec_cancel(m, id)),
{
    let ci = m.waiters.index_of(id);
    m.waiters.remove_ensures(ci);
    let w1 = spec_cancel(m, id).waiters;
    assert forall|i: int, j: int|
        0 <= i < w1.len() && 0 <= j < w1.len() && i != j implies w1[i] != w1[j] by {}
    match m.holder {
        Some(h) => {
            assert forall|i: int| 0 <= i < w1.len() implies w1[i] != h by {}
        },
        None => {},
    }
}

/// Law: a waiter cancelled before its grant was never granted and never will
/// be — after the cancellation it is out of the protocol entirely, the
/// holder is unchanged, and every other task keeps its phase.
pub proof fn lemma_cancelled_is_out(m: LockModel, id: u64)
    requires
        wf(m),
        phase_of(m, id) == Phase::Requesting,
    ensures
        phase_of(spec_cancel(m, id), id) == Phase::Released,
        spec_cancel(m, id).holder == m.holder,
        forall|other: u64| other != id ==> phase_of(spec_cancel(m, id), other) == phase_of(
            m,
            other,
        ),
{
    let ci = m.waiters.index_of(id);
    assert(0 <= ci < m.waiters.len() && m.waiters[ci] == id);
    m.waiters.remove_ensures(ci);
    let w1 = spec_cancel(m, id).waiters;
    assert forall|other: u64| other != id implies phase_of(spec_cancel(m, id), other) == phase_of(
        m,
        other,
    ) by {
        if m.waiters.contains(other) {
            let oi = choose|oi: int| 0 <= oi < m.waiters.len() && m.waiters[oi] == other;
            if oi < ci {
                assert(w1[oi] == other);
            } else {
                assert(w1[oi - 1] == other);
            }
            assert(w1.contains(other));
        } else {
            assert forall|i: int| 0 <= i < w1.len() implies w1[i] != other by {}
            assert(!w1.contains(other));
        }
    }
    assert forall|i: int| 0 <= i < w1.len() implies w1[i] != id by {}
    assert(!w1.contains(id));
}

/// Law: mutual exclusion. No two distinct tasks are ever `Holding` the same
/// raw connection at once, whichever wrapper handle each came through.
pub proof fn lemma_mutual_exclusion(m: LockModel, a: u64, b: u64)
    requires
        phase_of(m, a) == Phase::Holding,
        phase_of(m, b) == Phase::Holding,
    ensures
        a == b,
{
}

/// Law: release unblocks the queue. Whatever became of the operation the
/// holder ran — a result, an error, abandonment — once it releases, the
/// earliest waiter is due the very next grant: a subsequent request cannot
/// deadlock behind a finished one.
pub proof fn lemma_release_unblocks(m: LockModel, h: u64)
    requires
        wf(m),
        phase_of(m, h) == Phase::Holding,
        m.waiters.len() > 0,
    ensures
        spec_grantee(spec_release(m)) == Some(m.waiters[0]),
        phase_of(spec_grant(spec_release(m)), m.waiters[0]) == Phase::Holding,
{
}

/// Law: access is granted first-come-first-served. From a quiet protocol,
/// when `a` asks before `b`, `a` is granted first, and once `a` releases,
/// `b` is due the very next grant.
pub proof fn lemma_first_come_first_served(m: LockModel, a: u64, b: u64)
    requires
        wf(m),
        m.holder is None,
        m.waiters.len() == 0,
        a != b,
    ensures
        spec_grantee(spec_request(spec_request(m, a), b)) == Some(a),
        spec_grantee(
            spec_release(spec_grant(spec_request(spec_request(m, a), b))),
        ) == Some(b),
{
    let m2 = spec_request(spec_request(m, a), b);
    assert(m2.waiters[0] == a);
    assert(spec_release(spec_grant(m2)).waiters[0] == b);
}

} // verus!
