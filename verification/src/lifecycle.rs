use vstd::prelude::*;

verus! {

/// The lifecycle of one raw connection as the pool drives it: established
/// into the idle set, checked out and returned, validated before reuse, and
/// finally destroyed — on a failed validation or at pool shutdown.
#[derive(Clone, Copy, Debug, PartialEq, Eq, Structural)]
pub enum ConnState {
    /// Just established by a successful create.
    Created,
    /// In the pool, unused.
    Idle,
    /// Checked out, in active use by a consumer.
    Leased,
    /// The recycle probe is running against it.
    Validating,
    /// Destroyed, or mandated for destruction by a failed validation.
    Dead,
}

/// The transitions the pool may drive. A fresh connection enters the idle
/// set; idle connections are leased and returned; a returned connection is
/// validated before reuse and either idles again or is destroyed; the pool
/// may also destroy idle connections outright at shutdown. Nothing leaves
/// `Dead`.
pub open spec fn lifecycle_allows(from: ConnState, to: ConnState) -> bool {
    match (from, to) {
        (ConnState::Created, ConnState::Idle) => true,
        (ConnState::Idle, ConnState::Leased) => true,
        (ConnState::Leased, ConnState::Idle) => true,
        (ConnState::Leased, ConnState::Validating) => true,
        (ConnState::Validating, ConnState::Idle) => true,
        (ConnState::Validating, ConnState::Dead) => true,
        (ConnState::Idle, ConnState::Dead) => true,
        _ => false,
    }
}

/// A run of lifecycle states in which every step is one the pool may drive.
pub open spec fn valid_trace(t: Seq<ConnState>) -> bool {
    forall|i: int| 0 <= i < t.len() - 1 ==> lifecycle_allows(t[i], #[trigger] t[i + 1])
}

/// Law: `Dead` is terminal — no transition leaves it.
pub proof fn lemma_dead_has_no_successor(to: ConnState)
    ensures
        !lifecycle_allows(ConnState::Dead, to),
{
}

/// Law: a destroyed connection is never handed out again. In any run the
/// pool may drive, everything after the first `Dead` state is `Dead`; in
/// particular the connection is never `Leased` — handed to a consumer as
/// valid — again.
pub proof fn lemma_dead_stays_dead(t: Seq<ConnState>, i: int, j: int)
    requires
        valid_trace(t),
        0 <= i <= j < t.len(),
        t[i] == ConnState::Dead,
    ensures
        t[j] == ConnState::Dead,
        j > i ==> t[j] != ConnState::Leased,
    decreases j - i,
{
    if j > i {
        lemma_dead_stays_dead(t, i, j - 1);
        assert(lifecycle_allows(t[j - 1], t[(j - 1) + 1]));
    }
}

} // verus!
