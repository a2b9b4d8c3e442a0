//! A ghost model of the OS advisory-lock primitive for one file: which
//! handle holds which lock, which requests the primitive grants, and what
//! a granted request does to that state. The library does not arbitrate
//! locks itself — the OS does — but this model states the shared/exclusive
//! semantics the library relies on, and the laws below are proved of it.

use vstd::prelude::*;

use crate::op::LockMode;

verus! {

/// The OS-level lock state of one file: for each handle (named by an
/// arbitrary identifier) the mode it holds. A handle that holds nothing
/// is absent from the map; `Unlock` is a request, never a held state.
pub ghost struct LockTable {
    /// The mode each holding handle holds.
    pub held: Map<int, LockMode>,
}

impl LockTable {
    /// Well-formed lock state: nobody "holds" `Unlock`, and an exclusive
    /// holder is the only holder.
    pub open spec fn wf(self) -> bool {
        &&& forall|h: int| self.held.dom().contains(h) ==> self.held[h] != LockMode::Unlock
        &&& forall|a: int, b: int|
            self.held.dom().contains(a) && self.held[a] == LockMode::Exclusive
                && self.held.dom().contains(b) ==> a == b
    }

    /// The state of a freshly opened file: no handle holds a lock.
    pub open spec fn empty() -> LockTable {
        LockTable { held: Map::empty() }
    }

    /// Whether the primitive grants `mode` to handle `h` right away.
    /// Unlocking is always granted; a shared lock is granted unless some
    /// other handle holds an exclusive one; an exclusive lock is granted
    /// only when no other handle holds anything. The requesting handle's
    /// own holding never stands in its way: the primitive converts it.
    pub open spec fn grants(self, h: int, mode: LockMode) -> bool {
        match mode {
            LockMode::Unlock => true,
            LockMode::Shared => forall|k: int|
                self.held.dom().contains(k) && k != h ==> self.held[k] != LockMode::Exclusive,
            LockMode::Exclusive => forall|k: int| self.held.dom().contains(k) ==> k == h,
        }
    }

    /// The state after the primitive has granted `mode` to handle `h`.
    pub open spec fn apply(self, h: int, mode: LockMode) -> LockTable {
        match mode {
            LockMode::Unlock => LockTable { held: self.held.remove(h) },
            _ => LockTable { held: self.held.insert(h, mode) },
        }
    }

    /// Whether handle `h` holds `mode` in this state.
    pub open spec fn holds(self, h: int, mode: LockMode) -> bool {
        self.held.dom().contains(h) && self.held[h] == mode
    }
}

/// Granting a request keeps the lock state well-formed: this is the
/// invariant of the model, preserved by every step the primitive takes.
pub proof fn lemma_grant_preserves_wf(t: LockTable, h: int, mode: LockMode)
    requires
        t.wf(),
        t.grants(h, mode),
    ensures
        t.apply(h, mode).wf(),
{
}

/// Acquiring an exclusive lock on a freshly opened file and then releasing
/// it succeeds both times, and leaves the file as it began: nobody holds
/// a lock.
pub proof fn lemma_exclusive_round_trip(h: int)
    ensures
        LockTable::empty().grants(h, LockMode::Exclusive),
        LockTable::empty().apply(h, LockMode::Exclusive).grants(h, LockMode::Unlock),
        LockTable::empty().apply(h, LockMode::Exclusive).apply(h, LockMode::Unlock)
            =~= LockTable::empty(),
{
    assert(LockTable::empty().apply(h, LockMode::Exclusive).apply(h, LockMode::Unlock).held
        =~= Map::<int, LockMode>::empty());
}

/// Unlocking is granted in every state — on a handle that holds nothing
/// it is a no-op, not an error — and such a no-op leaves every other
/// handle's holding exactly as it was (it changes nothing at all).
pub proof fn lemma_unlock_idempotent(t: LockTable, h: int)
    requires
        t.wf(),
    ensures
        t.grants(h, LockMode::Unlock),
        !t.held.dom().contains(h) ==> t.apply(h, LockMode::Unlock) =~= t,
{
    if !t.held.dom().contains(h) {
        assert(t.held.remove(h) =~= t.held);
    }
}

/// Shared locks are compatible: when no handle holds an exclusive lock,
/// a shared request by any handle is granted, and after one handle takes
/// a shared lock, a shared request by a second handle is still granted —
/// two independent handles can both hold a shared lock at once.
pub proof fn lemma_shared_compatible(t: LockTable, h1: int, h2: int)
    requires
        t.wf(),
        h1 != h2,
        forall|k: int| t.held.dom().contains(k) ==> t.held[k] != LockMode::Exclusive,
    ensures
        t.grants(h1, LockMode::Shared),
        t.apply(h1, LockMode::Shared).grants(h2, LockMode::Shared),
        t.apply(h1, LockMode::Shared).apply(h2, LockMode::Shared).holds(h1, LockMode::Shared),
        t.apply(h1, LockMode::Shared).apply(h2, LockMode::Shared).holds(h2, LockMode::Shared),
{
}

/// An exclusive lock excludes everyone else: while handle `a` holds one,
/// no request by another handle `b` — shared or exclusive — is granted;
/// and once `a` releases it, a pending request by `b` is granted, provided
/// no third handle still holds a lock.
pub proof fn lemma_exclusive_excludes(t: LockTable, a: int, b: int, mode: LockMode)
    requires
        t.wf(),
        t.holds(a, LockMode::Exclusive),
        a != b,
        mode == LockMode::Shared || mode == LockMode::Exclusive,
    ensures
        !t.grants(b, mode),
        (forall|k: int| t.held.dom().contains(k) ==> k == a) ==> t.apply(
            a,
            LockMode::Unlock,
        ).grants(b, mode),
{
}

} // verus!
