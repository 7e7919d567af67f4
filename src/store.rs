//! The one slot, shared by every connection, that holds the latest decoded
//! snapshot.
use vstd::prelude::*;
use vstd::rwlock::RwLock;
use crate::protocol::BasketballProtocol;

verus! {

/// What the slot may hold: nothing yet, or a snapshot that `admitted` lets in.
pub open spec fn slot_pred(admitted: spec_fn(BasketballProtocol) -> bool) -> spec_fn(
    Option<BasketballProtocol>,
) -> bool {
    |o: Option<BasketballProtocol>|
        match o {
            Some(s) => admitted(s),
            None => true,
        }
}

/// A slot for the latest snapshot. Reads and writes exclude each other, so
/// no reader sees a snapshot half written, and the last write to finish wins.
pub struct SnapshotStore {
    slot: RwLock<Option<BasketballProtocol>, spec_fn(Option<BasketballProtocol>) -> bool>,
    admitted: Ghost<spec_fn(BasketballProtocol) -> bool>,
}

impl SnapshotStore {
    #[verifier::type_invariant]
    spec fn inv(self) -> bool {
        self.slot.pred() == slot_pred(self.admitted@)
    }

    /// Whether writers may put `s` into this slot.
    pub closed spec fn admits(&self, s: BasketballProtocol) -> bool {
        (self.admitted@)(s)
    }

    /// An empty slot that takes any well-formed snapshot.
    pub fn new() -> (r: Self)
        ensures
            forall|s: BasketballProtocol| #[trigger] r.admits(s) == s.wf(),
    {
        Self::with_admitted(Ghost(|s: BasketballProtocol| s.wf()))
    }

    /// An empty slot that takes exactly the snapshots that `admitted` holds of.
    pub fn with_admitted(Ghost(admitted): Ghost<spec_fn(BasketballProtocol) -> bool>) -> (r: Self)
        ensures
            forall|s: BasketballProtocol| #[trigger] r.admits(s) == admitted(s),
    {
        let slot = RwLock::new(None, Ghost(slot_pred(admitted)));
        SnapshotStore { slot, admitted: Ghost(admitted) }
    }

    /// Replaces what the slot holds with `s`.
    pub fn write(&self, s: BasketballProtocol)
        requires
            self.admits(s),
    {
        proof {
            use_type_invariant(self);
        }
        let (_previous, handle) = self.slot.acquire_write();
        handle.release_write(Some(s));
    }

    /// What the slot holds now: nothing before the first write, and after
    /// that a whole snapshot from one of the writes. Other connections may
    /// write at any moment, so which one is not stated.
    pub fn read(&self) -> (r: Option<BasketballProtocol>)
        ensures
            r matches Some(s) ==> self.admits(s),
    {
        proof {
            use_type_invariant(self);
        }
        let handle = self.slot.acquire_read();
        let current = *handle.borrow();
        handle.release_read();
        current
    }
}

} // verus!
