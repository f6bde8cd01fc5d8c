//! The identity binder: the (window handle → instance) association kept in
//! the per-window storage that the windowing subsystem provides.
//!
//! The storage starts zeroed.  On the pre-creation notification the binder
//! writes the creation payload into it, exactly once; every later
//! notification recovers the owning instance from it.  A stored value of 0
//! means "unbound": the dispatcher must never dereference it.

use vstd::prelude::*;
use crate::message::{Message, MSG_NCCREATE};

verus! {

/// The per-window extra storage of one window, as the windowing subsystem
/// keeps it.  `assoc` is the stored owning-instance pointer; 0 means that no
/// association has been stored yet.
#[derive(Clone, Copy, Debug, PartialEq, Eq, Structural)]
pub struct WindowSlot {
    /// The stored association: the owning instance's identity, or 0 if
    /// unbound.
    pub assoc: u64,
}

impl WindowSlot {
    /// A fresh slot, as the windowing subsystem hands it out: zeroed.
    pub fn new() -> (s: Self)
        ensures
            s.assoc == 0,
    {
        WindowSlot { assoc: 0 }
    }

    /// Stores the creation payload as this window's association.  Called
    /// exactly once per window, from the pre-creation notification.
    pub fn bind(&mut self, payload: u64)
        requires
            old(self).assoc == 0,
            payload != 0,
        ensures
            final(self).assoc == payload,
    {
        self.assoc = payload;
    }
}

/// The association stored after one notification is dispatched: the
/// pre-creation notification stores its payload, every other kind leaves the
/// association unchanged.
pub open spec fn assoc_after(assoc: u64, m: Message) -> u64 {
    if m.kind == MSG_NCCREATE {
        m.lparam
    } else {
        assoc
    }
}

/// The association stored after a sequence of notifications is dispatched,
/// front first.
pub open spec fn assoc_after_seq(assoc: u64, msgs: Seq<Message>) -> u64
    decreases msgs.len(),
{
    if msgs.len() == 0 {
        assoc
    } else {
        assoc_after_seq(assoc_after(assoc, msgs[0]), msgs.skip(1))
    }
}

/// Binding immutability: once the association of a window is set, no
/// sequence of notifications that the windowing subsystem delivers
/// afterwards — which never includes a second pre-creation notification —
/// changes its value: after every prefix the stored association is still the
/// original one.
pub proof fn lemma_association_immutable(assoc: u64, msgs: Seq<Message>, i: int)
    requires
        forall|j: int| 0 <= j < msgs.len() ==> msgs[j].kind != MSG_NCCREATE,
        0 <= i <= msgs.len(),
    ensures
        assoc_after_seq(assoc, msgs.take(i)) == assoc,
    decreases i,
{
    if i == 0 {
        assert(msgs.take(0) =~= Seq::<Message>::empty());
    } else {
        let prefix = msgs.take(i);
        assert(prefix.len() == i);
        assert(prefix[0] == msgs[0]);
        assert(assoc_after(assoc, prefix[0]) == assoc);
        assert(prefix.skip(1) =~= msgs.skip(1).take(i - 1));
        assert(forall|j: int|
            0 <= j < msgs.skip(1).len() ==> #[trigger] msgs.skip(1)[j].kind != MSG_NCCREATE);
        lemma_association_immutable(assoc, msgs.skip(1), i - 1);
    }
}

/// The pre-creation notification comes first and binds: for a delivered
/// history that begins with the pre-creation notification carrying a
/// well-formed payload, and never repeats it, the association lookup
/// succeeds — and yields that payload — after every later prefix of the
/// history, starting from the unbound state.
pub proof fn lemma_precreation_first_then_bound(h: Seq<Message>, i: int)
    requires
        h.len() >= 1,
        h[0].kind == MSG_NCCREATE,
        h[0].lparam != 0,
        forall|j: int| 1 <= j < h.len() ==> h[j].kind != MSG_NCCREATE,
        1 <= i <= h.len(),
    ensures
        assoc_after_seq(0, h.take(i)) == h[0].lparam,
        assoc_after_seq(0, h.take(i)) != 0,
    decreases i,
{
    let prefix = h.take(i);
    assert(prefix[0] == h[0]);
    assert(assoc_after(0, prefix[0]) == h[0].lparam);
    assert(prefix.skip(1) =~= h.skip(1).take(i - 1));
    assert(forall|j: int|
        0 <= j < h.skip(1).len() ==> #[trigger] h.skip(1)[j].kind != MSG_NCCREATE);
    lemma_association_immutable(h[0].lparam, h.skip(1), i - 1);
}

} // verus!
