//! The dispatch policy: what the sole class callback decides for one
//! notification, given the stored association.
//!
//! The pre-creation notification is delegated to the identity binder: it is
//! first forwarded unmodified to the default handler of the windowing
//! subsystem (which sets up the non-client frame), then the creation payload
//! is stored as the association, and a truthy result is reported.  Every
//! other notification is offered to the owning instance's handler if an
//! association is stored; when the handler declines — or no association is
//! stored yet — the notification is forwarded unchanged to the default
//! handler and its result is returned verbatim.

use vstd::prelude::*;
use crate::handler::{handled_result, paint_ops_of, quit_of, PaintOp};
use crate::message::{Message, MSG_NCCREATE};

verus! {

/// What one invocation of the dispatcher decided and did.
#[derive(Debug)]
pub struct DispatchOutcome {
    /// The result reported back to the windowing subsystem.
    pub result: i64,
    /// The notification forwarded to the default handler of the windowing
    /// subsystem, if any — always the incoming notification itself,
    /// unchanged.
    pub forwarded: Option<Message>,
    /// The paint-session steps performed, in order.
    pub paint: Vec<PaintOp>,
    /// The exit code of the process-quit request posted, if one was.
    pub quit: Option<u64>,
}

/// The result the dispatcher reports for one notification: a truthy result
/// for the pre-creation notification, the handler's code where the handler
/// handles it, and the default handler's result verbatim otherwise.
pub open spec fn dispatch_result(
    assoc: u64,
    m: Message,
    rect_available: bool,
    default_result: i64,
) -> i64 {
    if m.kind == MSG_NCCREATE {
        1
    } else if assoc != 0 {
        match handled_result(m.kind, rect_available) {
            Some(code) => code,
            None => default_result,
        }
    } else {
        default_result
    }
}

/// The notification the dispatcher forwards to the default handler: the
/// pre-creation notification always (before binding), and any notification
/// the instance does not handle — including every notification that arrives
/// while no association is stored.
pub open spec fn dispatch_forwarded(assoc: u64, m: Message, rect_available: bool) -> Option<
    Message,
> {
    if m.kind == MSG_NCCREATE {
        Some(m)
    } else if assoc != 0 && handled_result(m.kind, rect_available) is Some {
        None
    } else {
        Some(m)
    }
}

/// The paint-session steps one dispatch performs: those of the instance
/// handler, reached only when an association is stored and the notification
/// is not the pre-creation one.
pub open spec fn dispatch_paint(assoc: u64, m: Message, rect_available: bool) -> Seq<PaintOp> {
    if m.kind != MSG_NCCREATE && assoc != 0 {
        paint_ops_of(m.kind, rect_available)
    } else {
        Seq::<PaintOp>::empty()
    }
}

/// The process-quit request one dispatch posts: that of the instance
/// handler, reached only when an association is stored and the notification
/// is not the pre-creation one.
pub open spec fn dispatch_quit(assoc: u64, m: Message) -> Option<u64> {
    if m.kind != MSG_NCCREATE && assoc != 0 {
        quit_of(m.kind)
    } else {
        None
    }
}

/// Unhandled notifications fall through verbatim: any notification the
/// instance handler does not explicitly handle is forwarded unchanged —
/// same handle, kind and parameters — to the default handler of the
/// windowing subsystem, and the default handler's result is returned
/// unchanged by the dispatcher, whether or not an association is stored.
pub proof fn lemma_unhandled_forwarded_verbatim(
    assoc: u64,
    m: Message,
    rect_available: bool,
    default_result: i64,
)
    requires
        m.kind != MSG_NCCREATE,
        handled_result(m.kind, rect_available) is None,
    ensures
        dispatch_forwarded(assoc, m, rect_available) == Some(m),
        dispatch_result(assoc, m, rect_available, default_result) == default_result,
        dispatch_paint(assoc, m, rect_available) == Seq::<PaintOp>::empty(),
        dispatch_quit(assoc, m) is None,
{
    assert(dispatch_paint(assoc, m, rect_available) =~= Seq::<PaintOp>::empty());
}

} // verus!
