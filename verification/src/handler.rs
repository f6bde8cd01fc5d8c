//! Per-instance notification handling: what the instance does for each
//! notification kind, and the paint-session discipline.
//!
//! The handler reacts to exactly two kinds.  On paint, when the client
//! rectangle is obtainable, it performs one scoped paint session: begin,
//! draw the fixed sample string centered as a single line, end.  On destroy
//! it posts one process-quit request.  Every other kind — and a paint whose
//! client rectangle cannot be obtained — is declined, deferring to the
//! default behavior of the windowing subsystem.

use vstd::prelude::*;
use crate::config::DRAW_CENTERED_SINGLE_LINE;
use crate::message::{MSG_DESTROY, MSG_PAINT};

verus! {

/// One step of a paint session, in the order performed.
#[derive(Clone, Copy, Debug, PartialEq, Eq, Structural)]
pub enum PaintOp {
    /// Begin the scoped paint session: the windowing subsystem allocates a
    /// drawing context tied to this session.
    Begin,
    /// Draw the fixed sample string with the given text format bits, in the
    /// window's default font.
    Draw(u32),
    /// End the paint session, releasing the drawing context.
    End,
}

/// What one handler invocation decided and did.
#[derive(Debug)]
pub struct HandlerOutcome {
    /// The handler's result: `Some(code)` when it handled the notification,
    /// `None` to let the default logic of the windowing subsystem handle it.
    pub result: Option<i64>,
    /// The paint-session steps performed, in order.
    pub paint: Vec<PaintOp>,
    /// The exit code of the process-quit request posted, if one was.
    pub quit: Option<u64>,
}

/// The handler's result for a notification kind: paint is handled with
/// result 0 exactly when the client rectangle is obtainable, destroy is
/// handled with result 0, and everything else is declined.
pub open spec fn handled_result(kind: u32, rect_available: bool) -> Option<i64> {
    if kind == MSG_PAINT {
        if rect_available {
            Some(0i64)
        } else {
            None
        }
    } else if kind == MSG_DESTROY {
        Some(0i64)
    } else {
        None
    }
}

/// The paint-session steps the handler performs for a notification kind:
/// one matched begin/draw/end session for a paint whose client rectangle is
/// obtainable, and nothing otherwise.
pub open spec fn paint_ops_of(kind: u32, rect_available: bool) -> Seq<PaintOp> {
    if kind == MSG_PAINT && rect_available {
        seq![PaintOp::Begin, PaintOp::Draw(DRAW_CENTERED_SINGLE_LINE), PaintOp::End]
    } else {
        Seq::<PaintOp>::empty()
    }
}

/// The process-quit request the handler posts for a notification kind:
/// exactly one, with exit code 0, for destroy, and none otherwise.
pub open spec fn quit_of(kind: u32) -> Option<u64> {
    if kind == MSG_DESTROY {
        Some(0u64)
    } else {
        None
    }
}

/// How many times a sequence of paint steps begins a session.
pub open spec fn begin_count(ops: Seq<PaintOp>) -> nat
    decreases ops.len(),
{
    if ops.len() == 0 {
        0
    } else {
        (if ops[0] is Begin {
            1nat
        } else {
            0nat
        }) + begin_count(ops.skip(1))
    }
}

/// How many times a sequence of paint steps ends a session.
pub open spec fn end_count(ops: Seq<PaintOp>) -> nat
    decreases ops.len(),
{
    if ops.len() == 0 {
        0
    } else {
        (if ops[0] is End {
            1nat
        } else {
            0nat
        }) + end_count(ops.skip(1))
    }
}

/// The paint session is always matched: for every notification kind and
/// either outcome of the client-rectangle query, the handler performs as
/// many session begins as session ends — never a begin without an end, never
/// an end without a begin.  When the kind is paint and the rectangle is
/// obtainable, exactly one session is performed: begin, then the centered
/// single-line draw, then end; in every other case no session step is
/// performed at all.
pub proof fn lemma_paint_session_matched(kind: u32, rect_available: bool)
    ensures
        begin_count(paint_ops_of(kind, rect_available)) == end_count(
            paint_ops_of(kind, rect_available),
        ),
        kind == MSG_PAINT && rect_available ==> {
            &&& paint_ops_of(kind, rect_available) =~= seq![
                PaintOp::Begin,
                PaintOp::Draw(DRAW_CENTERED_SINGLE_LINE),
                PaintOp::End,
            ]
            &&& begin_count(paint_ops_of(kind, rect_available)) == 1
            &&& paint_ops_of(kind, rect_available)[0] is Begin
            &&& paint_ops_of(kind, rect_available).last() is End
        },
        !(kind == MSG_PAINT && rect_available) ==> paint_ops_of(kind, rect_available)
            =~= Seq::<PaintOp>::empty(),
{
    let ops = paint_ops_of(kind, rect_available);
    if kind == MSG_PAINT && rect_available {
        let s0 = seq![PaintOp::Begin, PaintOp::Draw(DRAW_CENTERED_SINGLE_LINE), PaintOp::End];
        let s1 = seq![PaintOp::Draw(DRAW_CENTERED_SINGLE_LINE), PaintOp::End];
        let s2 = seq![PaintOp::End];
        let s3 = Seq::<PaintOp>::empty();
        assert(s0.skip(1) =~= s1);
        assert(s1.skip(1) =~= s2);
        assert(s2.skip(1) =~= s3);
        assert(begin_count(s3) == 0);
        assert(end_count(s3) == 0);
        assert(begin_count(s2) == 0);
        assert(end_count(s2) == 1);
        assert(begin_count(s1) == 0);
        assert(end_count(s1) == 1);
        assert(begin_count(s0) == 1);
        assert(end_count(s0) == 1);
    } else {
        assert(begin_count(ops) == 0);
        assert(end_count(ops) == 0);
    }
}

} // verus!
