//! The windowing subsystem as an explicit state value, the event-loop
//! semantics over it, and the process entry logic.
//!
//! One [`Os`] value gathers everything the shell observes of the windowing
//! subsystem: the class registry, the single window's per-window storage,
//! the thread's message queue, the log of paint-session steps performed,
//! and the answers the subsystem will give (the handle it assigns, whether
//! the client rectangle is obtainable, the default handler's result, and
//! the native code of the last error).  The surrounding binary performs the
//! real system calls; the verified logic here decides everything between
//! them.

use vstd::prelude::*;
use crate::binder::{assoc_after, WindowSlot};
use crate::config::{spec_class_name, spec_window_title, MAIN_WINDOW_HEIGHT, MAIN_WINDOW_WIDTH};
use crate::dispatch::{dispatch_paint, dispatch_quit};
use crate::error::OsError;
use crate::handler::PaintOp;
use crate::message::{Message, MSG_DESTROY, MSG_NCCREATE, MSG_QUIT};
use crate::queue::MessageQueue;
use crate::registry::{ClassDescriptor, ClassRegistry};
use crate::window::MainWindow;

verus! {

/// The creation-time parameters of the window the shell asked for.
pub struct WindowParams {
    /// The class the window was created from.
    pub class_name: String,
    /// The window title.
    pub title: String,
    /// Style bits.
    pub style: u32,
    /// Extended style bits.
    pub ex_style: u32,
    /// Requested horizontal position.
    pub x: i32,
    /// Requested vertical position.
    pub y: i32,
    /// Requested width, in pixels.
    pub width: i32,
    /// Requested height, in pixels.
    pub height: i32,
    /// The creation payload: the owning instance's identity.
    pub payload: u64,
}

/// The observable state of the windowing subsystem, for the single window
/// this shell manages.
pub struct Os {
    /// The process-wide registry of window classes.
    pub registry: ClassRegistry,
    /// The per-window extra storage of the window.
    pub slot: WindowSlot,
    /// The thread's message queue.
    pub queue: MessageQueue,
    /// Every paint-session step performed so far, in order.
    pub paint_log: Vec<PaintOp>,
    /// The parameters of the created window, once creation succeeded.
    pub created: Option<WindowParams>,
    /// The process-module handle of the running executable.
    pub module: u64,
    /// The handle the subsystem will assign to the next created window; 0
    /// means creation fails with a null handle.
    pub next_handle: u64,
    /// Whether the client-rectangle query succeeds.
    pub rect_available: bool,
    /// The result the default handler returns for a forwarded notification.
    pub default_result: i64,
    /// Whether the process-wide DPI-awareness opt-in is accepted.
    pub dpi_ok: bool,
    /// The native code the subsystem reports for a failing call.
    pub last_error: u32,
    /// Whether the window is currently shown.
    pub shown: bool,
    /// Whether window creation has ever been attempted.
    pub create_attempted: bool,
}

impl Os {
    /// The state of a fresh process: nothing registered, the window slot
    /// zeroed, the queue empty, nothing painted, nothing created or shown,
    /// with the subsystem's answers as given.
    pub fn boot(
        module: u64,
        next_handle: u64,
        dpi_ok: bool,
        rect_available: bool,
        default_result: i64,
        last_error: u32,
    ) -> (os: Os)
        ensures
            os.registry.classes@ == Seq::<ClassDescriptor>::empty(),
            os.slot.assoc == 0,
            os.queue.pending@ == Seq::<Message>::empty(),
            os.queue.quit is None,
            os.paint_log@ == Seq::<PaintOp>::empty(),
            os.created is None,
            os.module == module,
            os.next_handle == next_handle,
            os.rect_available == rect_available,
            os.default_result == default_result,
            os.dpi_ok == dpi_ok,
            os.last_error == last_error,
            !os.shown,
            !os.create_attempted,
    {
        Os {
            registry: ClassRegistry::new(),
            slot: WindowSlot::new(),
            queue: MessageQueue::new(),
            paint_log: Vec::new(),
            created: None,
            module,
            next_handle,
            rect_available,
            default_result,
            dpi_ok,
            last_error,
            shown: false,
            create_attempted: false,
        }
    }
}

/// What a whole run of the event loop yields, as a function of the loop's
/// starting state: the exit code observed (`None` when the queue drains
/// without a quit request, where the real loop would block), the
/// paint-session steps performed, and the final association, pending queue
/// and quit flag.
pub ghost struct LoopRun {
    /// The exit code the loop returns, if it returns.
    pub exit: Option<u64>,
    /// The paint-session steps performed, in order.
    pub paint: Seq<PaintOp>,
    /// The association stored when the loop stops.
    pub assoc: u64,
    /// The notifications still pending when the loop stops.
    pub pending: Seq<Message>,
    /// The quit flag when the loop stops.
    pub quit: Option<u64>,
}

/// The event-loop semantics: retrieve, stop on a quit, otherwise dispatch
/// and continue.  A pending quit request is observed before any queued
/// notification; a retrieved quit notification stops the loop immediately
/// without further dispatch; every other notification goes through the
/// dispatcher, which may update the association, perform paint steps and
/// post a quit request.
pub open spec fn loop_run(
    assoc: u64,
    pending: Seq<Message>,
    quit: Option<u64>,
    rect_available: bool,
) -> LoopRun
    decreases pending.len(),
{
    if quit is Some {
        LoopRun {
            exit: quit,
            paint: Seq::<PaintOp>::empty(),
            assoc: assoc,
            pending: pending,
            quit: quit,
        }
    } else if pending.len() == 0 {
        LoopRun {
            exit: None,
            paint: Seq::<PaintOp>::empty(),
            assoc: assoc,
            pending: pending,
            quit: quit,
        }
    } else if pending[0].kind == MSG_QUIT {
        LoopRun {
            exit: Some(pending[0].wparam),
            paint: Seq::<PaintOp>::empty(),
            assoc: assoc,
            pending: pending.skip(1),
            quit: quit,
        }
    } else {
        let m = pending[0];
        let rest = loop_run(
            assoc_after(assoc, m),
            pending.skip(1),
            dispatch_quit(assoc, m),
            rect_available,
        );
        LoopRun {
            exit: rest.exit,
            paint: dispatch_paint(assoc, m, rect_available) + rest.paint,
            assoc: rest.assoc,
            pending: rest.pending,
            quit: rest.quit,
        }
    }
}

/// Dispatching a destroy notification posts exactly one quit request
/// (carrying exit code 0), and the event loop stops on the very next
/// retrieval after that post — regardless of how many notifications are
/// still queued behind it, none of which is dispatched — returning the
/// posted exit code.
pub proof fn lemma_destroy_then_loop_stops(
    assoc: u64,
    m: Message,
    rest: Seq<Message>,
    rect_available: bool,
)
    requires
        assoc != 0,
        m.kind == MSG_DESTROY,
    ensures
        dispatch_quit(assoc, m) == Some(0u64),
        ({
            let r = loop_run(assoc, seq![m] + rest, None, rect_available);
            &&& r.exit == Some(0u64)
            &&& r.paint == Seq::<PaintOp>::empty()
            &&& r.assoc == assoc
            &&& r.pending == rest
            &&& r.quit == Some(0u64)
        }),
{
    let q = seq![m] + rest;
    assert(q.len() == 1 + rest.len());
    assert(q[0] == m);
    assert(q.skip(1) =~= rest);
    let after = loop_run(assoc_after(assoc, m), q.skip(1), dispatch_quit(assoc, m), rect_available);
    assert(after.exit == Some(0u64));
    assert(after.paint == Seq::<PaintOp>::empty());
    assert(after.assoc == assoc);
    let r = loop_run(assoc, q, None, rect_available);
    assert(r.paint =~= Seq::<PaintOp>::empty());
}

/// The process entry logic, past the point where the real entry has opted
/// the process into DPI awareness: constructs the one window instance,
/// builds it (register, create, show) and runs the event loop, with the
/// given identity as the instance's creation payload.
///
/// A rejected DPI opt-in, a duplicate class name, or a null handle from
/// creation each abort startup with the corresponding error, wrapping the
/// subsystem's error code; a registration failure in particular leaves
/// everything unchanged — window creation is never attempted.  On success
/// the result is the event loop's exit code (`None` where the loop would
/// still be blocked waiting for messages).
pub fn run(os: &mut Os, instance_id: u64) -> (r: Result<Option<u64>, OsError>)
    requires
        instance_id != 0,
        old(os).slot.assoc == 0,
        forall|i: int|
            0 <= i < old(os).queue.pending@.len() ==> old(os).queue.pending@[i].kind
                != MSG_NCCREATE,
    ensures
        (r matches Err(OsError::DpiAwarenessRejected(_))) <==> !old(os).dpi_ok,
        r matches Err(OsError::DpiAwarenessRejected(c))
            ==> c == old(os).last_error && *final(os) == *old(os),
        (r matches Err(OsError::RegistrationFailed(_)))
            <==> old(os).dpi_ok && old(os).registry.registered(spec_class_name()),
        r matches Err(OsError::RegistrationFailed(c))
            ==> c == old(os).last_error && *final(os) == *old(os),
        (r matches Err(OsError::CreationFailed(_)))
            <==> old(os).dpi_ok && !old(os).registry.registered(spec_class_name())
                && old(os).next_handle == 0,
        r matches Err(OsError::CreationFailed(c))
            ==> c == old(os).last_error && final(os).create_attempted
                && final(os).slot == old(os).slot
                && final(os).paint_log@ == old(os).paint_log@
                && final(os).queue.pending@ == old(os).queue.pending@
                && final(os).queue.quit == old(os).queue.quit,
        r is Ok <==> old(os).dpi_ok && !old(os).registry.registered(spec_class_name())
            && old(os).next_handle != 0,
        r matches Ok(exit) ==> ({
            let lr = loop_run(
                instance_id,
                old(os).queue.pending@,
                old(os).queue.quit,
                old(os).rect_available,
            );
            &&& exit == lr.exit
            &&& final(os).paint_log@ == old(os).paint_log@ + lr.paint
            &&& final(os).slot.assoc == lr.assoc
            &&& final(os).queue.pending@ == lr.pending
            &&& final(os).queue.quit == lr.quit
            &&& final(os).shown
            &&& final(os).create_attempted
            &&& final(os).registry.registered(spec_class_name())
            &&& final(os).created matches Some(p) && p.class_name@ == spec_class_name()
                && p.title@ == spec_window_title() && p.width == MAIN_WINDOW_WIDTH && p.height
                == MAIN_WINDOW_HEIGHT && p.payload == instance_id
        }),
{
    if !os.dpi_ok {
        // The DPI-awareness opt-in was rejected: fail the whole process.
        return Err(OsError::DpiAwarenessRejected(os.last_error));
    }
    let module = os.module;
    let mut window = MainWindow::new(module, instance_id);
    match window.build(os, true) {
        Err(e) => {
            return Err(e);
        },
        Ok(()) => {},
    }
    let exit = window.message_loop(os);
    Ok(exit)
}

/// Converts the outcome of a run into the process exit code: a completed
/// run exits with the event loop's code truncated to 8 bits, a failed one
/// with the wrapped native error code truncated to 8 bits.
pub fn process_exit_code(r: &Result<Option<u64>, OsError>) -> (c: u8)
    requires
        !(*r matches Ok(None)),
    ensures
        *r matches Ok(Some(code)) ==> c == code % 256,
        *r matches Err(e) ==> c == e.code() % 256,
{
    match r {
        Ok(Some(code)) => (*code % 256) as u8,
        Ok(None) => vstd::pervasive::unreached(),
        Err(e) => (e.code() % 256) as u8,
    }
}

} // verus!
