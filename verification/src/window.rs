//! The window instance and its lifecycle: construction, registration and
//! creation of the native window, per-notification handling, the dispatch
//! callback, and the event loop.

use vstd::prelude::*;
use crate::binder::{assoc_after, WindowSlot};
use crate::config::{
    class_name, spec_class_name, spec_window_title, window_title, DRAW_CENTERED_SINGLE_LINE,
    MAIN_WINDOW_HEIGHT, MAIN_WINDOW_WIDTH, USE_DEFAULT_POSITION, WINDOW_EX_STYLES, WINDOW_STYLES,
};
use crate::dispatch::{
    dispatch_forwarded, dispatch_paint, dispatch_quit, dispatch_result, DispatchOutcome,
};
use crate::error::OsError;
use crate::handler::{handled_result, paint_ops_of, quit_of, HandlerOutcome, PaintOp};
use crate::message::{Message, MSG_DESTROY, MSG_NCCREATE, MSG_PAINT, MSG_QUIT};
use crate::os::{loop_run, Os, WindowParams};
use crate::queue::Retrieved;
use crate::registry::class_descriptor;

verus! {

/// The in-process object representing the one native window of this shell.
pub struct MainWindow {
    /// The process-module handle that owns the window class.
    pub instance: u64,
    /// The live window's handle; 0 until creation succeeds.
    pub handle: u64,
    /// This instance's identity, passed as the creation payload and stored
    /// as the association.  It stands for the instance's address, so it is
    /// never 0.
    pub id: u64,
}

impl MainWindow {
    /// Well-formedness: the instance identity is usable as a creation
    /// payload, i.e. not the null value.
    pub open spec fn wf(&self) -> bool {
        self.id != 0
    }

    /// A new instance for the given process module, with the window handle
    /// unset until creation succeeds.  `id` is the instance's identity,
    /// used as the creation payload.
    pub fn new(module: u64, id: u64) -> (w: Self)
        requires
            id != 0,
        ensures
            w.instance == module,
            w.handle == 0,
            w.id == id,
            w.wf(),
    {
        MainWindow { instance: module, handle: 0, id }
    }

    /// The menu of the main window: this template creates none and returns
    /// the null menu handle.
    pub fn create_main_menu() -> (menu: u64)
        ensures
            menu == 0,
    {
        0
    }

    /// Per-instance notification handling: paint and destroy are handled as
    /// the handler module specifies; every other kind — and a paint whose
    /// client rectangle is unobtainable — is declined with `None`, deferring
    /// to the default logic of the windowing subsystem.
    #[allow(unused_variables)]
    pub fn message_handle(
        &mut self,
        hwnd: u64,
        kind: u32,
        wparam: u64,
        lparam: u64,
        rect_available: bool,
    ) -> (out: HandlerOutcome)
        ensures
            *final(self) == *old(self),
            out.result == handled_result(kind, rect_available),
            out.paint@ == paint_ops_of(kind, rect_available),
            out.quit == quit_of(kind),
    {
        if kind == MSG_PAINT {
            if rect_available {
                let mut paint: Vec<PaintOp> = Vec::new();
                paint.push(PaintOp::Begin);
                paint.push(PaintOp::Draw(DRAW_CENTERED_SINGLE_LINE));
                paint.push(PaintOp::End);
                assert(paint@ =~= paint_ops_of(kind, rect_available));
                HandlerOutcome { result: Some(0), paint, quit: None }
            } else {
                // The client rectangle could not be obtained: abort early
                // and let the default logic handle the notification.
                let out = HandlerOutcome { result: None, paint: Vec::new(), quit: None };
                assert(out.paint@ =~= paint_ops_of(kind, rect_available));
                out
            }
        } else if kind == MSG_DESTROY {
            let out = HandlerOutcome { result: Some(0), paint: Vec::new(), quit: Some(0) };
            assert(out.paint@ =~= paint_ops_of(kind, rect_available));
            out
        } else {
            let out = HandlerOutcome { result: None, paint: Vec::new(), quit: None };
            assert(out.paint@ =~= paint_ops_of(kind, rect_available));
            out
        }
    }

    /// The dispatch callback: the single entry point the windowing
    /// subsystem invokes for every notification on this window.
    ///
    /// The pre-creation notification is forwarded to the default handler
    /// first (so the non-client frame is set up), then its payload is
    /// stored as the association, and a truthy result is reported so
    /// creation proceeds.  Any other notification is offered to the
    /// instance's handler when an association is stored; a declined
    /// notification — or one arriving with no association stored, which is
    /// tolerated defensively and never dereferenced — is forwarded
    /// unchanged to the default handler, whose result is returned verbatim.
    pub fn wnd_proc(
        &mut self,
        slot: &mut WindowSlot,
        m: Message,
        rect_available: bool,
        default_result: i64,
    ) -> (out: DispatchOutcome)
        requires
            m.kind == MSG_NCCREATE ==> old(slot).assoc == 0 && m.lparam != 0,
            old(slot).assoc == 0 || old(slot).assoc == old(self).id,
        ensures
            *final(self) == *old(self),
            final(slot).assoc == assoc_after(old(slot).assoc, m),
            out.result == dispatch_result(old(slot).assoc, m, rect_available, default_result),
            out.forwarded == dispatch_forwarded(old(slot).assoc, m, rect_available),
            out.paint@ == dispatch_paint(old(slot).assoc, m, rect_available),
            out.quit == dispatch_quit(old(slot).assoc, m),
    {
        if m.kind == MSG_NCCREATE {
            slot.bind(m.lparam);
            let out = DispatchOutcome {
                result: 1,
                forwarded: Some(m),
                paint: Vec::new(),
                quit: None,
            };
            assert(out.paint@ =~= dispatch_paint(old(slot).assoc, m, rect_available));
            out
        } else if slot.assoc != 0 {
            let handled = self.message_handle(m.hwnd, m.kind, m.wparam, m.lparam, rect_available);
            match handled.result {
                Some(code) => DispatchOutcome {
                    result: code,
                    forwarded: None,
                    paint: handled.paint,
                    quit: handled.quit,
                },
                None => DispatchOutcome {
                    result: default_result,
                    forwarded: Some(m),
                    paint: handled.paint,
                    quit: handled.quit,
                },
            }
        } else {
            let out = DispatchOutcome {
                result: default_result,
                forwarded: Some(m),
                paint: Vec::new(),
                quit: None,
            };
            assert(out.paint@ =~= dispatch_paint(old(slot).assoc, m, rect_available));
            out
        }
    }
}

/// Registers the main window class under `name` for `module`: builds the
/// class descriptor (redraw-on-resize in both axes, default application
/// icon and arrow cursor, non-transparent background, the dispatch
/// callback as entry point) and registers it.  Fails — leaving everything
/// unchanged — exactly when a class of the same name is already
/// registered, wrapping the subsystem's error code.
pub fn register_class(os: &mut Os, module: u64, name: String) -> (r: Result<(), OsError>)
    ensures
        r is Ok <==> !old(os).registry.registered(name@),
        r is Err ==> r == Err::<(), OsError>(OsError::RegistrationFailed(old(os).last_error))
            && *final(os) == *old(os),
        r is Ok ==> ({
            let classes = final(os).registry.classes@;
            &&& classes.len() == old(os).registry.classes@.len() + 1
            &&& classes == old(os).registry.classes@.push(classes.last())
            &&& classes.last().style == crate::config::CLASS_STYLES
            &&& classes.last().icon == crate::config::DEFAULT_ICON
            &&& classes.last().cursor == crate::config::ARROW_CURSOR
            &&& classes.last().small_icon == crate::config::DEFAULT_ICON
            &&& classes.last().background == crate::config::BACKGROUND_BRUSH
            &&& classes.last().module == module
            &&& classes.last().name@ == name@
            &&& classes.last().has_dispatcher
            &&& (*final(os) == (Os { registry: final(os).registry, ..*old(os) }))
        }),
        final(os).registry.registered(name@),
{
    let descriptor = class_descriptor(module, name);
    if os.registry.register(descriptor) {
        Ok(())
    } else {
        Err(OsError::RegistrationFailed(os.last_error))
    }
}

/// Asks the windowing subsystem to create a window of the given class with
/// the given title, styles, placement and size, passing the instance's
/// identity as the creation payload.
///
/// Creation fails — wrapping the subsystem's error code — exactly when the
/// class is not registered or the subsystem returns the null handle.  On
/// success the pre-creation notification is delivered synchronously,
/// before this returns: the association is therefore already stored, and
/// the returned handle is recorded in the instance.
pub fn create_window(
    os: &mut Os,
    win: &mut MainWindow,
    class: String,
    title: String,
    style: u32,
    ex_style: u32,
    x: i32,
    y: i32,
    width: i32,
    height: i32,
) -> (r: Result<u64, OsError>)
    requires
        old(win).wf(),
        old(os).slot.assoc == 0,
    ensures
        final(os).create_attempted,
        r is Ok <==> old(os).registry.registered(class@) && old(os).next_handle != 0,
        r is Err ==> ({
            &&& r == Err::<u64, OsError>(OsError::CreationFailed(old(os).last_error))
            &&& *final(win) == *old(win)
            &&& (*final(os) == (Os { create_attempted: true, ..*old(os) }))
        }),
        r matches Ok(h) ==> ({
            &&& h == old(os).next_handle
            &&& h != 0
            &&& *final(win) == (MainWindow { handle: h, ..*old(win) })
            &&& final(os).slot.assoc == old(win).id
            &&& final(os).created == (Some(
                WindowParams {
                    class_name: class,
                    title: title,
                    style: style,
                    ex_style: ex_style,
                    x: x,
                    y: y,
                    width: width,
                    height: height,
                    payload: old(win).id,
                },
            ))
            &&& (*final(os) == (Os {
                slot: final(os).slot,
                created: final(os).created,
                create_attempted: true,
                ..*old(os)
            }))
        }),
{
    os.create_attempted = true;
    if os.next_handle == 0 {
        return Err(OsError::CreationFailed(os.last_error));
    }
    if !os.registry.is_registered(&class) {
        return Err(OsError::CreationFailed(os.last_error));
    }
    let handle = os.next_handle;
    // The pre-creation notification arrives synchronously, during creation:
    // route it through the dispatch callback, which binds the association.
    let m = Message { hwnd: handle, kind: MSG_NCCREATE, wparam: 0, lparam: win.id };
    let rect_available = os.rect_available;
    let default_result = os.default_result;
    let _precreation = win.wnd_proc(&mut os.slot, m, rect_available, default_result);
    win.handle = handle;
    os.created = Some(
        WindowParams {
            class_name: class,
            title,
            style,
            ex_style,
            x,
            y,
            width,
            height,
            payload: win.id,
        },
    );
    Ok(handle)
}

/// Sets the main window's visibility and refreshes it.
pub fn show_window(os: &mut Os, visible: bool)
    ensures
        *final(os) == (Os { shown: visible, ..*old(os) }),
{
    os.shown = visible;
}

impl MainWindow {
    /// Builds the window: registers the window class under the fixed class
    /// name, creates the window with the fixed title, styles and 800×600
    /// size (default horizontal placement), and sets its visibility.
    ///
    /// Fails with `RegistrationFailed` — leaving everything unchanged —
    /// exactly when the class name is already registered; fails with
    /// `CreationFailed` — after the class was registered — exactly when the
    /// subsystem assigns the null handle.  On success the association is
    /// bound to this instance and the handle is recorded, before any queued
    /// notification can be dispatched.
    pub fn build(&mut self, os: &mut Os, show: bool) -> (r: Result<(), OsError>)
        requires
            old(self).wf(),
            old(os).slot.assoc == 0,
        ensures
            r is Ok <==> !old(os).registry.registered(spec_class_name()) && old(os).next_handle
                != 0,
            (r matches Err(OsError::RegistrationFailed(_)))
                <==> old(os).registry.registered(spec_class_name()),
            (r matches Err(OsError::CreationFailed(_)))
                <==> !old(os).registry.registered(spec_class_name()) && old(os).next_handle == 0,
            r matches Err(OsError::RegistrationFailed(c)) ==> c == old(os).last_error,
            r matches Err(OsError::RegistrationFailed(_)) ==> *final(os) == *old(os)
                && *final(self) == *old(self),
            r matches Err(OsError::CreationFailed(c)) ==> c == old(os).last_error
                && !old(os).registry.registered(spec_class_name()) && old(os).next_handle == 0
                && *final(self) == *old(self) && final(os).registry.registered(spec_class_name())
                && (*final(os) == (Os {
                    registry: final(os).registry,
                    create_attempted: true,
                    ..*old(os)
                })),
            r is Ok ==> ({
                &&& *final(self) == (MainWindow { handle: old(os).next_handle, ..*old(self) })
                &&& final(os).slot.assoc == old(self).id
                &&& final(os).shown == show
                &&& final(os).create_attempted
                &&& final(os).registry.registered(spec_class_name())
                &&& final(os).created matches Some(p) && p.class_name@ == spec_class_name()
                    && p.title@ == spec_window_title() && p.style == WINDOW_STYLES && p.ex_style
                    == WINDOW_EX_STYLES && p.x == USE_DEFAULT_POSITION && p.y == 0 && p.width
                    == MAIN_WINDOW_WIDTH && p.height == MAIN_WINDOW_HEIGHT && p.payload == old(
                    self,
                ).id
                &&& final(os).queue.pending@ == old(os).queue.pending@
                &&& final(os).queue.quit == old(os).queue.quit
                &&& final(os).paint_log@ == old(os).paint_log@
                &&& final(os).rect_available == old(os).rect_available
                &&& final(os).default_result == old(os).default_result
                &&& final(os).next_handle == old(os).next_handle
                &&& final(os).dpi_ok == old(os).dpi_ok
                &&& final(os).last_error == old(os).last_error
                &&& final(os).module == old(os).module
            }),
    {
        match register_class(os, self.instance, class_name()) {
            Err(e) => {
                return Err(e);
            },
            Ok(()) => {},
        }
        let _menu = Self::create_main_menu();
        match create_window(
            os,
            self,
            class_name(),
            window_title(),
            WINDOW_STYLES,
            WINDOW_EX_STYLES,
            USE_DEFAULT_POSITION,
            0,
            MAIN_WINDOW_WIDTH,
            MAIN_WINDOW_HEIGHT,
        ) {
            Err(e) => {
                return Err(e);
            },
            Ok(_handle) => {},
        }
        show_window(os, show);
        Ok(())
    }

    /// The event loop: repeatedly retrieves the next message, stopping with
    /// the exit code as soon as a quit is observed — a pending quit request
    /// is seen before any queued notification — and routing every other
    /// notification through the dispatch callback, appending its paint
    /// steps to the log and posting any quit request it produced.
    ///
    /// Returns `None` where the queue drained without a quit being
    /// observed: the real retrieval would block there.  The windowing
    /// subsystem never queues the pre-creation notification — it is sent
    /// synchronously during creation — so the pending queue holds none.
    #[verifier::loop_isolation(false)]
    pub fn message_loop(&mut self, os: &mut Os) -> (exit: Option<u64>)
        requires
            old(os).slot.assoc == 0 || old(os).slot.assoc == old(self).id,
            forall|i: int|
                0 <= i < old(os).queue.pending@.len() ==> old(os).queue.pending@[i].kind
                    != MSG_NCCREATE,
        ensures
            *final(self) == *old(self),
            ({
                let r = loop_run(
                    old(os).slot.assoc,
                    old(os).queue.pending@,
                    old(os).queue.quit,
                    old(os).rect_available,
                );
                &&& exit == r.exit
                &&& final(os).paint_log@ == old(os).paint_log@ + r.paint
                &&& final(os).slot.assoc == r.assoc
                &&& final(os).queue.pending@ == r.pending
                &&& final(os).queue.quit == r.quit
                &&& (*final(os) == (Os {
                    slot: final(os).slot,
                    queue: final(os).queue,
                    paint_log: final(os).paint_log,
                    ..*old(os)
                }))
            }),
    {
        let ghost self0 = *self;
        let ghost os0 = *os;
        let ghost orig = loop_run(
            os.slot.assoc,
            os.queue.pending@,
            os.queue.quit,
            os.rect_available,
        );
        let ghost mut done: Seq<PaintOp> = Seq::<PaintOp>::empty();
        proof {
            assert(done + orig.paint =~= orig.paint);
            assert(os.paint_log@ =~= os0.paint_log@ + done);
        }
        loop
            invariant
                *self == self0,
                os.slot.assoc == 0 || os.slot.assoc == self0.id,
                forall|i: int|
                    0 <= i < os.queue.pending@.len() ==> os.queue.pending@[i].kind != MSG_NCCREATE,
                os.paint_log@ == os0.paint_log@ + done,
                (*os == (Os {
                    slot: os.slot,
                    queue: os.queue,
                    paint_log: os.paint_log,
                    ..os0
                })),
                ({
                    let cur = loop_run(
                        os.slot.assoc,
                        os.queue.pending@,
                        os.queue.quit,
                        os0.rect_available,
                    );
                    &&& orig.exit == cur.exit
                    &&& orig.paint == done + cur.paint
                    &&& orig.assoc == cur.assoc
                    &&& orig.pending == cur.pending
                    &&& orig.quit == cur.quit
                }),
            decreases os.queue.pending@.len(),
        {
            let ghost a0 = os.slot.assoc;
            let ghost p0 = os.queue.pending@;
            let ghost q0 = os.queue.quit;
            let ghost cur0 = loop_run(a0, p0, q0, os0.rect_available);
            if os.queue.quit.is_none() && os.queue.pending.len() == 0 {
                // Nothing is pending and no quit was requested: the real
                // retrieval blocks here.
                proof {
                    assert(cur0.exit is None && cur0.paint == Seq::<PaintOp>::empty());
                    assert(orig.paint =~= done);
                    assert(os.paint_log@ =~= os0.paint_log@ + orig.paint);
                }
                return None;
            }
            let retrieved = os.queue.get_message();
            match retrieved {
                Retrieved::Quit(code) => {
                    proof {
                        assert(cur0.exit == Some(code) && cur0.paint == Seq::<PaintOp>::empty());
                        assert(orig.paint =~= done);
                        assert(os.paint_log@ =~= os0.paint_log@ + orig.paint);
                    }
                    return Some(code);
                },
                Retrieved::Deliver(m) => {
                    if m.kind == MSG_QUIT {
                        // A quit notification stops the loop immediately,
                        // without further dispatch.
                        proof {
                            assert(cur0.exit == Some(m.wparam) && cur0.paint == Seq::<
                                PaintOp,
                            >::empty());
                            assert(orig.paint =~= done);
                            assert(os.paint_log@ =~= os0.paint_log@ + orig.paint);
                        }
                        return Some(m.wparam);
                    }
                    // Translation of input-device messages happens at the
                    // subsystem edge; the dispatch decision is here.
                    let rect_available = os.rect_available;
                    let default_result = os.default_result;
                    let mut out = self.wnd_proc(&mut os.slot, m, rect_available, default_result);
                    os.paint_log.append(&mut out.paint);
                    match out.quit {
                        Some(code) => {
                            os.queue.post_quit(code);
                        },
                        None => {},
                    }
                    proof {
                        let ra = os0.rect_available;
                        let dp = dispatch_paint(a0, m, ra);
                        let rest = loop_run(
                            assoc_after(a0, m),
                            p0.skip(1),
                            dispatch_quit(a0, m),
                            ra,
                        );
                        assert(p0.len() > 0 && p0[0] == m && q0 is None);
                        assert(cur0.exit == rest.exit && cur0.paint == dp + rest.paint
                            && cur0.assoc == rest.assoc && cur0.pending == rest.pending
                            && cur0.quit == rest.quit);
                        assert(done + (dp + rest.paint) =~= (done + dp) + rest.paint);
                        done = done + dp;
                        assert(os.paint_log@ =~= os0.paint_log@ + done);
                    }
                },
            }
        }
    }
}

} // verus!
