//! Notifications delivered by the windowing subsystem: a kind tag, two
//! generic parameters, and (for queued messages) the target window handle.

use vstd::prelude::*;

verus! {

/// The pre-creation notification, delivered synchronously during window
/// creation, before creation returns.  Its second parameter carries the
/// creation payload, from which the identity binder stores the association.
pub const MSG_NCCREATE: u32 = 0x0081;

/// The paint notification: the window should redraw its client area.
pub const MSG_PAINT: u32 = 0x000F;

/// The destroy notification: the window is being torn down.
pub const MSG_DESTROY: u32 = 0x0002;

/// The quit notification: the event loop stops immediately, returning the
/// notification's first parameter as the exit code.
pub const MSG_QUIT: u32 = 0x0012;

/// One notification delivered by the windowing subsystem.  Borrowed for the
/// duration of one dispatch call; not owned by this system.
#[derive(Clone, Copy, Debug, PartialEq, Eq, Structural)]
pub struct Message {
    /// The target window handle (0 when not addressed to a window).
    pub hwnd: u64,
    /// The kind tag of the notification.
    pub kind: u32,
    /// First generic parameter.
    pub wparam: u64,
    /// Second generic parameter.  For the pre-creation notification this
    /// carries the creation payload.
    pub lparam: u64,
}

} // verus!
