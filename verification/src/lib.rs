//! A minimal native-window shell, modelled for verification.
//!
//! The shell creates a single top-level window, registers its class with the
//! windowing subsystem, and runs an event-dispatch loop that routes
//! input/paint/lifecycle notifications to per-instance handler logic.  The
//! core of the design is the window-identity binding and message-dispatch
//! protocol: a stateless, OS-owned window handle is associated with one
//! in-process instance by intercepting the pre-creation notification, and
//! every later notification is routed back to that instance through the
//! stored association.
//!
//! The windowing subsystem itself is represented by an explicit state value
//! ([`os::Os`]); the surrounding binary performs the real system calls and
//! feeds their outcomes to the verified decision logic here.

pub mod binder;
pub mod config;
pub mod dispatch;
pub mod error;
pub mod handler;
pub mod message;
pub mod os;
pub mod queue;
pub mod registry;
pub mod window;
