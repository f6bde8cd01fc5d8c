//! Error kinds reported by the windowing subsystem during setup and painting.
//! Each wraps the underlying native error code.

use vstd::prelude::*;

verus! {

/// A failure reported by the windowing subsystem, with its native error code.
///
/// Setup-phase failures (registration, creation, the DPI-awareness opt-in)
/// are unrecoverable and abort process startup; failure to obtain the client
/// rectangle is recovered locally by declining to handle the paint
/// notification.
#[derive(Clone, Copy, Debug, PartialEq, Eq, Structural)]
pub enum OsError {
    /// The window class could not be registered (for example, a duplicate
    /// class name or an invalid descriptor).
    RegistrationFailed(u32),
    /// The windowing subsystem returned a null handle from window creation.
    CreationFailed(u32),
    /// The client rectangle of the window could not be obtained.
    ClientRectUnavailable(u32),
    /// The process-wide DPI-awareness opt-in was rejected.
    DpiAwarenessRejected(u32),
}

impl OsError {
    /// The native error code wrapped by this error.
    pub open spec fn spec_code(&self) -> u32 {
        match *self {
            OsError::RegistrationFailed(c) => c,
            OsError::CreationFailed(c) => c,
            OsError::ClientRectUnavailable(c) => c,
            OsError::DpiAwarenessRejected(c) => c,
        }
    }

    /// Returns the native error code wrapped by this error.
    #[verifier::when_used_as_spec(spec_code)]
    pub fn code(&self) -> (c: u32)
        ensures
            c == self.spec_code(),
    {
        match *self {
            OsError::RegistrationFailed(c) => c,
            OsError::CreationFailed(c) => c,
            OsError::ClientRectUnavailable(c) => c,
            OsError::DpiAwarenessRejected(c) => c,
        }
    }

    /// A short description of the error kind, for reporting at the process
    /// edge.
    pub fn describe(&self) -> (s: String)
        ensures
            *self matches OsError::RegistrationFailed(_) ==> s@ == "window class registration failed"@,
            *self matches OsError::CreationFailed(_) ==> s@ == "window creation failed"@,
            *self matches OsError::ClientRectUnavailable(_) ==> s@ == "client rectangle unavailable"@,
            *self matches OsError::DpiAwarenessRejected(_) ==> s@ == "DPI awareness rejected"@,
    {
        proof {
            reveal_strlit("window class registration failed");
            reveal_strlit("window creation failed");
            reveal_strlit("client rectangle unavailable");
            reveal_strlit("DPI awareness rejected");
        }
        match *self {
            OsError::RegistrationFailed(_) => "window class registration failed".to_owned(),
            OsError::CreationFailed(_) => "window creation failed".to_owned(),
            OsError::ClientRectUnavailable(_) => "client rectangle unavailable".to_owned(),
            OsError::DpiAwarenessRejected(_) => "DPI awareness rejected".to_owned(),
        }
    }
}

} // verus!
