//! Error taxonomy shared by every platform backend.
//!
//! The four kinds are deliberately flat. `Unsupported` means the requested
//! signal structurally does not exist on this OS, version or desktop
//! environment; it is permanent for the life of the process. `Unavailable`
//! means the signal exists but currently has no usable value (for example an
//! accent color that is not configured, or a value outside its range); it may
//! become available later. `MainThreadRequired` means the call needs a
//! distinguished thread context that was not present. `Platform` carries the
//! text of an unexpected underlying OS or IPC failure.

use vstd::prelude::*;

verus! {

/// Error type for system theme operations.
#[derive(Debug)]
pub enum Error {
    /// Operation not supported by the platform.
    Unsupported,
    /// Data not available (or invalid).
    Unavailable,
    /// Main thread required error.
    MainThreadRequired,
    /// Internal platform error, carrying the underlying cause as text.
    Platform(String),
}

impl Error {
    /// Create a new error from the text of an underlying platform error.
    pub fn from_platform(cause: String) -> (r: Error)
        ensures
            r == Error::Platform(cause),
    {
        Error::Platform(cause)
    }

    /// A short description of the error, for diagnostics.
    pub fn message(&self) -> (r: String)
        ensures
            self is Unsupported ==> r@ == "Unsupported operation"@,
            self is Unavailable ==> r@ == "Unavailable data"@,
            self is MainThreadRequired ==> r@ == "Main thread required"@,
            self matches Error::Platform(cause) ==> r@ == "Platform error: "@ + cause@,
    {
        match self {
            Error::Unsupported => "Unsupported operation".to_owned(),
            Error::Unavailable => "Unavailable data".to_owned(),
            Error::MainThreadRequired => "Main thread required".to_owned(),
            Error::Platform(cause) => "Platform error: ".to_owned().concat(cause.as_str()),
        }
    }
}

} // verus!
