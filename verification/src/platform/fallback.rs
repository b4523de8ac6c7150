//! No-op fallback backend, for unrecognized OS families.
//!
//! Every query fails with `Unsupported`, unconditionally. The notification
//! primitive exists but is never signalled: a subscriber simply never
//! observes a change, which is the documented, correct behaviour of a
//! platform that never changes — distinct from a platform that errored.

use vstd::prelude::*;

use std::sync::Arc;

use crate::error::Error;
use crate::notify::{notify_handle_new, notify_handle_share};
use crate::theme::{ThemeAccent, ThemeContrast, ThemeKind, ThemeScheme};

verus! {

/// The fallback backend. Holds nothing but its never-signalled notification
/// primitive, immutable after construction.
pub struct Platform {
    notify: Arc<tokio::sync::Notify>,
}

impl Platform {
    /// The backend's notification primitive, as a spec value.
    pub closed spec fn spec_notify(&self) -> Arc<tokio::sync::Notify> {
        self.notify
    }

    /// Create the fallback backend. Never fails.
    pub fn new() -> (r: Result<Platform, Error>)
        ensures
            r is Ok,
    {
        Ok(Platform { notify: notify_handle_new() })
    }

    /// The desktop-environment family: unknown here, so `Unsupported`.
    pub fn theme_kind(&self) -> (r: Result<ThemeKind, Error>)
        ensures
            r == Result::<ThemeKind, Error>::Err(Error::Unsupported),
    {
        Err(Error::Unsupported)
    }

    /// The light/dark preference: `Unsupported`, unconditionally.
    pub fn theme_scheme(&self) -> (r: Result<ThemeScheme, Error>)
        ensures
            r == Result::<ThemeScheme, Error>::Err(Error::Unsupported),
    {
        Err(Error::Unsupported)
    }

    /// The contrast preference: `Unsupported`, unconditionally.
    pub fn theme_contrast(&self) -> (r: Result<ThemeContrast, Error>)
        ensures
            r == Result::<ThemeContrast, Error>::Err(Error::Unsupported),
    {
        Err(Error::Unsupported)
    }

    /// The accent color: `Unsupported`, unconditionally.
    pub fn theme_accent(&self) -> (r: Result<ThemeAccent, Error>)
        ensures
            r == Result::<ThemeAccent, Error>::Err(Error::Unsupported),
    {
        Err(Error::Unsupported)
    }

    /// A handle to the notification primitive. Nothing ever signals it: the
    /// handle can be waited on, and the wait never ends while the backend is
    /// alive.
    pub fn get_notify(&self) -> (r: Arc<tokio::sync::Notify>)
        ensures
            r == self.spec_notify(),
    {
        notify_handle_share(&self.notify)
    }
}

} // verus!
