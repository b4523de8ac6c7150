//! Main-thread-affine backend, for the Apple family.
//!
//! Many queries of this family are only valid on the thread that owns the
//! application event loop. The policy here is graceful degradation: when the
//! backend is constructed off the main thread it still succeeds, but caches
//! the missing affinity, and every query that needs the application object
//! fails `Unavailable` instead of crashing. The host installs one persistent
//! observer at construction, subscribed to the three independent change
//! signals (appearance, system color, accessibility contrast), and funnels
//! every one of them into this backend's single notification primitive
//! through [`Platform::signal_change`]; a woken consumer cannot tell which
//! aspect changed and re-queries each field.

use vstd::prelude::*;

use std::sync::Arc;

use crate::channel::{accent_from_bits, channel_fixed_of_bits, channel_in_unit_range};
use crate::error::Error;
use crate::notify::{notify_all_waiters, notify_handle_new, notify_handle_share};
use crate::theme::{ThemeAccent, ThemeContrast, ThemeKind, ThemeScheme};

verus! {

/// The two appearance names the scheme query matches the effective
/// appearance against: the normal and the dark variant.
#[derive(Debug, PartialEq, Eq, Structural, Clone, Copy)]
pub enum AppearanceName {
    /// The light appearance.
    Aqua,
    /// The dark appearance.
    DarkAqua,
}

/// Check if an appearance is dark, from the best match the OS reported
/// between the two known appearance names: dark exactly when the dark
/// variant matched best; no match at all counts as light.
pub fn is_appearance_dark(best_match: Option<AppearanceName>) -> (r: bool)
    ensures
        r == (best_match == Some(AppearanceName::DarkAqua)),
{
    match best_match {
        Some(AppearanceName::DarkAqua) => true,
        Some(AppearanceName::Aqua) => false,
        None => false,
    }
}

/// The main-thread-affine backend, immutable after construction.
pub struct Platform {
    has_application: bool,
    notify: Arc<tokio::sync::Notify>,
}

impl Platform {
    /// Whether the application object was reachable at construction: true
    /// exactly when the backend was constructed on the main thread.
    pub closed spec fn spec_has_application(&self) -> bool {
        self.has_application
    }

    /// The backend's notification primitive, as a spec value.
    pub closed spec fn spec_notify(&self) -> Arc<tokio::sync::Notify> {
        self.notify
    }

    /// Create the backend. `on_main_thread` is the host's answer to whether
    /// the constructing thread owns the application event loop; off the main
    /// thread the backend degrades rather than fails, and main-thread-only
    /// queries answer `Unavailable`.
    pub fn new(on_main_thread: bool) -> (r: Result<Platform, Error>)
        ensures
            r matches Ok(p) && p.spec_has_application() == on_main_thread,
    {
        Ok(Platform { has_application: on_main_thread, notify: notify_handle_new() })
    }

    /// The desktop-environment family: constant on this backend.
    pub fn theme_kind(&self) -> (r: Result<ThemeKind, Error>)
        ensures
            r == Result::<ThemeKind, Error>::Ok(ThemeKind::MacOS),
    {
        Ok(ThemeKind::MacOS)
    }

    /// The light/dark preference, from the effective appearance's best match
    /// against the two known appearance names. `scheme_api_available` is the
    /// host's probe of whether the OS version has the effective-appearance
    /// API; without it the query is `Unsupported`, and off the main thread
    /// it is `Unavailable`.
    pub fn theme_scheme(&self, scheme_api_available: bool, best_match: Option<AppearanceName>)
        -> (r: Result<ThemeScheme, Error>)
        ensures
            !scheme_api_available ==> r == Result::<ThemeScheme, Error>::Err(Error::Unsupported),
            scheme_api_available && !self.spec_has_application() ==> r == Result::<
                ThemeScheme,
                Error,
            >::Err(Error::Unavailable),
            scheme_api_available && self.spec_has_application() ==> r == Result::<ThemeScheme, Error>::Ok(
                if best_match == Some(AppearanceName::DarkAqua) {
                    ThemeScheme::Dark
                } else {
                    ThemeScheme::Light
                },
            ),
    {
        if !scheme_api_available {
            return Err(Error::Unsupported);
        }
        if !self.has_application {
            return Err(Error::Unavailable);
        }
        if is_appearance_dark(best_match) {
            Ok(ThemeScheme::Dark)
        } else {
            Ok(ThemeScheme::Light)
        }
    }

    /// The contrast preference, from the workspace's increase-contrast
    /// accessibility flag. `contrast_api_available` is the host's probe of
    /// whether the OS version has that flag.
    pub fn theme_contrast(&self, contrast_api_available: bool, increase_contrast: bool) -> (r:
        Result<ThemeContrast, Error>)
        ensures
            !contrast_api_available ==> r == Result::<ThemeContrast, Error>::Err(
                Error::Unsupported,
            ),
            contrast_api_available ==> r == Result::<ThemeContrast, Error>::Ok(
                if increase_contrast {
                    ThemeContrast::High
                } else {
                    ThemeContrast::Normal
                },
            ),
    {
        if !contrast_api_available {
            return Err(Error::Unsupported);
        }
        if increase_contrast {
            Ok(ThemeContrast::High)
        } else {
            Ok(ThemeContrast::Normal)
        }
    }

    /// The accent color, from the control accent color's components as
    /// double bits. `accent_api_available` is the host's probe of whether
    /// the OS version has the control accent color; a component outside the
    /// unit range means the accent is not usable, `Unavailable`.
    pub fn theme_accent(
        &self,
        accent_api_available: bool,
        red_bits: u64,
        green_bits: u64,
        blue_bits: u64,
    ) -> (r: Result<ThemeAccent, Error>)
        ensures
            !accent_api_available ==> r == Result::<ThemeAccent, Error>::Err(Error::Unsupported),
            accent_api_available && !(channel_in_unit_range(red_bits) && channel_in_unit_range(
                green_bits,
            ) && channel_in_unit_range(blue_bits)) ==> r == Result::<ThemeAccent, Error>::Err(
                Error::Unavailable,
            ),
            accent_api_available && channel_in_unit_range(red_bits) && channel_in_unit_range(
                green_bits,
            ) && channel_in_unit_range(blue_bits) ==> r == Result::<ThemeAccent, Error>::Ok(
                ThemeAccent {
                    red: channel_fixed_of_bits(red_bits) as u32,
                    green: channel_fixed_of_bits(green_bits) as u32,
                    blue: channel_fixed_of_bits(blue_bits) as u32,
                },
            ),
            r matches Ok(a) ==> a.wf(),
    {
        if !accent_api_available {
            return Err(Error::Unsupported);
        }
        match accent_from_bits(red_bits, green_bits, blue_bits) {
            Some(accent) => Ok(accent),
            None => Err(Error::Unavailable),
        }
    }

    /// A handle to the notification primitive all three observed OS signals
    /// funnel into.
    pub fn get_notify(&self) -> (r: Arc<tokio::sync::Notify>)
        ensures
            r == self.spec_notify(),
    {
        notify_handle_share(&self.notify)
    }

    /// Translate one observer callback — whichever of the three signals
    /// fired — into a wake-up of every consumer currently waiting on the
    /// notification primitive. Safe to call from whatever thread delivers
    /// the OS callback.
    pub fn signal_change(&self) {
        notify_all_waiters(&self.notify);
    }
}

} // verus!
