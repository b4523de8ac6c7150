//! Capability-probed backend, for the Windows family.
//!
//! Not every OS version of this family exposes every query. The host probes,
//! once, whether the color-settings and the contrast-settings APIs are
//! present, and constructs the backend from the two probe outcomes; each
//! later query takes the live OS reading for that call. A query whose
//! capability is absent fails `Unsupported` (structurally impossible on this
//! build); a present capability with no usable value fails `Unavailable`; a
//! probe or read fault becomes `Platform`. There is no direct scheme flag on
//! this family: the scheme is inferred from the reported background color by
//! a luminance-sum threshold, a deliberate platform heuristic.

use vstd::prelude::*;

use std::sync::Arc;

use crate::error::Error;
use crate::notify::{notify_handle_new, notify_handle_share};
use crate::theme::{ThemeAccent, ThemeContrast, ThemeKind, ThemeScheme, CHANNEL_STEP};

verus! {

/// An OS reading for one query: `Err` is a fault of the underlying API,
/// `Ok(None)` means the API answered but had no usable value, and
/// `Ok(Some(v))` is a usable value.
pub type Reading<T> = Result<Option<T>, String>;

/// Whether an 8-bit color counts as dark: its plain channel sum lies below
/// the midpoint `3 × 128`. This heuristic stands in for a missing scheme
/// flag and is kept exactly as designed, even though it can misclassify
/// unusual background colors.
pub open spec fn spec_color_dark(red: u8, green: u8, blue: u8) -> bool {
    red + green + blue < 384
}

/// Check if a color is dark or light, by the luminance-sum threshold.
pub fn is_color_dark(red: u8, green: u8, blue: u8) -> (r: bool)
    ensures
        r == spec_color_dark(red, green, blue),
{
    (red as u32 + green as u32 + blue as u32) < 384
}

/// What a capability probe means: a present or absent capability passes
/// through, a probe fault becomes a `Platform` error.
pub open spec fn spec_probe(probe: Result<bool, String>) -> Result<bool, Error> {
    match probe {
        Ok(present) => Ok(present),
        Err(cause) => Err(Error::Platform(cause)),
    }
}

/// Check if the color-settings API is supported, from the host's probe of
/// the running OS version.
pub fn check_color_supported(probe: Result<bool, String>) -> (r: Result<bool, Error>)
    ensures
        r == spec_probe(probe),
{
    match probe {
        Ok(present) => Ok(present),
        Err(cause) => Err(Error::from_platform(cause)),
    }
}

/// Check if the high-contrast API is supported, from the host's probe of
/// the running OS version.
pub fn check_high_contrast_supported(probe: Result<bool, String>) -> (r: Result<bool, Error>)
    ensures
        r == spec_probe(probe),
{
    match probe {
        Ok(present) => Ok(present),
        Err(cause) => Err(Error::from_platform(cause)),
    }
}

/// What a query on a probed capability returns: `Unsupported` when the
/// capability is absent — whatever the reading says — and otherwise the
/// reading itself, with a fault as `Platform` and a missing value as
/// `Unavailable`.
pub open spec fn spec_probed_reading<T>(present: bool, reading: Reading<T>) -> Result<T, Error> {
    if !present {
        Err(Error::Unsupported)
    } else {
        match reading {
            Ok(Some(value)) => Ok(value),
            Ok(None) => Err(Error::Unavailable),
            Err(cause) => Err(Error::Platform(cause)),
        }
    }
}

/// The capability-probed backend, immutable after construction.
pub struct Platform {
    has_color_settings: bool,
    has_contrast_settings: bool,
    notify: Arc<tokio::sync::Notify>,
}

impl Platform {
    /// Whether the color-settings API (background and accent colors) was
    /// probed present on the running OS version.
    pub closed spec fn spec_has_color_settings(&self) -> bool {
        self.has_color_settings
    }

    /// Whether the high-contrast accessibility API was probed present.
    pub closed spec fn spec_has_contrast_settings(&self) -> bool {
        self.has_contrast_settings
    }

    /// The backend's notification primitive, as a spec value.
    pub closed spec fn spec_notify(&self) -> Arc<tokio::sync::Notify> {
        self.notify
    }

    /// Create the backend from the two capability probes the host ran. A
    /// probe fault fails construction with `Platform`; the color probe is
    /// taken first.
    pub fn new(color_probe: Result<bool, String>, contrast_probe: Result<bool, String>) -> (r:
        Result<Platform, Error>)
        ensures
            color_probe matches Err(cause) ==> r == Result::<Platform, Error>::Err(
                Error::Platform(cause),
            ),
            contrast_probe matches Err(cause) ==> (color_probe is Err || r == Result::<
                Platform,
                Error,
            >::Err(Error::Platform(cause))),
            color_probe matches Ok(color) ==> (contrast_probe matches Ok(contrast) ==> (r
                matches Ok(p) && p.spec_has_color_settings() == color
                && p.spec_has_contrast_settings() == contrast)),
    {
        let has_color_settings = match check_color_supported(color_probe) {
            Ok(present) => present,
            Err(e) => {
                return Err(e);
            },
        };
        let has_contrast_settings = match check_high_contrast_supported(contrast_probe) {
            Ok(present) => present,
            Err(e) => {
                return Err(e);
            },
        };
        Ok(
            Platform {
                has_color_settings,
                has_contrast_settings,
                notify: notify_handle_new(),
            },
        )
    }

    /// The desktop-environment family: constant on this backend.
    pub fn theme_kind(&self) -> (r: Result<ThemeKind, Error>)
        ensures
            r == Result::<ThemeKind, Error>::Ok(ThemeKind::Windows),
    {
        Ok(ThemeKind::Windows)
    }

    /// The color reported by the OS for one color role, as 8-bit channels,
    /// through the capability gate.
    pub fn get_ui_color(&self, reading: Reading<(u8, u8, u8)>) -> (r: Result<(u8, u8, u8), Error>)
        ensures
            r == spec_probed_reading(self.spec_has_color_settings(), reading),
    {
        if !self.has_color_settings {
            return Err(Error::Unsupported);
        }
        match reading {
            Ok(Some(color)) => Ok(color),
            Ok(None) => Err(Error::Unavailable),
            Err(cause) => Err(Error::from_platform(cause)),
        }
    }

    /// The light/dark preference, inferred from the reported background
    /// color: dark iff the background is dark by the luminance-sum
    /// threshold.
    pub fn theme_scheme(&self, background: Reading<(u8, u8, u8)>) -> (r: Result<ThemeScheme, Error>)
        ensures
            r == match spec_probed_reading(self.spec_has_color_settings(), background) {
                Ok(color) => if spec_color_dark(color.0, color.1, color.2) {
                    Ok(ThemeScheme::Dark)
                } else {
                    Ok(ThemeScheme::Light)
                },
                Err(e) => Err(e),
            },
    {
        match self.get_ui_color(background) {
            Ok((red, green, blue)) => {
                if is_color_dark(red, green, blue) {
                    Ok(ThemeScheme::Dark)
                } else {
                    Ok(ThemeScheme::Light)
                }
            },
            Err(e) => Err(e),
        }
    }

    /// The contrast preference, from the reported high-contrast flag,
    /// through the capability gate.
    pub fn theme_contrast(&self, high_contrast: Reading<bool>) -> (r: Result<ThemeContrast, Error>)
        ensures
            r == match spec_probed_reading(self.spec_has_contrast_settings(), high_contrast) {
                Ok(flag) => if flag {
                    Ok(ThemeContrast::High)
                } else {
                    Ok(ThemeContrast::Normal)
                },
                Err(e) => Err(e),
            },
    {
        if !self.has_contrast_settings {
            return Err(Error::Unsupported);
        }
        match high_contrast {
            Ok(Some(flag)) => Ok(
                if flag {
                    ThemeContrast::High
                } else {
                    ThemeContrast::Normal
                },
            ),
            Ok(None) => Err(Error::Unavailable),
            Err(cause) => Err(Error::from_platform(cause)),
        }
    }

    /// The accent color, from the reported 8-bit accent channels, through
    /// the capability gate. 8-bit channels are always in range, so a usable
    /// reading converts exactly.
    pub fn theme_accent(&self, accent: Reading<(u8, u8, u8)>) -> (r: Result<ThemeAccent, Error>)
        ensures
            r == match spec_probed_reading(self.spec_has_color_settings(), accent) {
                Ok(color) => Ok(
                    ThemeAccent {
                        red: (color.0 * CHANNEL_STEP) as u32,
                        green: (color.1 * CHANNEL_STEP) as u32,
                        blue: (color.2 * CHANNEL_STEP) as u32,
                    },
                ),
                Err(e) => Err(e),
            },
            r matches Ok(a) ==> a.wf(),
    {
        match self.get_ui_color(accent) {
            Ok((red, green, blue)) => Ok(
                ThemeAccent {
                    red: red as u32 * CHANNEL_STEP,
                    green: green as u32 * CHANNEL_STEP,
                    blue: blue as u32 * CHANNEL_STEP,
                },
            ),
            Err(e) => Err(e),
        }
    }

    /// A handle to the notification primitive. This family has no native
    /// change signal here; the primitive exists but is never signalled, as
    /// in the fallback backend.
    pub fn get_notify(&self) -> (r: Arc<tokio::sync::Notify>)
        ensures
            r == self.spec_notify(),
    {
        notify_handle_share(&self.notify)
    }
}

} // verus!
