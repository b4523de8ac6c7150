//! Reports the host operating system's visual appearance preferences (dark or
//! light scheme, contrast level, accent color, desktop-environment kind)
//! through one platform-independent interface, and derives a complete
//! six-color palette from whatever the platform can answer.
//!
//! Color channels are fixed-point integers: a channel runs from `0` to
//! [`theme::CHANNEL_MAX`], which stands for `1.0`. Adapters that need
//! floating-point colors divide by `CHANNEL_MAX` at the boundary.

pub mod channel;
pub mod error;
pub mod math;
pub mod notify;
pub mod platform;
pub mod theme;

pub use error::Error;
pub use theme::{
    ThemeAccent, ThemeColor, ThemeContrast, ThemeKind, ThemePalette, ThemeScheme,
};

use vstd::prelude::*;

use std::sync::Arc;

use crate::notify::notify_handle_share;

verus! {

/// The desktop-environment family a query answered, or its documented
/// default — the compiled target family's, here Gtk — when the query failed.
pub fn kind_or_default(queried: Result<ThemeKind, Error>) -> (kind: ThemeKind)
    ensures
        queried matches Ok(v) ==> kind == v,
        queried is Err ==> kind == ThemeKind::Gtk,
{
    match queried {
        Ok(kind) => kind,
        Err(_) => ThemeKind::default(),
    }
}

/// The scheme a query answered, or its documented default — dark — when the
/// query failed.
pub fn scheme_or_default(queried: Result<ThemeScheme, Error>) -> (scheme: ThemeScheme)
    ensures
        queried matches Ok(v) ==> scheme == v,
        queried is Err ==> scheme == ThemeScheme::Dark,
{
    match queried {
        Ok(scheme) => scheme,
        Err(_) => ThemeScheme::default(),
    }
}

/// The contrast a query answered, or its documented default — normal — when
/// the query failed.
pub fn contrast_or_default(queried: Result<ThemeContrast, Error>) -> (contrast: ThemeContrast)
    ensures
        queried matches Ok(v) ==> contrast == v,
        queried is Err ==> contrast == ThemeContrast::Normal,
{
    match queried {
        Ok(contrast) => contrast,
        Err(_) => ThemeContrast::default(),
    }
}

/// The accent a query answered, or none when the query failed: no default
/// color is invented, the table's own accent stands instead.
pub fn accent_or_none(queried: Result<ThemeAccent, Error>) -> (accent: Option<ThemeAccent>)
    ensures
        queried matches Ok(v) ==> accent == Some(v),
        queried is Err ==> accent is None,
{
    match queried {
        Ok(accent) => Some(accent),
        Err(_) => None,
    }
}

/// A complete, displayable description of the system theme: the
/// point-in-time answers of every query — with documented defaults where a
/// query failed — and the palette derived from them.
#[derive(Debug, PartialEq, Eq, Structural, Clone, Copy)]
pub struct Theme {
    /// The desktop-environment family, or its default when undetectable.
    pub kind: ThemeKind,
    /// The light/dark preference, or its default when undetectable.
    pub scheme: ThemeScheme,
    /// The contrast preference, or its default when undetectable.
    pub contrast: ThemeContrast,
    /// The live accent color, when one was obtainable.
    pub accent: Option<ThemeAccent>,
    /// The palette derived from the four fields above.
    pub palette: ThemePalette,
}

/// One subscription to a theme's change feed: a shared handle to the
/// backend's notification primitive. Every subscription to one
/// [`SystemTheme`] holds the same primitive, so every wake-up reaches every
/// subscriber that is waiting (broadcast, not point-to-point). The host
/// adapter awaits the handle for the next wake-up and re-queries state; no
/// payload is carried.
pub struct ThemeSubscription {
    notify: Arc<tokio::sync::Notify>,
}

impl ThemeSubscription {
    /// The shared notification primitive, as a spec value.
    pub closed spec fn spec_notify(&self) -> Arc<tokio::sync::Notify> {
        self.notify
    }

    /// The shared notification primitive, for the adapter that awaits it.
    pub fn handle(&self) -> (r: Arc<tokio::sync::Notify>)
        ensures
            r == self.spec_notify(),
    {
        notify_handle_share(&self.notify)
    }
}

/// System theme implementation: the single entry point. Owns exactly one
/// platform backend — selected by the build target, here the session-bus
/// portal backend — for its whole lifetime; nothing reconfigures which OS
/// mechanism is used after construction.
pub struct SystemTheme {
    platform: platform::Platform,
}

impl SystemTheme {
    /// The backend's notification primitive, as a spec value.
    pub closed spec fn spec_notify(&self) -> Arc<tokio::sync::Notify> {
        self.platform.spec_notify()
    }

    /// A read-only borrow of the owned backend, for the host's observer
    /// plumbing. The backend itself stays immutable after construction.
    pub fn platform(&self) -> (r: &platform::Platform) {
        &self.platform
    }

    /// Create a new instance of SystemTheme. Fails exactly when the backend
    /// fails to construct, with that error.
    pub fn new() -> (r: Result<SystemTheme, Error>)
        ensures
            r matches Err(e) ==> e is Unsupported || e is Platform,
    {
        match platform::Platform::new() {
            Ok(platform) => Ok(SystemTheme { platform }),
            Err(e) => Err(e),
        }
    }

    /// Get the desktop-environment family. Propagates the backend's answer
    /// unchanged.
    pub fn theme_kind(&self) -> (r: Result<ThemeKind, Error>)
        ensures
            r matches Ok(kind) ==> kind == ThemeKind::Gtk || kind == ThemeKind::Qt,
            r matches Err(e) ==> e is Platform,
    {
        self.platform.theme_kind()
    }

    /// Get the system theme scheme. Propagates the backend's answer
    /// unchanged.
    pub fn theme_scheme(&self) -> (r: Result<ThemeScheme, Error>)
        ensures
            r matches Err(e) ==> e is Unsupported || e is Unavailable || e is Platform,
    {
        self.platform.theme_scheme()
    }

    /// Get the system theme contrast level. Propagates the backend's answer
    /// unchanged.
    pub fn theme_contrast(&self) -> (r: Result<ThemeContrast, Error>)
        ensures
            r matches Err(e) ==> e is Unsupported || e is Unavailable || e is Platform,
    {
        self.platform.theme_contrast()
    }

    /// Get the system theme accent color. Propagates the backend's answer
    /// unchanged; a returned accent is always range-valid.
    pub fn theme_accent(&self) -> (r: Result<ThemeAccent, Error>)
        ensures
            r matches Ok(accent) ==> accent.wf(),
            r matches Err(e) ==> e is Unsupported || e is Unavailable || e is Platform,
    {
        self.platform.theme_accent()
    }

    /// The complete current theme. This call never fails: each failed query
    /// is replaced by its documented default — dark scheme, normal
    /// contrast, the target family's default kind, no accent — and the
    /// palette is derived from the four answers. This is the single place
    /// where query failures are absorbed.
    pub fn get_theme(&self) -> (r: Theme)
        ensures
            r.palette == ThemePalette::spec_derive_palette(r.kind, r.scheme, r.contrast, r.accent),
            r.palette.wf(),
    {
        let kind = kind_or_default(self.theme_kind());
        let scheme = scheme_or_default(self.theme_scheme());
        let contrast = contrast_or_default(self.theme_contrast());
        let accent = accent_or_none(self.theme_accent());
        let palette = ThemePalette::derive_palette(kind, scheme, contrast, accent);
        Theme { kind, scheme, contrast, accent, palette }
    }

    /// Subscribe to the change feed: a handle on the backend's one
    /// notification primitive. Each wake-up after this point reaches this
    /// subscription; wake-ups are never replayed, and concurrent
    /// subscriptions to the same theme each receive every wake-up.
    pub fn subscribe(&self) -> (r: ThemeSubscription)
        ensures
            r.spec_notify() == self.spec_notify(),
    {
        ThemeSubscription { notify: self.platform.get_notify() }
    }

    /// A handle to the backend's notification primitive.
    pub fn get_notify(&self) -> (r: Arc<tokio::sync::Notify>)
        ensures
            r == self.spec_notify(),
    {
        self.platform.get_notify()
    }

    /// Translate one platform change event into a wake-up of every waiting
    /// subscriber. The host's observer — the portal signal watcher on this
    /// target — calls this once per event, from whatever thread delivers
    /// it.
    pub fn notify_change(&self) {
        self.platform.signal_change();
    }
}

} // verus!
