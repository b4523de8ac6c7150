//! Platform backends: one per desktop-environment family.
//!
//! Each backend answers the same four queries — kind, scheme, contrast,
//! accent — and exposes one change-notification handle. The build target
//! fixes which backend the facade owns: on this target family it is the
//! session-bus portal backend in [`xdg`]. The others stay available for
//! hosts that drive them with their own OS readings.

pub mod fallback;
pub mod macos;
pub mod windows;
pub mod xdg;

pub use xdg::Platform;
