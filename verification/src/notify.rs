//! The change-notification primitive shared by every backend.
//!
//! Each backend owns one wake-up primitive. OS-level observers (driven by the
//! host adapter) signal it; every consumer waiting on a shared handle at that
//! moment is woken, and re-queries state rather than receiving a payload. The
//! primitive is `tokio::sync::Notify`, taken on trust; sharing a handle is an
//! `Arc` clone, so two handles to one backend are one primitive.

use vstd::prelude::*;

use std::sync::Arc;

verus! {

/// The notification primitive of a backend. Outside type, opaque to
/// verification: its waking behaviour is exercised by tests, not proved.
#[verifier::external_type_specification]
#[verifier::external_body]
pub struct ExNotify(tokio::sync::Notify);

/// A fresh, unsignalled notification primitive behind a shareable handle.
/// Relies on tokio's `Notify::new`: the primitive starts with no stored
/// permit and no waiters.
#[verifier::external_body]
pub fn notify_handle_new() -> (r: Arc<tokio::sync::Notify>) {
    Arc::new(tokio::sync::Notify::new())
}

/// Share a handle to a notification primitive. Relies on `Arc::clone`, which
/// hands out the same underlying primitive.
#[verifier::external_body]
pub fn notify_handle_share(handle: &Arc<tokio::sync::Notify>) -> (r: Arc<tokio::sync::Notify>)
    ensures
        r == *handle,
{
    Arc::clone(handle)
}

/// Wake every consumer currently waiting on the primitive. Relies on tokio's
/// `Notify::notify_waiters`: all registered waiters are woken at once
/// (broadcast), and nothing is stored for future waiters.
#[verifier::external_body]
pub fn notify_all_waiters(handle: &Arc<tokio::sync::Notify>) {
    handle.notify_waiters();
}

} // verus!
