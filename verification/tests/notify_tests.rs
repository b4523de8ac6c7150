//! Tests of the change-notification behaviour: the fallback backend's
//! silent feed, and the broadcast of one change signal to every subscriber.

use std::time::Duration;

use system_theme::platform::{fallback, macos};
use system_theme::{Error, SystemTheme};

fn runtime() -> tokio::runtime::Runtime {
    tokio::runtime::Builder::new_current_thread()
        .enable_time()
        .build()
        .unwrap()
}

#[test]
fn fallback_feed_never_yields() {
    let platform = fallback::Platform::new().unwrap();
    let handle = platform.get_notify();
    runtime().block_on(async {
        let waited = tokio::time::timeout(Duration::from_millis(50), handle.notified()).await;
        assert!(waited.is_err(), "the fallback feed must never yield");
    });
}

#[test]
fn broadcast_wakes_every_subscriber() {
    let platform = macos::Platform::new(true).unwrap();
    let first = platform.get_notify();
    let second = platform.get_notify();
    runtime().block_on(async {
        let mut wait_first = Box::pin(first.notified());
        let mut wait_second = Box::pin(second.notified());
        // Neither subscriber observes a wake-up before any signal fired.
        assert!(!wait_first.as_mut().enable());
        assert!(!wait_second.as_mut().enable());
        // One simulated change signal wakes both.
        platform.signal_change();
        let woken_first =
            tokio::time::timeout(Duration::from_millis(200), wait_first).await;
        let woken_second =
            tokio::time::timeout(Duration::from_millis(200), wait_second).await;
        assert!(woken_first.is_ok(), "first subscriber missed the wake-up");
        assert!(woken_second.is_ok(), "second subscriber missed the wake-up");
    });
}

#[test]
fn no_wakeup_before_any_signal() {
    let platform = macos::Platform::new(true).unwrap();
    let handle = platform.get_notify();
    runtime().block_on(async {
        let waited = tokio::time::timeout(Duration::from_millis(50), handle.notified()).await;
        assert!(waited.is_err(), "no signal was sent, so no wake-up may arrive");
    });
}

#[test]
fn wakeups_are_not_replayed() {
    // A wake-up reaches only subscribers that were already waiting: a
    // subscriber that starts watching afterwards sees nothing of it.
    let platform = macos::Platform::new(true).unwrap();
    platform.signal_change();
    let handle = platform.get_notify();
    runtime().block_on(async {
        let waited = tokio::time::timeout(Duration::from_millis(50), handle.notified()).await;
        assert!(waited.is_err(), "a past wake-up must not be replayed");
    });
}

#[test]
fn system_theme_subscribers_share_one_feed() {
    // The facade's subscriptions broadcast the same way. Constructing the
    // facade needs a live session bus; where this environment has none, the
    // construction error is the documented outcome and the broadcast
    // behaviour is covered by the backend-level tests above.
    match SystemTheme::new() {
        Ok(theme) => {
            let first = theme.subscribe();
            let second = theme.subscribe();
            runtime().block_on(async {
                let handle_first = first.handle();
                let handle_second = second.handle();
                let mut wait_first = Box::pin(handle_first.notified());
                let mut wait_second = Box::pin(handle_second.notified());
                assert!(!wait_first.as_mut().enable());
                assert!(!wait_second.as_mut().enable());
                theme.notify_change();
                let woken_first =
                    tokio::time::timeout(Duration::from_millis(200), wait_first).await;
                let woken_second =
                    tokio::time::timeout(Duration::from_millis(200), wait_second).await;
                assert!(woken_first.is_ok(), "first subscriber missed the wake-up");
                assert!(woken_second.is_ok(), "second subscriber missed the wake-up");
            });
        },
        Err(e) => {
            assert!(matches!(e, Error::Unsupported | Error::Platform(_)));
        },
    }
}

#[test]
fn facade_get_theme_never_fails() {
    // Whatever the platform answers — including no session bus at all —
    // the aggregate query produces a fully populated palette.
    if let Ok(theme) = SystemTheme::new() {
        let snapshot = theme.get_theme();
        let palette = snapshot.palette;
        for color in [
            palette.background,
            palette.foreground,
            palette.accent,
            palette.success,
            palette.warning,
            palette.danger,
        ] {
            assert!(color.red <= 1020000);
            assert!(color.green <= 1020000);
            assert!(color.blue <= 1020000);
        }
    }
}
