//! Tests of the error taxonomy, the bus-fault mapping table, and the
//! channel-bit decoding.

use system_theme::channel::{accent_from_bits, channel_from_bits, check_color_component};
use system_theme::error::Error;
use system_theme::platform::xdg::{contrast_from_portal, scheme_from_portal, BusFault};
use system_theme::theme::{ThemeContrast, ThemeScheme};

#[test]
fn from_platform_wraps_cause() {
    let e = Error::from_platform(String::from("socket closed"));
    match e {
        Error::Platform(cause) => assert_eq!(cause, "socket closed"),
        _ => panic!("expected a platform error"),
    }
}

#[test]
fn messages_describe_each_kind() {
    assert_eq!(Error::Unsupported.message(), "Unsupported operation");
    assert_eq!(Error::Unavailable.message(), "Unavailable data");
    assert_eq!(Error::MainThreadRequired.message(), "Main thread required");
    assert_eq!(
        Error::Platform(String::from("lost connection")).message(),
        "Platform error: lost connection"
    );
}

#[test]
fn portal_not_found_maps_to_unsupported() {
    let fault = BusFault::MethodError(
        String::from("org.freedesktop.portal.Error.NotFound"),
        Some(String::from("Requested setting not found")),
    );
    assert!(matches!(Error::from_bus_fault(fault), Error::Unsupported));
}

#[test]
fn service_unknown_maps_to_unsupported() {
    let fault = BusFault::MethodError(
        String::from("org.freedesktop.DBus.Error.ServiceUnknown"),
        None,
    );
    assert!(matches!(Error::from_bus_fault(fault), Error::Unsupported));
}

#[test]
fn method_unknown_maps_to_unsupported() {
    let fault = BusFault::MethodError(
        String::from("org.freedesktop.DBus.Error.UnknownMethod"),
        None,
    );
    assert!(matches!(Error::from_bus_fault(fault), Error::Unsupported));
}

#[test]
fn other_method_error_maps_to_platform() {
    let fault = BusFault::MethodError(
        String::from("org.freedesktop.DBus.Error.AccessDenied"),
        Some(String::from("not allowed")),
    );
    match Error::from_bus_fault(fault) {
        Error::Platform(text) => {
            assert_eq!(text, "org.freedesktop.DBus.Error.AccessDenied: not allowed");
        },
        _ => panic!("expected a platform error"),
    }
}

#[test]
fn library_level_faults_map_to_unsupported() {
    assert!(matches!(
        Error::from_bus_fault(BusFault::InterfaceNotFound),
        Error::Unsupported
    ));
    assert!(matches!(Error::from_bus_fault(BusFault::Unsupported), Error::Unsupported));
}

#[test]
fn generic_fault_maps_to_platform() {
    let fault = BusFault::Other(String::from("connection reset"));
    match Error::from_bus_fault(fault) {
        Error::Platform(text) => assert_eq!(text, "connection reset"),
        _ => panic!("expected a platform error"),
    }
}

#[test]
fn portal_scheme_values() {
    assert!(matches!(scheme_from_portal(1), Ok(ThemeScheme::Dark)));
    assert!(matches!(scheme_from_portal(2), Ok(ThemeScheme::Light)));
    assert!(matches!(scheme_from_portal(0), Err(Error::Unavailable)));
    assert!(matches!(scheme_from_portal(3), Err(Error::Unavailable)));
}

#[test]
fn portal_contrast_values() {
    assert!(matches!(contrast_from_portal(0), Ok(ThemeContrast::Normal)));
    assert!(matches!(contrast_from_portal(1), Ok(ThemeContrast::High)));
    assert!(matches!(contrast_from_portal(2), Err(Error::Unavailable)));
}

#[test]
fn unit_range_check_on_double_bits() {
    assert!(check_color_component(0.0f64.to_bits()));
    assert!(check_color_component((-0.0f64).to_bits()));
    assert!(check_color_component(0.5f64.to_bits()));
    assert!(check_color_component(1.0f64.to_bits()));
    assert!(!check_color_component(1.0000000000000002f64.to_bits()));
    assert!(!check_color_component((-0.1f64).to_bits()));
    assert!(!check_color_component(2.0f64.to_bits()));
    assert!(!check_color_component(f64::NAN.to_bits()));
    assert!(!check_color_component(f64::INFINITY.to_bits()));
    assert!(!check_color_component(f64::NEG_INFINITY.to_bits()));
}

#[test]
fn channel_bits_decode_to_fixed_point_floor() {
    for x in [0.0f64, 0.25, 0.5, 0.75, 1.0, 0.123456, 0.999999, 1.0e-300] {
        let expected = (x * 1020000.0).floor() as u32;
        assert_eq!(channel_from_bits(x.to_bits()), expected, "channel for {x}");
    }
    assert_eq!(channel_from_bits((-0.0f64).to_bits()), 0);
}

#[test]
fn accent_bits_validate_every_component() {
    let half = 0.5f64.to_bits();
    let bad = 1.5f64.to_bits();
    let accent = accent_from_bits(half, half, half).unwrap();
    assert_eq!(accent.red, 510000);
    assert_eq!(accent.green, 510000);
    assert_eq!(accent.blue, 510000);
    assert!(accent_from_bits(bad, half, half).is_none());
    assert!(accent_from_bits(half, bad, half).is_none());
    assert!(accent_from_bits(half, half, bad).is_none());
}
