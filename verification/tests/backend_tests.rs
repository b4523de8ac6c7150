//! Tests of the platform backends' decision logic, on simulated readings.

use system_theme::error::Error;
use system_theme::platform::{fallback, macos, windows, xdg};
use system_theme::theme::{ThemeContrast, ThemeKind, ThemeScheme};

#[test]
fn fallback_every_query_unsupported() {
    let platform = fallback::Platform::new().unwrap();
    assert!(matches!(platform.theme_kind(), Err(Error::Unsupported)));
    assert!(matches!(platform.theme_scheme(), Err(Error::Unsupported)));
    assert!(matches!(platform.theme_contrast(), Err(Error::Unsupported)));
    assert!(matches!(platform.theme_accent(), Err(Error::Unsupported)));
}

#[test]
fn windows_capability_absent_is_unsupported() {
    let platform = windows::Platform::new(Ok(false), Ok(false)).unwrap();
    assert!(matches!(
        platform.theme_scheme(Ok(Some((0, 0, 0)))),
        Err(Error::Unsupported)
    ));
    assert!(matches!(
        platform.theme_contrast(Ok(Some(true))),
        Err(Error::Unsupported)
    ));
    assert!(matches!(
        platform.theme_accent(Ok(Some((1, 2, 3)))),
        Err(Error::Unsupported)
    ));
}

#[test]
fn windows_capability_present_empty_is_unavailable() {
    let platform = windows::Platform::new(Ok(true), Ok(true)).unwrap();
    assert!(matches!(platform.theme_scheme(Ok(None)), Err(Error::Unavailable)));
    assert!(matches!(platform.theme_contrast(Ok(None)), Err(Error::Unavailable)));
    assert!(matches!(platform.theme_accent(Ok(None)), Err(Error::Unavailable)));
}

#[test]
fn windows_capability_present_valid_is_ok() {
    let platform = windows::Platform::new(Ok(true), Ok(true)).unwrap();
    assert!(matches!(
        platform.theme_scheme(Ok(Some((31, 31, 31)))),
        Ok(ThemeScheme::Dark)
    ));
    assert!(matches!(
        platform.theme_scheme(Ok(Some((250, 250, 250)))),
        Ok(ThemeScheme::Light)
    ));
    assert!(matches!(platform.theme_contrast(Ok(Some(true))), Ok(ThemeContrast::High)));
    assert!(matches!(platform.theme_contrast(Ok(Some(false))), Ok(ThemeContrast::Normal)));
    let accent = platform.theme_accent(Ok(Some((15, 108, 189)))).unwrap();
    assert_eq!(accent.red, 15 * 4000);
    assert_eq!(accent.green, 108 * 4000);
    assert_eq!(accent.blue, 189 * 4000);
}

#[test]
fn windows_reading_fault_is_platform() {
    let platform = windows::Platform::new(Ok(true), Ok(true)).unwrap();
    assert!(matches!(
        platform.theme_scheme(Err(String::from("api fault"))),
        Err(Error::Platform(_))
    ));
    assert!(matches!(
        platform.theme_contrast(Err(String::from("api fault"))),
        Err(Error::Platform(_))
    ));
}

#[test]
fn windows_probe_fault_fails_construction() {
    assert!(matches!(
        windows::Platform::new(Err(String::from("probe fault")), Ok(true)),
        Err(Error::Platform(_))
    ));
    assert!(matches!(
        windows::Platform::new(Ok(true), Err(String::from("probe fault"))),
        Err(Error::Platform(_))
    ));
}

#[test]
fn windows_kind_is_constant() {
    let platform = windows::Platform::new(Ok(false), Ok(false)).unwrap();
    assert!(matches!(platform.theme_kind(), Ok(ThemeKind::Windows)));
}

#[test]
fn luminance_sum_threshold() {
    // Dark iff the plain channel sum is below 3 × 128.
    assert!(windows::is_color_dark(0, 0, 0));
    assert!(windows::is_color_dark(127, 128, 128)); // sum 383
    assert!(!windows::is_color_dark(128, 128, 128)); // sum 384
    assert!(!windows::is_color_dark(255, 255, 255));
}

#[test]
fn windows_capability_checks_map_probes() {
    assert!(matches!(windows::check_color_supported(Ok(true)), Ok(true)));
    assert!(matches!(windows::check_color_supported(Ok(false)), Ok(false)));
    assert!(matches!(
        windows::check_color_supported(Err(String::from("x"))),
        Err(Error::Platform(_))
    ));
    assert!(matches!(windows::check_high_contrast_supported(Ok(true)), Ok(true)));
    assert!(matches!(
        windows::check_high_contrast_supported(Err(String::from("x"))),
        Err(Error::Platform(_))
    ));
}

#[test]
fn macos_kind_is_constant() {
    let platform = macos::Platform::new(true).unwrap();
    assert!(matches!(platform.theme_kind(), Ok(ThemeKind::MacOS)));
}

#[test]
fn macos_scheme_api_missing_is_unsupported() {
    let platform = macos::Platform::new(true).unwrap();
    assert!(matches!(
        platform.theme_scheme(false, Some(macos::AppearanceName::DarkAqua)),
        Err(Error::Unsupported)
    ));
}

#[test]
fn macos_off_main_thread_is_unavailable() {
    let platform = macos::Platform::new(false).unwrap();
    assert!(matches!(
        platform.theme_scheme(true, Some(macos::AppearanceName::DarkAqua)),
        Err(Error::Unavailable)
    ));
}

#[test]
fn macos_scheme_from_appearance() {
    let platform = macos::Platform::new(true).unwrap();
    assert!(matches!(
        platform.theme_scheme(true, Some(macos::AppearanceName::DarkAqua)),
        Ok(ThemeScheme::Dark)
    ));
    assert!(matches!(
        platform.theme_scheme(true, Some(macos::AppearanceName::Aqua)),
        Ok(ThemeScheme::Light)
    ));
    // No best match at all counts as light.
    assert!(matches!(platform.theme_scheme(true, None), Ok(ThemeScheme::Light)));
}

#[test]
fn macos_contrast_from_flag() {
    let platform = macos::Platform::new(true).unwrap();
    assert!(matches!(platform.theme_contrast(false, true), Err(Error::Unsupported)));
    assert!(matches!(platform.theme_contrast(true, true), Ok(ThemeContrast::High)));
    assert!(matches!(platform.theme_contrast(true, false), Ok(ThemeContrast::Normal)));
}

#[test]
fn macos_accent_from_component_bits() {
    let platform = macos::Platform::new(true).unwrap();
    let one = 1.0f64.to_bits();
    let half = 0.5f64.to_bits();
    let zero = 0.0f64.to_bits();
    let accent = platform.theme_accent(true, one, half, zero).unwrap();
    assert_eq!(accent.red, 1020000);
    assert_eq!(accent.green, 510000);
    assert_eq!(accent.blue, 0);
    assert!(matches!(
        platform.theme_accent(false, one, one, one),
        Err(Error::Unsupported)
    ));
    let out_of_range = 2.0f64.to_bits();
    assert!(matches!(
        platform.theme_accent(true, out_of_range, half, zero),
        Err(Error::Unavailable)
    ));
}

#[test]
fn kind_follows_gtk_owner() {
    assert_eq!(xdg::kind_from_gtk_owner(true), ThemeKind::Gtk);
    assert_eq!(xdg::kind_from_gtk_owner(false), ThemeKind::Qt);
}

#[test]
fn is_appearance_dark_matches() {
    assert!(macos::is_appearance_dark(Some(macos::AppearanceName::DarkAqua)));
    assert!(!macos::is_appearance_dark(Some(macos::AppearanceName::Aqua)));
    assert!(!macos::is_appearance_dark(None));
}
