//! Tests of the facade's default substitution: what each failed query is
//! replaced by when the complete theme is assembled.

use system_theme::theme::ThemeAccent;
use system_theme::{
    accent_or_none, contrast_or_default, kind_or_default, scheme_or_default, Error, ThemeContrast,
    ThemeKind, ThemeScheme,
};

#[test]
fn kind_default_is_target_family() {
    assert_eq!(kind_or_default(Ok(ThemeKind::Windows)), ThemeKind::Windows);
    assert_eq!(kind_or_default(Ok(ThemeKind::Qt)), ThemeKind::Qt);
    assert_eq!(kind_or_default(Err(Error::Unsupported)), ThemeKind::Gtk);
    assert_eq!(
        kind_or_default(Err(Error::Platform(String::from("no bus")))),
        ThemeKind::Gtk
    );
}

#[test]
fn scheme_default_is_dark() {
    assert_eq!(scheme_or_default(Ok(ThemeScheme::Light)), ThemeScheme::Light);
    assert_eq!(scheme_or_default(Ok(ThemeScheme::Dark)), ThemeScheme::Dark);
    assert_eq!(scheme_or_default(Err(Error::Unavailable)), ThemeScheme::Dark);
}

#[test]
fn contrast_default_is_normal() {
    assert_eq!(contrast_or_default(Ok(ThemeContrast::High)), ThemeContrast::High);
    assert_eq!(contrast_or_default(Err(Error::Unsupported)), ThemeContrast::Normal);
}

#[test]
fn failed_accent_becomes_none() {
    let accent = ThemeAccent { red: 1, green: 2, blue: 3 };
    assert_eq!(accent_or_none(Ok(accent)), Some(accent));
    assert_eq!(accent_or_none(Err(Error::Unavailable)), None);
    assert_eq!(accent_or_none(Err(Error::MainThreadRequired)), None);
}
