//! Built-in per-desktop-environment palettes and the derivation engine.
//!
//! Each desktop family ships a hand-curated light and dark palette matching
//! its native design language; the values are design decisions copied from
//! each environment's published style guide, not computed.

use vstd::prelude::*;

use super::{ThemeAccent, ThemeColor, ThemeContrast, ThemeKind, ThemeScheme};

verus! {

/// Theme Palette: the six-color semantic set an application uses to theme its
/// UI. Always fully populated.
#[derive(Debug, PartialEq, Eq, Structural, Clone, Copy)]
pub struct ThemePalette {
    /// Background color
    pub background: ThemeColor,
    /// Foreground color
    pub foreground: ThemeColor,
    /// Accent color
    pub accent: ThemeColor,
    /// Success color
    pub success: ThemeColor,
    /// Warning color
    pub warning: ThemeColor,
    /// Danger color
    pub danger: ThemeColor,
}

/// Windows Fluent light theme palette.
pub open spec fn fluent_light() -> ThemePalette {
    ThemePalette {
        background: ThemeColor::spec_from_rgb8(250, 250, 250),
        foreground: ThemeColor::spec_from_rgb8(36, 36, 36),
        accent: ThemeColor::spec_from_rgb8(15, 108, 189),
        success: ThemeColor::spec_from_rgb8(14, 112, 14),
        warning: ThemeColor::spec_from_rgb8(188, 75, 9),
        danger: ThemeColor::spec_from_rgb8(177, 14, 28),
    }
}

/// Windows Fluent dark theme palette.
pub open spec fn fluent_dark() -> ThemePalette {
    ThemePalette {
        background: ThemeColor::spec_from_rgb8(31, 31, 31),
        foreground: ThemeColor::spec_from_rgb8(255, 255, 255),
        accent: ThemeColor::spec_from_rgb8(71, 158, 245),
        success: ThemeColor::spec_from_rgb8(84, 176, 84),
        warning: ThemeColor::spec_from_rgb8(250, 160, 107),
        danger: ThemeColor::spec_from_rgb8(220, 98, 109),
    }
}

/// Apple Aqua light theme palette.
pub open spec fn aqua_light() -> ThemePalette {
    ThemePalette {
        background: ThemeColor::spec_from_rgb8(229, 229, 234),
        foreground: ThemeColor::spec_from_rgb8(28, 28, 30),
        accent: ThemeColor::spec_from_rgb8(0, 136, 255),
        success: ThemeColor::spec_from_rgb8(52, 199, 89),
        warning: ThemeColor::spec_from_rgb8(255, 141, 40),
        danger: ThemeColor::spec_from_rgb8(255, 56, 60),
    }
}

/// Apple Aqua dark theme palette.
pub open spec fn aqua_dark() -> ThemePalette {
    ThemePalette {
        background: ThemeColor::spec_from_rgb8(44, 44, 46),
        foreground: ThemeColor::spec_from_rgb8(242, 242, 247),
        accent: ThemeColor::spec_from_rgb8(0, 145, 255),
        success: ThemeColor::spec_from_rgb8(48, 209, 88),
        warning: ThemeColor::spec_from_rgb8(255, 146, 48),
        danger: ThemeColor::spec_from_rgb8(255, 66, 69),
    }
}

/// GNOME Adwaita light theme palette.
pub open spec fn adwaita_light() -> ThemePalette {
    ThemePalette {
        background: ThemeColor::spec_from_rgb8(246, 245, 244),
        foreground: ThemeColor::spec_from_rgb8(25, 25, 25),
        accent: ThemeColor::spec_from_rgb8(61, 174, 233),
        success: ThemeColor::spec_from_rgb8(39, 174, 96),
        warning: ThemeColor::spec_from_rgb8(246, 116, 0),
        danger: ThemeColor::spec_from_rgb8(218, 68, 83),
    }
}

/// GNOME Adwaita dark theme palette.
pub open spec fn adwaita_dark() -> ThemePalette {
    ThemePalette {
        background: ThemeColor::spec_from_rgb8(45, 45, 45),
        foreground: ThemeColor::spec_from_rgb8(255, 255, 255),
        accent: ThemeColor::spec_from_rgb8(61, 174, 233),
        success: ThemeColor::spec_from_rgb8(39, 174, 96),
        warning: ThemeColor::spec_from_rgb8(246, 116, 0),
        danger: ThemeColor::spec_from_rgb8(218, 68, 83),
    }
}

/// KDE Breeze light theme palette.
pub open spec fn breeze_light() -> ThemePalette {
    ThemePalette {
        background: ThemeColor::spec_from_rgb8(255, 255, 255),
        foreground: ThemeColor::spec_from_rgb8(35, 38, 41),
        accent: ThemeColor::spec_from_rgb8(61, 174, 233),
        success: ThemeColor::spec_from_rgb8(39, 174, 96),
        warning: ThemeColor::spec_from_rgb8(246, 116, 0),
        danger: ThemeColor::spec_from_rgb8(218, 68, 83),
    }
}

/// KDE Breeze dark theme palette.
pub open spec fn breeze_dark() -> ThemePalette {
    ThemePalette {
        background: ThemeColor::spec_from_rgb8(20, 22, 24),
        foreground: ThemeColor::spec_from_rgb8(252, 252, 252),
        accent: ThemeColor::spec_from_rgb8(61, 174, 233),
        success: ThemeColor::spec_from_rgb8(39, 174, 96),
        warning: ThemeColor::spec_from_rgb8(246, 116, 0),
        danger: ThemeColor::spec_from_rgb8(218, 68, 83),
    }
}

/// The built-in palette for a desktop family and scheme, before any
/// high-contrast override or accent substitution.
pub open spec fn builtin_palette(kind: ThemeKind, scheme: ThemeScheme) -> ThemePalette {
    match kind {
        ThemeKind::Windows => match scheme {
            ThemeScheme::Light => fluent_light(),
            ThemeScheme::Dark => fluent_dark(),
        },
        ThemeKind::MacOS => match scheme {
            ThemeScheme::Light => aqua_light(),
            ThemeScheme::Dark => aqua_dark(),
        },
        ThemeKind::Gtk => match scheme {
            ThemeScheme::Light => adwaita_light(),
            ThemeScheme::Dark => adwaita_dark(),
        },
        ThemeKind::Qt => match scheme {
            ThemeScheme::Light => breeze_light(),
            ThemeScheme::Dark => breeze_dark(),
        },
    }
}

impl ThemePalette {
    /// Every channel of every field is inside the valid range.
    pub open spec fn wf(self) -> bool {
        self.background.wf() && self.foreground.wf() && self.accent.wf() && self.success.wf()
            && self.warning.wf() && self.danger.wf()
    }

    /// What `system_palette` returns: the built-in table entry, with
    /// background and foreground overridden to the pure extremes when the
    /// contrast is high. The override always wins over the table value.
    pub open spec fn spec_system_palette(
        kind: ThemeKind,
        scheme: ThemeScheme,
        contrast: ThemeContrast,
    ) -> ThemePalette {
        let table = builtin_palette(kind, scheme);
        if contrast == ThemeContrast::High {
            match scheme {
                ThemeScheme::Light => ThemePalette {
                    background: ThemeColor::spec_white(),
                    foreground: ThemeColor::spec_black(),
                    ..table
                },
                ThemeScheme::Dark => ThemePalette {
                    background: ThemeColor::spec_black(),
                    foreground: ThemeColor::spec_white(),
                    ..table
                },
            }
        } else {
            table
        }
    }

    /// Get the system palette for the given theme kind, scheme, and contrast.
    pub fn system_palette(kind: ThemeKind, scheme: ThemeScheme, contrast: ThemeContrast) -> (p:
        ThemePalette)
        ensures
            p == ThemePalette::spec_system_palette(kind, scheme, contrast),
            p.wf(),
    {
        let mut palette = match kind {
            ThemeKind::Windows => match scheme {
                ThemeScheme::Light => ThemePalette {
                    background: ThemeColor::from_rgb8(250, 250, 250),
                    foreground: ThemeColor::from_rgb8(36, 36, 36),
                    accent: ThemeColor::from_rgb8(15, 108, 189),
                    success: ThemeColor::from_rgb8(14, 112, 14),
                    warning: ThemeColor::from_rgb8(188, 75, 9),
                    danger: ThemeColor::from_rgb8(177, 14, 28),
                },
                ThemeScheme::Dark => ThemePalette {
                    background: ThemeColor::from_rgb8(31, 31, 31),
                    foreground: ThemeColor::from_rgb8(255, 255, 255),
                    accent: ThemeColor::from_rgb8(71, 158, 245),
                    success: ThemeColor::from_rgb8(84, 176, 84),
                    warning: ThemeColor::from_rgb8(250, 160, 107),
                    danger: ThemeColor::from_rgb8(220, 98, 109),
                },
            },
            ThemeKind::MacOS => match scheme {
                ThemeScheme::Light => ThemePalette {
                    background: ThemeColor::from_rgb8(229, 229, 234),
                    foreground: ThemeColor::from_rgb8(28, 28, 30),
                    accent: ThemeColor::from_rgb8(0, 136, 255),
                    success: ThemeColor::from_rgb8(52, 199, 89),
                    warning: ThemeColor::from_rgb8(255, 141, 40),
                    danger: ThemeColor::from_rgb8(255, 56, 60),
                },
                ThemeScheme::Dark => ThemePalette {
                    background: ThemeColor::from_rgb8(44, 44, 46),
                    foreground: ThemeColor::from_rgb8(242, 242, 247),
                    accent: ThemeColor::from_rgb8(0, 145, 255),
                    success: ThemeColor::from_rgb8(48, 209, 88),
                    warning: ThemeColor::from_rgb8(255, 146, 48),
                    danger: ThemeColor::from_rgb8(255, 66, 69),
                },
            },
            ThemeKind::Gtk => match scheme {
                ThemeScheme::Light => ThemePalette {
                    background: ThemeColor::from_rgb8(246, 245, 244),
                    foreground: ThemeColor::from_rgb8(25, 25, 25),
                    accent: ThemeColor::from_rgb8(61, 174, 233),
                    success: ThemeColor::from_rgb8(39, 174, 96),
                    warning: ThemeColor::from_rgb8(246, 116, 0),
                    danger: ThemeColor::from_rgb8(218, 68, 83),
                },
                ThemeScheme::Dark => ThemePalette {
                    background: ThemeColor::from_rgb8(45, 45, 45),
                    foreground: ThemeColor::from_rgb8(255, 255, 255),
                    accent: ThemeColor::from_rgb8(61, 174, 233),
                    success: ThemeColor::from_rgb8(39, 174, 96),
                    warning: ThemeColor::from_rgb8(246, 116, 0),
                    danger: ThemeColor::from_rgb8(218, 68, 83),
                },
            },
            ThemeKind::Qt => match scheme {
                ThemeScheme::Light => ThemePalette {
                    background: ThemeColor::from_rgb8(255, 255, 255),
                    foreground: ThemeColor::from_rgb8(35, 38, 41),
                    accent: ThemeColor::from_rgb8(61, 174, 233),
                    success: ThemeColor::from_rgb8(39, 174, 96),
                    warning: ThemeColor::from_rgb8(246, 116, 0),
                    danger: ThemeColor::from_rgb8(218, 68, 83),
                },
                ThemeScheme::Dark => ThemePalette {
                    background: ThemeColor::from_rgb8(20, 22, 24),
                    foreground: ThemeColor::from_rgb8(252, 252, 252),
                    accent: ThemeColor::from_rgb8(61, 174, 233),
                    success: ThemeColor::from_rgb8(39, 174, 96),
                    warning: ThemeColor::from_rgb8(246, 116, 0),
                    danger: ThemeColor::from_rgb8(218, 68, 83),
                },
            },
        };
        if contrast == ThemeContrast::High {
            match scheme {
                ThemeScheme::Light => {
                    palette.background = ThemeColor::white();
                    palette.foreground = ThemeColor::black();
                },
                ThemeScheme::Dark => {
                    palette.background = ThemeColor::black();
                    palette.foreground = ThemeColor::white();
                },
            }
        }
        palette
    }

    /// What `derive_palette` returns: the system palette with the live accent
    /// color substituted, when one was obtainable.
    pub open spec fn spec_derive_palette(
        kind: ThemeKind,
        scheme: ThemeScheme,
        contrast: ThemeContrast,
        accent: Option<ThemeAccent>,
    ) -> ThemePalette {
        let table = ThemePalette::spec_system_palette(kind, scheme, contrast);
        match accent {
            Some(a) => ThemePalette { accent: a.spec_to_color(), ..table },
            None => table,
        }
    }

    /// Derive the full palette: select the system palette, then substitute
    /// the live accent color if one was obtainable; otherwise the table's own
    /// accent stands.
    pub fn derive_palette(
        kind: ThemeKind,
        scheme: ThemeScheme,
        contrast: ThemeContrast,
        accent: Option<ThemeAccent>,
    ) -> (p: ThemePalette)
        ensures
            p == ThemePalette::spec_derive_palette(kind, scheme, contrast, accent),
            accent matches Some(a) ==> p.accent == a.spec_to_color(),
            accent is None ==> p.accent == ThemePalette::spec_system_palette(
                kind,
                scheme,
                contrast,
            ).accent,
    {
        let mut palette = ThemePalette::system_palette(kind, scheme, contrast);
        match accent {
            Some(a) => {
                palette.accent = a.to_color();
            },
            None => {},
        }
        palette
    }
}

/// Every channel of every built-in palette is inside the valid range, for
/// every desktop family, scheme and contrast, high-contrast overrides
/// included.
pub proof fn lemma_palette_channels_in_range(
    kind: ThemeKind,
    scheme: ThemeScheme,
    contrast: ThemeContrast,
)
    ensures
        ThemePalette::spec_system_palette(kind, scheme, contrast).wf(),
{
}

/// With high contrast, background and foreground are always the two pure
/// extremes, overriding any table value: dark-on-light for the light scheme
/// and light-on-dark for the dark scheme.
pub proof fn lemma_high_contrast_extremes(kind: ThemeKind, scheme: ThemeScheme)
    ensures
        scheme == ThemeScheme::Light ==> ThemePalette::spec_system_palette(
            kind,
            scheme,
            ThemeContrast::High,
        ).background == ThemeColor::spec_white(),
        scheme == ThemeScheme::Light ==> ThemePalette::spec_system_palette(
            kind,
            scheme,
            ThemeContrast::High,
        ).foreground == ThemeColor::spec_black(),
        scheme == ThemeScheme::Dark ==> ThemePalette::spec_system_palette(
            kind,
            scheme,
            ThemeContrast::High,
        ).background == ThemeColor::spec_black(),
        scheme == ThemeScheme::Dark ==> ThemePalette::spec_system_palette(
            kind,
            scheme,
            ThemeContrast::High,
        ).foreground == ThemeColor::spec_white(),
{
}

/// With normal contrast, the system palette is exactly the built-in table
/// entry, for every desktop family and scheme.
pub proof fn lemma_normal_contrast_matches_table(kind: ThemeKind, scheme: ThemeScheme)
    ensures
        ThemePalette::spec_system_palette(kind, scheme, ThemeContrast::Normal) == builtin_palette(
            kind,
            scheme,
        ),
{
}

/// Accent substitution: with a live accent color the derived palette's accent
/// field equals the supplied color exactly, and nothing else changes; with no
/// accent the derived palette is exactly the system palette.
pub proof fn lemma_accent_substitution(
    kind: ThemeKind,
    scheme: ThemeScheme,
    contrast: ThemeContrast,
    accent: Option<ThemeAccent>,
)
    ensures
        accent matches Some(a) ==> ThemePalette::spec_derive_palette(kind, scheme, contrast, accent)
            == (ThemePalette {
            accent: a.spec_to_color(),
            ..ThemePalette::spec_system_palette(kind, scheme, contrast)
        }),
        accent is None ==> ThemePalette::spec_derive_palette(kind, scheme, contrast, accent)
            == ThemePalette::spec_system_palette(kind, scheme, contrast),
{
}

} // verus!
