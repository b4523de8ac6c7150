//! Theme value model: scheme, contrast, desktop-environment kind, and colors.

mod palette;

pub use palette::ThemePalette;

use vstd::prelude::*;

verus! {

/// Theme scheme: the binary light/dark appearance preference.
#[derive(Debug, PartialEq, Eq, Structural, Clone, Copy)]
pub enum ThemeScheme {
    /// Light mode
    Light,
    /// Dark mode
    Dark,
}

impl Default for ThemeScheme {
    /// The fallback scheme when the platform cannot answer.
    fn default() -> (r: Self)
        ensures
            r == ThemeScheme::Dark,
    {
        ThemeScheme::Dark
    }
}

/// Theme contrast: the accessibility preference for exaggerated
/// foreground/background separation.
#[derive(Debug, PartialEq, Eq, Structural, Clone, Copy)]
pub enum ThemeContrast {
    /// Normal contrast
    Normal,
    /// High contrast
    High,
}

impl Default for ThemeContrast {
    /// The fallback contrast when the platform cannot answer.
    fn default() -> (r: Self)
        ensures
            r == ThemeContrast::Normal,
    {
        ThemeContrast::Normal
    }
}

/// Theme kind: the desktop-environment family.
#[derive(Debug, PartialEq, Eq, Structural, Clone, Copy)]
pub enum ThemeKind {
    /// Microsoft Windows
    Windows,
    /// Apple MacOS
    MacOS,
    /// GTK (GNOME)
    Gtk,
    /// Qt (KDE)
    Qt,
}

impl Default for ThemeKind {
    /// The fallback kind for the compiled target family.
    fn default() -> (r: Self)
        ensures
            r == ThemeKind::Gtk,
    {
        ThemeKind::Gtk
    }
}

/// A color channel runs from `0` to `CHANNEL_MAX` in fixed-point steps;
/// `CHANNEL_MAX` stands for `1.0`. The value is `255 * 4000`, so every 8-bit
/// channel converts exactly (one 8-bit step is `4000` fixed-point steps).
pub const CHANNEL_MAX: u32 = 1020000;

/// One fixed-point step of an 8-bit channel: `CHANNEL_MAX / 255`.
pub const CHANNEL_STEP: u32 = 4000;

/// Theme color: three fixed-point channels, no alpha (always opaque).
#[derive(Debug, PartialEq, Eq, Structural, Clone, Copy)]
pub struct ThemeColor {
    /// Red component (`0` to `CHANNEL_MAX`)
    pub red: u32,
    /// Green component (`0` to `CHANNEL_MAX`)
    pub green: u32,
    /// Blue component (`0` to `CHANNEL_MAX`)
    pub blue: u32,
}

impl ThemeColor {
    /// Every channel is inside the valid range.
    pub open spec fn wf(self) -> bool {
        self.red <= CHANNEL_MAX && self.green <= CHANNEL_MAX && self.blue <= CHANNEL_MAX
    }

    /// White (`#FFFFFF`) as a spec value.
    pub open spec fn spec_white() -> ThemeColor {
        ThemeColor { red: CHANNEL_MAX, green: CHANNEL_MAX, blue: CHANNEL_MAX }
    }

    /// Black (`#000000`) as a spec value.
    pub open spec fn spec_black() -> ThemeColor {
        ThemeColor { red: 0, green: 0, blue: 0 }
    }

    /// White color (`#FFFFFF`).
    pub fn white() -> (c: ThemeColor)
        ensures
            c == ThemeColor::spec_white(),
            c.wf(),
    {
        ThemeColor { red: CHANNEL_MAX, green: CHANNEL_MAX, blue: CHANNEL_MAX }
    }

    /// Black color (`#000000`).
    pub fn black() -> (c: ThemeColor)
        ensures
            c == ThemeColor::spec_black(),
            c.wf(),
    {
        ThemeColor { red: 0, green: 0, blue: 0 }
    }

    /// The color an 8-bit channel triple stands for.
    pub open spec fn spec_from_rgb8(red: u8, green: u8, blue: u8) -> ThemeColor {
        ThemeColor {
            red: (red * CHANNEL_STEP) as u32,
            green: (green * CHANNEL_STEP) as u32,
            blue: (blue * CHANNEL_STEP) as u32,
        }
    }

    /// Create a color from RGB 8-bit values. Exact: `255` maps to
    /// `CHANNEL_MAX` (that is, `1.0`) and `0` maps to `0`.
    pub fn from_rgb8(red: u8, green: u8, blue: u8) -> (c: ThemeColor)
        ensures
            c == ThemeColor::spec_from_rgb8(red, green, blue),
            c.wf(),
    {
        ThemeColor {
            red: red as u32 * CHANNEL_STEP,
            green: green as u32 * CHANNEL_STEP,
            blue: blue as u32 * CHANNEL_STEP,
        }
    }
}

/// Weights of the linear RGB→LMS transform, per LMS row, in parts of
/// `LMS_SCALE`. Each row sums to `LMS_SCALE` exactly, so a gray input maps to
/// itself.
pub const LMS_SCALE: u64 = 100000000;

/// Red weight of the L row.
pub const WEIGHT_L_RED: u64 = 41222146;

/// Green weight of the L row.
pub const WEIGHT_L_GREEN: u64 = 53633255;

/// Blue weight of the L row.
pub const WEIGHT_L_BLUE: u64 = 5144599;

/// Red weight of the M row.
pub const WEIGHT_M_RED: u64 = 21190350;

/// Green weight of the M row.
pub const WEIGHT_M_GREEN: u64 = 68069950;

/// Blue weight of the M row.
pub const WEIGHT_M_BLUE: u64 = 10739700;

/// Red weight of the S row.
pub const WEIGHT_S_RED: u64 = 8830246;

/// Green weight of the S row.
pub const WEIGHT_S_GREEN: u64 = 28171885;

/// Blue weight of the S row.
pub const WEIGHT_S_BLUE: u64 = 62997869;

/// Weight of the cube-rooted L value in the Oklab lightness, in parts of
/// `LMS_SCALE`.
pub const OKLAB_L_WEIGHT: u64 = 21045426;

/// Weight of the cube-rooted M value in the Oklab lightness, in parts of
/// `LMS_SCALE`.
pub const OKLAB_M_WEIGHT: u64 = 79361780;

/// Weight of the cube-rooted S value in the Oklab lightness, in parts of
/// `LMS_SCALE`; this one is subtracted.
pub const OKLAB_S_WEIGHT: u64 = 407205;

/// Half the lightness scale: a color is dark when its lightness is below
/// this, in parts of `LMS_SCALE * CHANNEL_MAX`.
pub const HALF_LIGHTNESS: u64 = 51000000000000;

impl ThemeColor {
    /// The L response of a color: the weighted channel sum, back on the
    /// channel scale.
    pub open spec fn lms_l(self) -> int {
        (WEIGHT_L_RED * self.red + WEIGHT_L_GREEN * self.green + WEIGHT_L_BLUE * self.blue) as int
            / LMS_SCALE as int
    }

    /// The M response of a color.
    pub open spec fn lms_m(self) -> int {
        (WEIGHT_M_RED * self.red + WEIGHT_M_GREEN * self.green + WEIGHT_M_BLUE * self.blue) as int
            / LMS_SCALE as int
    }

    /// The S response of a color.
    pub open spec fn lms_s(self) -> int {
        (WEIGHT_S_RED * self.red + WEIGHT_S_GREEN * self.green + WEIGHT_S_BLUE * self.blue) as int
            / LMS_SCALE as int
    }

    /// The cube root of an LMS response, on the channel scale: the response
    /// is first brought onto the cubed channel scale, so that a full response
    /// of `CHANNEL_MAX` roots to `CHANNEL_MAX`.
    pub open spec fn rooted(response: int) -> int {
        crate::math::cbrt_floor((response * CHANNEL_MAX * CHANNEL_MAX) as nat) as int
    }

    /// Whether a color is dark: its Oklab perceptual lightness is below half
    /// the scale. The lightness is the weighted sum of the cube-rooted LMS
    /// responses; the S term has a negative weight and stands on the other
    /// side of the comparison, so everything is a natural number.
    pub open spec fn spec_is_dark(self) -> bool {
        OKLAB_L_WEIGHT * ThemeColor::rooted(self.lms_l()) + OKLAB_M_WEIGHT * ThemeColor::rooted(
            self.lms_m(),
        ) < OKLAB_S_WEIGHT * ThemeColor::rooted(self.lms_s()) + HALF_LIGHTNESS
    }

    /// Check if a color is dark, by its Oklab perceptual lightness.
    ///
    /// The channels are taken through the standard linear RGB→LMS transform,
    /// cube-rooted, and weighted-summed into the Oklab lightness; the color
    /// is dark iff that lightness is below half the scale.
    pub fn is_dark(&self) -> (r: bool)
        requires
            self.wf(),
        ensures
            r == self.spec_is_dark(),
    {
        let l: u64 = (WEIGHT_L_RED * self.red as u64 + WEIGHT_L_GREEN * self.green as u64
            + WEIGHT_L_BLUE * self.blue as u64) / LMS_SCALE;
        let m: u64 = (WEIGHT_M_RED * self.red as u64 + WEIGHT_M_GREEN * self.green as u64
            + WEIGHT_M_BLUE * self.blue as u64) / LMS_SCALE;
        let s: u64 = (WEIGHT_S_RED * self.red as u64 + WEIGHT_S_GREEN * self.green as u64
            + WEIGHT_S_BLUE * self.blue as u64) / LMS_SCALE;
        proof {
            lemma_lms_response_bounded(*self);
            assert(l as int == self.lms_l());
            assert(m as int == self.lms_m());
            assert(s as int == self.lms_s());
            assert(l * CHANNEL_MAX as u64 <= 1040400000000 && (l * CHANNEL_MAX as u64)
                * CHANNEL_MAX as u64 <= 1061208000000000000 && m * CHANNEL_MAX as u64
                <= 1040400000000 && (m * CHANNEL_MAX as u64) * CHANNEL_MAX as u64
                <= 1061208000000000000 && s * CHANNEL_MAX as u64 <= 1040400000000 && (s
                * CHANNEL_MAX as u64) * CHANNEL_MAX as u64 <= 1061208000000000000)
                by (nonlinear_arith)
                requires
                    l <= 1020000 && m <= 1020000 && s <= 1020000,
                    CHANNEL_MAX == 1020000u32,
            ;
        }
        let root_l = crate::math::icbrt(l * CHANNEL_MAX as u64 * CHANNEL_MAX as u64);
        let root_m = crate::math::icbrt(m * CHANNEL_MAX as u64 * CHANNEL_MAX as u64);
        let root_s = crate::math::icbrt(s * CHANNEL_MAX as u64 * CHANNEL_MAX as u64);
        OKLAB_L_WEIGHT * root_l + OKLAB_M_WEIGHT * root_m < OKLAB_S_WEIGHT * root_s
            + HALF_LIGHTNESS
    }

    /// The gray with every channel at `t`.
    pub open spec fn spec_gray(t: u32) -> ThemeColor {
        ThemeColor { red: t, green: t, blue: t }
    }
}

/// A well-formed color's LMS responses stay on the channel scale.
proof fn lemma_lms_response_bounded(c: ThemeColor)
    requires
        c.wf(),
    ensures
        0 <= c.lms_l() <= CHANNEL_MAX,
        0 <= c.lms_m() <= CHANNEL_MAX,
        0 <= c.lms_s() <= CHANNEL_MAX,
{
    let weighted_l = WEIGHT_L_RED * c.red + WEIGHT_L_GREEN * c.green + WEIGHT_L_BLUE * c.blue;
    let weighted_m = WEIGHT_M_RED * c.red + WEIGHT_M_GREEN * c.green + WEIGHT_M_BLUE * c.blue;
    let weighted_s = WEIGHT_S_RED * c.red + WEIGHT_S_GREEN * c.green + WEIGHT_S_BLUE * c.blue;
    assert(weighted_l <= LMS_SCALE * CHANNEL_MAX && weighted_m <= LMS_SCALE * CHANNEL_MAX
        && weighted_s <= LMS_SCALE * CHANNEL_MAX) by (nonlinear_arith)
        requires
            c.red <= CHANNEL_MAX && c.green <= CHANNEL_MAX && c.blue <= CHANNEL_MAX,
            weighted_l == WEIGHT_L_RED * c.red + WEIGHT_L_GREEN * c.green + WEIGHT_L_BLUE * c.blue,
            weighted_m == WEIGHT_M_RED * c.red + WEIGHT_M_GREEN * c.green + WEIGHT_M_BLUE * c.blue,
            weighted_s == WEIGHT_S_RED * c.red + WEIGHT_S_GREEN * c.green + WEIGHT_S_BLUE * c.blue,
    ;
    assert(weighted_l as int / LMS_SCALE as int <= CHANNEL_MAX) by (nonlinear_arith)
        requires
            weighted_l <= LMS_SCALE * CHANNEL_MAX,
    ;
    assert(weighted_m as int / LMS_SCALE as int <= CHANNEL_MAX) by (nonlinear_arith)
        requires
            weighted_m <= LMS_SCALE * CHANNEL_MAX,
    ;
    assert(weighted_s as int / LMS_SCALE as int <= CHANNEL_MAX) by (nonlinear_arith)
        requires
            weighted_s <= LMS_SCALE * CHANNEL_MAX,
    ;
}

/// On grays, every LMS response is the channel itself: each transform row
/// sums to exactly `LMS_SCALE`.
proof fn lemma_gray_lms_identity(t: u32)
    requires
        t <= CHANNEL_MAX,
    ensures
        ThemeColor::spec_gray(t).lms_l() == t,
        ThemeColor::spec_gray(t).lms_m() == t,
        ThemeColor::spec_gray(t).lms_s() == t,
{
    let g = ThemeColor::spec_gray(t);
    assert(WEIGHT_L_RED * t + WEIGHT_L_GREEN * t + WEIGHT_L_BLUE * t == LMS_SCALE * t);
    assert(WEIGHT_M_RED * t + WEIGHT_M_GREEN * t + WEIGHT_M_BLUE * t == LMS_SCALE * t);
    assert(WEIGHT_S_RED * t + WEIGHT_S_GREEN * t + WEIGHT_S_BLUE * t == LMS_SCALE * t);
    assert((LMS_SCALE * t) as int / LMS_SCALE as int == t) by (nonlinear_arith);
}

/// Pure white is not dark: its lightness is the whole scale.
pub proof fn lemma_white_not_dark()
    ensures
        !ThemeColor::spec_white().spec_is_dark(),
{
    assert(ThemeColor::spec_white() == ThemeColor::spec_gray(CHANNEL_MAX));
    lemma_gray_lms_identity(CHANNEL_MAX);
    assert(1020000int * 1020000 * 1020000 == 1061208000000000000);
    assert(1020001int * 1020001 * 1020001 > 1061208000000000000);
    crate::math::lemma_cbrt_floor_unique(
        (CHANNEL_MAX * CHANNEL_MAX * CHANNEL_MAX) as nat,
        CHANNEL_MAX as nat,
    );
}

/// Pure black is dark: its lightness is zero.
pub proof fn lemma_black_dark()
    ensures
        ThemeColor::spec_black().spec_is_dark(),
{
    assert(ThemeColor::spec_black() == ThemeColor::spec_gray(0));
    lemma_gray_lms_identity(0);
    crate::math::lemma_cbrt_floor_unique(0, 0);
}

/// Darkness is monotone along the gray axis: if a brighter gray is dark, so
/// is every darker one. This is the monotonicity of the perceptual lightness
/// in luminance, stated for the hue with equal channels.
pub proof fn lemma_gray_darkness_monotone(t1: u32, t2: u32)
    requires
        t1 <= t2 <= CHANNEL_MAX,
        ThemeColor::spec_gray(t2).spec_is_dark(),
    ensures
        ThemeColor::spec_gray(t1).spec_is_dark(),
{
    lemma_gray_lms_identity(t1);
    lemma_gray_lms_identity(t2);
    let root1 = ThemeColor::rooted(t1 as int);
    let root2 = ThemeColor::rooted(t2 as int);
    assert(t1 * CHANNEL_MAX * CHANNEL_MAX <= t2 * CHANNEL_MAX * CHANNEL_MAX) by (nonlinear_arith)
        requires
            t1 <= t2,
    ;
    crate::math::lemma_cbrt_floor_mono(
        (t1 * CHANNEL_MAX * CHANNEL_MAX) as nat,
        (t2 * CHANNEL_MAX * CHANNEL_MAX) as nat,
    );
    assert(root1 <= root2);
    // On a gray, the three rooted responses coincide, so darkness reduces to
    // a single product with the positive net weight L + M − S.
    assert(OKLAB_L_WEIGHT * root1 + OKLAB_M_WEIGHT * root1 - OKLAB_S_WEIGHT * root1
        <= OKLAB_L_WEIGHT * root2 + OKLAB_M_WEIGHT * root2 - OKLAB_S_WEIGHT * root2)
        by (nonlinear_arith)
        requires
            0 <= root1 <= root2,
    ;
}

/// Theme accent color, as reported by the platform: the OS-wide highlight
/// color. Channels are fixed-point, as in [`ThemeColor`].
#[derive(Debug, PartialEq, Eq, Structural, Clone, Copy)]
pub struct ThemeAccent {
    /// Red component (`0` to `CHANNEL_MAX`)
    pub red: u32,
    /// Green component (`0` to `CHANNEL_MAX`)
    pub green: u32,
    /// Blue component (`0` to `CHANNEL_MAX`)
    pub blue: u32,
}

impl ThemeAccent {
    /// Every channel is inside the valid range.
    pub open spec fn wf(self) -> bool {
        self.red <= CHANNEL_MAX && self.green <= CHANNEL_MAX && self.blue <= CHANNEL_MAX
    }

    /// The accent as a plain color.
    pub open spec fn spec_to_color(self) -> ThemeColor {
        ThemeColor { red: self.red, green: self.green, blue: self.blue }
    }

    /// The accent as a plain color, for palette substitution.
    pub fn to_color(&self) -> (c: ThemeColor)
        ensures
            c == self.spec_to_color(),
    {
        ThemeColor { red: self.red, green: self.green, blue: self.blue }
    }
}

} // verus!
