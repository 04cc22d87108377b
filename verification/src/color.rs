use vstd::prelude::*;

use crate::ansi_to_rgb;

verus! {

/// A color, as one of the two sources can report it: either an ANSI
/// palette code, or a concrete RGB value.
#[derive(Clone, Copy, Debug)]
pub enum Color {
    Ansi(AnsiColor),
    Rgb(Rgb),
}

impl Color {
    /// The RGB value this color resolves to: a palette code goes
    /// through the palette table, an RGB value is already concrete.
    pub open spec fn spec_rgb(self) -> Rgb {
        match self {
            Color::Ansi(ansi) => ansi_to_rgb::spec_lookup(ansi.code),
            Color::Rgb(rgb) => rgb,
        }
    }

    /// Resolve the color to a concrete RGB value.
    pub fn rgb(self) -> (c: Rgb)
        ensures
            c == self.spec_rgb(),
    {
        match self {
            Color::Ansi(ansi) => ansi.to_rgb(),
            Color::Rgb(rgb) => rgb,
        }
    }

    /// The luma of the resolved RGB value, as a numerator over
    /// [`LUMA_DENOM`]: 0 is black, [`LUMA_DENOM`] is white.
    pub fn luma_num(self) -> (n: u32)
        ensures
            n == spec_luma_num(self.spec_rgb()),
            n <= LUMA_DENOM,
    {
        self.rgb().luma_num()
    }
}

/// Ansi Color Code
#[derive(Clone, Copy, Debug, PartialEq, Eq, Structural)]
pub struct AnsiColor {
    pub code: u8,
}

impl AnsiColor {
    /// Wrap a palette code.
    pub fn new(code: u8) -> (c: Self)
        ensures
            c.code == code,
    {
        AnsiColor { code }
    }

    /// Look the code up in the ANSI palette.
    pub fn to_rgb(self) -> (c: Rgb)
        ensures
            c == ansi_to_rgb::spec_lookup(self.code),
    {
        ansi_to_rgb::lookup(self.code)
    }
}

/// RGB color, with u16 components
#[derive(Clone, Copy, Debug, PartialEq, Eq, Structural)]
pub struct Rgb {
    /// red
    pub r: u16,
    /// green
    pub g: u16,
    /// blue
    pub b: u16,
}

/// The weight of the red channel in the luma sum, out of [`LUMA_WEIGHT_SUM`].
pub const LUMA_WEIGHT_R: u32 = 2627;

/// The weight of the green channel in the luma sum, out of [`LUMA_WEIGHT_SUM`].
pub const LUMA_WEIGHT_G: u32 = 6780;

/// The weight of the blue channel in the luma sum, out of [`LUMA_WEIGHT_SUM`].
pub const LUMA_WEIGHT_B: u32 = 593;

/// The sum of the three channel weights.
pub const LUMA_WEIGHT_SUM: u32 = 10000;

/// The luma numerator of pure white: dividing a luma numerator by this
/// value gives the luma in `[0, 1]`.
pub const LUMA_DENOM: u32 = 655350000;

/// The luma of a color, scaled by [`LUMA_DENOM`]: a weighted sum of the
/// channels, the weights approximating perceptual luminance.
///
/// Reference: <https://en.wikipedia.org/wiki/Luma_(video)>
pub open spec fn spec_luma_num(c: Rgb) -> int {
    LUMA_WEIGHT_R * c.r + LUMA_WEIGHT_G * c.g + LUMA_WEIGHT_B * c.b
}

impl Rgb {
    /// Create a new RGB color from its components
    pub fn new(r: u16, g: u16, b: u16) -> (c: Self)
        ensures
            c.r == r,
            c.g == g,
            c.b == b,
    {
        Rgb { r, g, b }
    }

    /// Compute the luma of the color as a numerator over [`LUMA_DENOM`]:
    /// 0 is black, [`LUMA_DENOM`] is white. The luma in `[0, 1]` is this
    /// value divided by [`LUMA_DENOM`].
    pub fn luma_num(self) -> (n: u32)
        ensures
            n == spec_luma_num(self),
            n <= LUMA_DENOM,
    {
        LUMA_WEIGHT_R * (self.r as u32) + LUMA_WEIGHT_G * (self.g as u32) + LUMA_WEIGHT_B * (
        self.b as u32)
    }
}

/// The luma numerator never moves down when a channel moves up: it is
/// monotonically non-decreasing in each channel, the others held fixed
/// (and therefore in all three at once).
pub proof fn lemma_luma_num_monotonic(a: Rgb, b: Rgb)
    requires
        a.r <= b.r,
        a.g <= b.g,
        a.b <= b.b,
    ensures
        spec_luma_num(a) <= spec_luma_num(b),
{
}

/// The luma numerator of pure black is 0; the luma numerator of pure
/// white is exactly [`LUMA_DENOM`], so the luma in `[0, 1]` reaches both
/// ends of the interval exactly.
pub proof fn lemma_luma_num_range()
    ensures
        spec_luma_num(Rgb { r: 0, g: 0, b: 0 }) == 0,
        spec_luma_num(Rgb { r: u16::MAX, g: u16::MAX, b: u16::MAX }) == LUMA_DENOM,
{
}

} // verus!
