use vstd::prelude::*;

use crate::color::Rgb;

verus! {

/// The RGB value of one level of the 6x6x6 color cube (palette codes 16
/// to 231): level 0 is 0, level `v > 0` is `40 * v + 55`.
pub open spec fn cube_level(v: int) -> int {
    if v == 0 {
        0
    } else {
        40 * v + 55
    }
}

/// The RGB values of the 16 low palette codes. There is no standard for
/// them and terminals let the user redefine them, so the table only
/// distinguishes dark, medium and light entries.
pub open spec fn spec_base_rgb(code: u8) -> Rgb {
    if code == 7 {
        Rgb { r: 192, g: 192, b: 192 }
    } else if code == 9 || code == 11 || code == 13 || code == 15 {
        Rgb { r: 255, g: 255, b: 255 }
    } else if code == 1 || code == 3 || code == 5 || code == 8 {
        Rgb { r: 128, g: 128, b: 128 }
    } else {
        Rgb { r: 0, g: 0, b: 0 }
    }
}

/// RGB value of an ANSI palette code: 16 terminal-defined low entries,
/// then the 6x6x6 color cube, then 24 gray levels from 8 to 238.
pub open spec fn spec_lookup(code: u8) -> Rgb {
    let c = code as int;
    if c < 16 {
        spec_base_rgb(code)
    } else if c < 232 {
        let k = c - 16;
        Rgb {
            r: cube_level(k / 36) as u16,
            g: cube_level((k / 6) % 6) as u16,
            b: cube_level(k % 6) as u16,
        }
    } else {
        let v = (8 + 10 * (c - 232)) as u16;
        Rgb { r: v, g: v, b: v }
    }
}

/// One level of the color cube, as executable code.
fn level(v: u8) -> (l: u16)
    requires
        v < 6,
    ensures
        l as int == cube_level(v as int),
{
    if v == 0 {
        0
    } else {
        40 * (v as u16) + 55
    }
}

/// The 16 low palette entries, as executable code.
fn base_rgb(code: u8) -> (c: Rgb)
    requires
        code < 16,
    ensures
        c == spec_base_rgb(code),
{
    if code == 7 {
        Rgb { r: 192, g: 192, b: 192 }
    } else if code == 9 || code == 11 || code == 13 || code == 15 {
        Rgb { r: 255, g: 255, b: 255 }
    } else if code == 1 || code == 3 || code == 5 || code == 8 {
        Rgb { r: 128, g: 128, b: 128 }
    } else {
        Rgb { r: 0, g: 0, b: 0 }
    }
}

/// Look a palette code up: the RGB value of that ANSI color.
pub fn lookup(code: u8) -> (c: Rgb)
    ensures
        c == spec_lookup(code),
{
    if code < 16 {
        base_rgb(code)
    } else if code < 232 {
        let k: u8 = code - 16;
        let r: u16 = level(k / 36);
        let g: u16 = level((k / 6) % 6);
        let b: u16 = level(k % 6);
        Rgb { r, g, b }
    } else {
        let v: u16 = 8 + 10 * ((code - 232) as u16);
        Rgb { r: v, g: v, b: v }
    }
}

} // verus!
