use terminal_light::color::LUMA_DENOM;
use terminal_light::AnsiColor;
use terminal_light::Color;
use terminal_light::Rgb;

#[test]
fn rgb_new_keeps_the_components() {
    let c = Rgb::new(1, 2, 3);
    assert_eq!(c.r, 1);
    assert_eq!(c.g, 2);
    assert_eq!(c.b, 3);
}

#[test]
fn palette_low_entries() {
    assert_eq!(AnsiColor::new(0).to_rgb(), Rgb::new(0, 0, 0));
    assert_eq!(AnsiColor::new(1).to_rgb(), Rgb::new(128, 128, 128));
    assert_eq!(AnsiColor::new(7).to_rgb(), Rgb::new(192, 192, 192));
    assert_eq!(AnsiColor::new(8).to_rgb(), Rgb::new(128, 128, 128));
    assert_eq!(AnsiColor::new(15).to_rgb(), Rgb::new(255, 255, 255));
}

#[test]
fn palette_color_cube() {
    assert_eq!(AnsiColor::new(16).to_rgb(), Rgb::new(0, 0, 0));
    assert_eq!(AnsiColor::new(17).to_rgb(), Rgb::new(0, 0, 95));
    assert_eq!(AnsiColor::new(21).to_rgb(), Rgb::new(0, 0, 255));
    assert_eq!(AnsiColor::new(45).to_rgb(), Rgb::new(0, 215, 255));
    assert_eq!(AnsiColor::new(196).to_rgb(), Rgb::new(255, 0, 0));
    assert_eq!(AnsiColor::new(231).to_rgb(), Rgb::new(255, 255, 255));
}

#[test]
fn palette_gray_ramp() {
    assert_eq!(AnsiColor::new(232).to_rgb(), Rgb::new(8, 8, 8));
    assert_eq!(AnsiColor::new(244).to_rgb(), Rgb::new(128, 128, 128));
    assert_eq!(AnsiColor::new(255).to_rgb(), Rgb::new(238, 238, 238));
}

#[test]
fn color_resolves_through_the_palette() {
    let c = Color::Ansi(AnsiColor::new(45));
    assert_eq!(c.rgb(), Rgb::new(0, 215, 255));
}

#[test]
fn color_resolves_rgb_to_itself() {
    let c = Color::Rgb(Rgb::new(10, 20, 30));
    assert_eq!(c.rgb(), Rgb::new(10, 20, 30));
}

#[test]
fn luma_of_black_is_zero() {
    assert_eq!(Rgb::new(0, 0, 0).luma_num(), 0);
    let luma = Rgb::new(0, 0, 0).luma_num() as f32 / LUMA_DENOM as f32;
    assert_eq!(luma, 0.0);
}

#[test]
fn luma_of_white_is_one() {
    assert_eq!(Rgb::new(u16::MAX, u16::MAX, u16::MAX).luma_num(), LUMA_DENOM);
    let luma = Rgb::new(u16::MAX, u16::MAX, u16::MAX).luma_num() as f32 / LUMA_DENOM as f32;
    assert!((luma - 1.0).abs() < 1e-6);
}

#[test]
fn luma_num_matches_the_weighted_float_formula() {
    let c = Rgb::new(0x3838, 0xa4a4, 0xc9c9);
    let scaled = c.luma_num() as f64 / LUMA_DENOM as f64;
    let direct = 0.2627 * (c.r as f64 / 65535.0) + 0.6780 * (c.g as f64 / 65535.0)
        + 0.0593 * (c.b as f64 / 65535.0);
    assert!((scaled - direct).abs() < 1e-9);
}

#[test]
fn luma_is_monotonic_in_each_channel() {
    let base = Rgb::new(100, 200, 300);
    assert!(Rgb::new(101, 200, 300).luma_num() >= base.luma_num());
    assert!(Rgb::new(100, 201, 300).luma_num() >= base.luma_num());
    assert!(Rgb::new(100, 200, 301).luma_num() >= base.luma_num());
}

#[test]
fn luma_orders_dark_below_light() {
    let dark = Color::Ansi(AnsiColor::new(0)).luma_num();
    let light = Color::Ansi(AnsiColor::new(15)).luma_num();
    assert!(dark < light);
}
