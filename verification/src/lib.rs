//! Is the terminal dark or light?
//!
//! This crate looks for the terminal's background color and proves what
//! it can about the search: the reply and environment parsers, the
//! palette table, the luma arithmetic and the raw-mode bookkeeping all
//! carry contracts checked by Verus.
//!
//! Two strategies are tried in order:
//!
//! * the "dynamic colors" OSC escape sequence: a query written to the
//!   terminal, answered on its input stream with a precise RGB value;
//! * the `COLORFGBG` environment variable, whose last token is the
//!   background color as an ANSI palette code.

use vstd::prelude::*;

pub mod ansi_to_rgb;
pub mod color;
pub mod env;
pub mod error;
pub mod raw_mode;
pub mod xterm;

pub use color::AnsiColor;
pub use color::Color;
pub use color::Rgb;
pub use error::TlError;

verus! {

/// Try to determine the background color of the terminal.
///
/// The result may come as Ansi or Rgb, depending on where the
/// information has been found: the terminal itself is asked first and
/// answers with a precise RGB value; when that fails, the value of the
/// `COLORFGBG` environment variable — read by the caller, since this
/// library does not touch the environment, and handed in here — gives
/// a palette code. Only when the fallback fails too does an error come
/// out, and it is always `Unsupported`.
pub fn background_color(colorfgbg: Option<&str>) -> (r: Result<Color, TlError>)
    ensures
        match r {
            Ok(c) => match c {
                Color::Rgb(rgb) => exists|s: Seq<char>|
                    #[trigger] xterm::valid_reply(s) && rgb == xterm::reply_rgb(s),
                Color::Ansi(ansi) => env::colorfgbg_gives(colorfgbg, ansi),
            },
            Err(e) => e is Unsupported && !(exists|ansi: AnsiColor|
                #[trigger] env::colorfgbg_gives(colorfgbg, ansi)),
        },
{
    let xterm_color = xterm::query_bg_color();
    if let Ok(xterm_color) = xterm_color {
        return Ok(Color::Rgb(xterm_color));
    }
    let env_color = env::bg_color(colorfgbg);
    if let Ok(env_color) = env_color {
        return Ok(Color::Ansi(env_color));
    }
    Err(TlError::Unsupported)
}

} // verus!
