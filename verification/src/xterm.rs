use vstd::prelude::*;
use vstd::string::StrSliceExecFns;

use crate::color::Rgb;
use crate::error::TlError;
use xterm_query::XQError;

verus! {

/// Whether `c` is a hexadecimal digit.
pub open spec fn is_hex_digit(c: char) -> bool {
    ('0' <= c && c <= '9') || ('a' <= c && c <= 'f') || ('A' <= c && c <= 'F')
}

/// The value of a hexadecimal digit.
pub open spec fn hex_val(c: char) -> int {
    if '0' <= c && c <= '9' {
        c as int - '0' as int
    } else if 'a' <= c && c <= 'f' {
        c as int - 'a' as int + 10
    } else {
        c as int - 'A' as int + 10
    }
}

/// The prefix every well-formed reply starts with: `ESC ] 11 ; rgb :`.
pub open spec fn reply_prefix() -> Seq<char> {
    seq!['\u{1b}', ']', '1', '1', ';', 'r', 'g', 'b', ':']
}

/// Whether the two characters of `s` at `i` and `i + 1` are hex digits.
pub open spec fn hex_pair_ok(s: Seq<char>, i: int) -> bool {
    is_hex_digit(s[i]) && is_hex_digit(s[i + 1])
}

/// The value of the two hex digits of `s` at `i` and `i + 1`.
pub open spec fn hex_pair(s: Seq<char>, i: int) -> int {
    16 * hex_val(s[i]) + hex_val(s[i + 1])
}

/// Whether a reply has its prefix in place: at least 23 characters,
/// starting with `ESC ] 11 ; rgb :` (9 characters of prefix, then at
/// least 14 characters of color data).
pub open spec fn reply_framed(s: Seq<char>) -> bool {
    s.len() >= 23 && s.subrange(0, 9) == reply_prefix()
}

/// A well-formed reply: the prefix, then color data of the shape
/// `RRRR/GGGG/BBBB`, of which the two leading hex digits of each group
/// are read (most terminals fill 4 digits by doubling their 2).
pub open spec fn valid_reply(s: Seq<char>) -> bool {
    &&& reply_framed(s)
    &&& hex_pair_ok(s, 9)
    &&& hex_pair_ok(s, 14)
    &&& hex_pair_ok(s, 19)
}

/// The color a well-formed reply denotes: each channel is the value of
/// the two leading hex digits of its group.
pub open spec fn reply_rgb(s: Seq<char>) -> Rgb {
    Rgb { r: hex_pair(s, 9) as u16, g: hex_pair(s, 14) as u16, b: hex_pair(s, 19) as u16 }
}

/// The value of one hex digit, or nothing if `c` is not one.
fn hex_digit_val(c: char) -> (r: Option<u8>)
    ensures
        match r {
            Some(v) => is_hex_digit(c) && v as int == hex_val(c),
            None => !is_hex_digit(c),
        },
{
    if c >= '0' && c <= '9' {
        Some((c as u32 - '0' as u32) as u8)
    } else if c >= 'a' && c <= 'f' {
        Some((c as u32 - 'a' as u32 + 10) as u8)
    } else if c >= 'A' && c <= 'F' {
        Some((c as u32 - 'A' as u32 + 10) as u8)
    } else {
        None
    }
}

/// The value of the two hex digits of `s` at `i` and `i + 1`, or
/// nothing if either is not a hex digit.
fn parse_hex_pair(s: &str, i: usize) -> (r: Option<u16>)
    requires
        i < usize::MAX,
        i + 1 < s@.len(),
    ensures
        match r {
            Some(v) => hex_pair_ok(s@, i as int) && v as int == hex_pair(s@, i as int),
            None => !hex_pair_ok(s@, i as int),
        },
{
    let high = hex_digit_val(s.get_char(i));
    let low = hex_digit_val(s.get_char(i + 1));
    match (high, low) {
        (Some(h), Some(l)) => Some(16 * (h as u16) + (l as u16)),
        _ => None,
    }
}

/// The character the reply prefix holds at `i`.
fn prefix_char(i: usize) -> (c: char)
    requires
        i < 9,
    ensures
        c == reply_prefix()[i as int],
{
    if i == 0 {
        '\u{1b}'
    } else if i == 1 {
        ']'
    } else if i == 2 {
        '1'
    } else if i == 3 {
        '1'
    } else if i == 4 {
        ';'
    } else if i == 5 {
        'r'
    } else if i == 6 {
        'g'
    } else if i == 7 {
        'b'
    } else {
        ':'
    }
}

/// Whether `s` starts with the reply prefix.
fn has_reply_prefix(s: &str) -> (r: bool)
    requires
        s@.len() >= 9,
    ensures
        r == (s@.subrange(0, 9) == reply_prefix()),
{
    let mut i: usize = 0;
    while i < 9
        invariant
            i <= 9,
            s@.len() >= 9,
            forall|j: int| 0 <= j < i ==> s@[j] == reply_prefix()[j],
        decreases 9 - i,
    {
        if s.get_char(i) != prefix_char(i) {
            proof {
                assert(s@.subrange(0, 9)[i as int] == s@[i as int]);
            }
            return false;
        }
        i = i + 1;
    }
    proof {
        assert(s@.subrange(0, 9) =~= reply_prefix());
    }
    true
}

/// Parse a decoded reply against the expected grammar. A reply that is
/// too short or not framed as `ESC ] 11 ; rgb : ...` is a `WrongFormat`
/// error carrying the full text; color data whose leading digits are
/// not hexadecimal is a `ParseInt` error carrying the first bad pair.
pub fn parse_reply(s: &str) -> (r: Result<Rgb, TlError>)
    ensures
        match r {
            Ok(c) => valid_reply(s@) && c == reply_rgb(s@),
            Err(e) => match e {
                TlError::WrongFormat(t) => t@ == s@ && !reply_framed(s@),
                TlError::ParseInt(t) => reply_framed(s@) && !valid_reply(s@) && t@ == (
                if !hex_pair_ok(s@, 9) {
                    s@.subrange(9, 11)
                } else if !hex_pair_ok(s@, 14) {
                    s@.subrange(14, 16)
                } else {
                    s@.subrange(19, 21)
                }),
                _ => false,
            },
        },
{
    let n: usize = s.unicode_len();
    if n < 23 || !has_reply_prefix(s) {
        return Err(TlError::WrongFormat(s.to_owned()));
    }
    let red: u16 = match parse_hex_pair(s, 9) {
        Some(v) => v,
        None => {
            return Err(TlError::ParseInt(s.substring_char(9, 11).to_owned()));
        },
    };
    let green: u16 = match parse_hex_pair(s, 14) {
        Some(v) => v,
        None => {
            return Err(TlError::ParseInt(s.substring_char(14, 16).to_owned()));
        },
    };
    let blue: u16 = match parse_hex_pair(s, 19) {
        Some(v) => v,
        None => {
            return Err(TlError::ParseInt(s.substring_char(19, 21).to_owned()));
        },
    };
    Ok(Rgb::new(red, green, blue))
}

/// For every well-formed reply, each decoded channel is exactly the
/// integer value of the two leading hex digits of its group: decoding
/// is one-directional and loses nothing of what it reads.
pub proof fn lemma_reply_channels(s: Seq<char>)
    requires
        valid_reply(s),
    ensures
        reply_rgb(s).r == 16 * hex_val(s[9]) + hex_val(s[10]),
        reply_rgb(s).g == 16 * hex_val(s[14]) + hex_val(s[15]),
        reply_rgb(s).b == 16 * hex_val(s[19]) + hex_val(s[20]),
{
}

/// The error type of the `xterm_query` crate, declared so that its
/// values can pass through this library; opaque to proofs.
#[verifier::external_type_specification]
#[verifier::external_body]
pub struct ExXQError(XQError);

/// Relies on `xterm_query::query`: writes the query sequence to the
/// terminal's output and waits, at most `timeout_ms` milliseconds, for
/// a reply on its input. Nothing is promised of the reply: the terminal
/// alone decides whether and what to answer.
#[verifier::external_body]
fn xterm_query_raw(q: &str, timeout_ms: u16) -> (r: Result<String, XQError>) {
    xterm_query::query(q, timeout_ms)
}

/// Relies on the variants of `xterm_query::XQError`: sorts that crate's
/// error into this library's closed error set, moving the reply text of
/// a malformed answer along. A missed deadline becomes `Timeout`, reply
/// bytes that were not valid text become `Utf8Decode`, transport
/// failures become `Io`.
#[verifier::external_body]
pub(crate) fn classify_xq_error(e: XQError) -> (r: TlError)
    ensures
        r is Timeout || r is Io || r is Utf8Decode || r is WrongFormat || r is Unsupported,
{
    match e {
        XQError::Timeout => TlError::Timeout,
        XQError::Utf8(_) => TlError::Utf8Decode,
        XQError::WrongFormat(s) => TlError::WrongFormat(s),
        XQError::Unsupported => TlError::Unsupported,
        XQError::IO(_) => TlError::Io,
        XQError::TerminalError(_) => TlError::Io,
        XQError::NixError(_) => TlError::Io,
        XQError::NotAnOSCResponse => TlError::Io,
        XQError::BufferOverflow => TlError::Io,
    }
}

/// Relies on `crossterm::terminal::is_raw_mode_enabled`: reports
/// whether the terminal is currently in raw mode.
#[verifier::external_body]
fn raw_mode_enabled() -> (r: Result<bool, TlError>)
    ensures
        r matches Err(e) ==> e is Io,
{
    match crossterm::terminal::is_raw_mode_enabled() {
        Ok(enabled) => Ok(enabled),
        Err(_) => Err(TlError::Io),
    }
}

/// Relies on `crossterm::terminal::enable_raw_mode`: switches the
/// terminal into raw mode, so that the reply is delivered byte by byte
/// instead of waiting for a newline the terminal never sends.
#[verifier::external_body]
fn enter_raw_mode() -> (r: Result<(), TlError>)
    ensures
        r matches Err(e) ==> e is Io,
{
    match crossterm::terminal::enable_raw_mode() {
        Ok(()) => Ok(()),
        Err(_) => Err(TlError::Io),
    }
}

/// Relies on `crossterm::terminal::disable_raw_mode`: switches the
/// terminal back out of raw mode.
#[verifier::external_body]
fn leave_raw_mode() -> (r: Result<(), TlError>)
    ensures
        r matches Err(e) ==> e is Io,
{
    match crossterm::terminal::disable_raw_mode() {
        Ok(()) => Ok(()),
        Err(_) => Err(TlError::Io),
    }
}

/// Send `q` to the terminal and read the reply within `timeout_ms`
/// milliseconds, switching the terminal into raw mode for the exchange
/// only if it was not already there, and switching it back only if this
/// call was the one that switched it: a caller already managing raw
/// mode is left undisturbed. (The discipline is proved, against a
/// recording double, in `raw_mode::raw_mode_session`.)
fn query(q: &str, timeout_ms: u16) -> (r: Result<String, TlError>)
    ensures
        r matches Err(e) ==> e is Timeout || e is Io || e is Utf8Decode || e is WrongFormat
            || e is Unsupported,
{
    let switch_to_raw = match raw_mode_enabled() {
        Ok(enabled) => !enabled,
        Err(e) => {
            return Err(e);
        },
    };
    if switch_to_raw {
        if let Err(e) = enter_raw_mode() {
            return Err(e);
        }
    }
    let res = match xterm_query_raw(q, timeout_ms) {
        Ok(s) => Ok(s),
        Err(e) => Err(classify_xq_error(e)),
    };
    if switch_to_raw {
        if let Err(e) = leave_raw_mode() {
            return Err(e);
        }
    }
    res
}

/// How long the probe waits for the terminal's reply, in
/// milliseconds: long enough for every tested terminal to answer,
/// short enough that an unresponsive one does not hold the caller up.
pub const QUERY_TIMEOUT_MS: u16 = 100;

/// Query the bg color, using the "dynamic colors" OSC escape sequence.
/// It is sent with a `?` for a query and normally answered by the
/// terminal with a color: a success carries exactly the color that a
/// well-formed reply denoted.
pub fn query_bg_color() -> (r: Result<Rgb, TlError>)
    ensures
        r matches Ok(c) ==> exists|s: Seq<char>| #[trigger] valid_reply(s) && c == reply_rgb(s),
        r matches Err(e) ==> !(e is NoColorFgBgEnv),
{
    match query("\x1b]11;?\x07", QUERY_TIMEOUT_MS) {
        Ok(s) => parse_reply(s.as_str()),
        Err(e) => Err(e),
    }
}

} // verus!
