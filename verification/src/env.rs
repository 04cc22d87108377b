use vstd::prelude::*;
use vstd::string::StrSliceExecFns;

use crate::color::AnsiColor;
use crate::error::TlError;

verus! {

/// Whether `c` is a decimal digit.
pub open spec fn is_dec_digit(c: char) -> bool {
    '0' <= c && c <= '9'
}

/// The numeric value of a run of decimal digits, most significant
/// first.
pub open spec fn dec_value(s: Seq<char>) -> int
    decreases s.len(),
{
    if s.len() == 0 {
        0
    } else {
        10 * dec_value(s.drop_last()) + (s.last() as int - '0' as int)
    }
}

/// Whether every character of `s` is a decimal digit.
pub open spec fn all_dec_digits(s: Seq<char>) -> bool {
    forall|i: int| 0 <= i < s.len() ==> is_dec_digit(#[trigger] s[i])
}

/// The number a string parses to as a `u8`, if any: an optional leading
/// `+`, then a non-empty run of decimal digits whose value fits in a
/// byte.
pub open spec fn parsed_u8(s: Seq<char>) -> Option<u8> {
    let ds = if s.len() > 0 && s[0] == '+' {
        s.subrange(1, s.len() as int)
    } else {
        s
    };
    if ds.len() > 0 && all_dec_digits(ds) && dec_value(ds) <= 255 {
        Some(dec_value(ds) as u8)
    } else {
        None
    }
}

/// The number of `;` separators in `s`: one less than the number of
/// tokens that splitting on `;` yields.
pub open spec fn semi_count(s: Seq<char>) -> int
    decreases s.len(),
{
    if s.len() == 0 {
        0
    } else {
        semi_count(s.drop_last()) + if s.last() == ';' {
            1int
        } else {
            0int
        }
    }
}

/// The last `;`-separated token of `s`: the suffix after the last `;`,
/// or all of `s` when there is none.
pub open spec fn last_token(s: Seq<char>) -> Seq<char>
    decreases s.len(),
{
    if s.len() == 0 {
        Seq::empty()
    } else if s.last() == ';' {
        Seq::empty()
    } else {
        last_token(s.drop_last()).push(s.last())
    }
}

/// Whether `s` has the shape `COLORFGBG` is expected to have: exactly
/// two tokens (`fg;bg`) or exactly three (`fg;marker;bg`).
pub open spec fn colorfgbg_shape_ok(s: Seq<char>) -> bool {
    semi_count(s) == 1 || semi_count(s) == 2
}

/// Whether the given `COLORFGBG` value (if any) yields the palette
/// color `ansi`: the value is present, has an accepted shape, and its
/// last token parses to the code.
pub open spec fn colorfgbg_gives(v: Option<&str>, ansi: AnsiColor) -> bool {
    v matches Some(s) && colorfgbg_shape_ok(s@) && parsed_u8(last_token(s@)) == Some(ansi.code)
}

/// The value of a run of digits is never negative.
proof fn lemma_dec_value_nonneg(s: Seq<char>)
    requires
        all_dec_digits(s),
    ensures
        dec_value(s) >= 0,
    decreases s.len(),
{
    if s.len() > 0 {
        assert(is_dec_digit(s[s.len() - 1]));
        assert(all_dec_digits(s.drop_last()));
        lemma_dec_value_nonneg(s.drop_last());
    }
}

/// Reading more digits never shrinks the value: the value of a prefix
/// of a digit run is at most the value of the whole run.
proof fn lemma_dec_value_prefix(s: Seq<char>, i: int)
    requires
        0 <= i <= s.len(),
        all_dec_digits(s),
    ensures
        dec_value(s.subrange(0, i)) <= dec_value(s),
    decreases s.len() - i,
{
    if i == s.len() {
        assert(s.subrange(0, i) =~= s);
    } else {
        lemma_dec_value_prefix(s, i + 1);
        let p = s.subrange(0, i);
        let q = s.subrange(0, i + 1);
        assert(q.drop_last() =~= p);
        assert(is_dec_digit(s[i]));
        assert(all_dec_digits(p));
        lemma_dec_value_nonneg(p);
        assert(dec_value(q) == 10 * dec_value(p) + (s[i] as int - '0' as int));
    }
}

/// Parse a string as a `u8` written in decimal, as `str::parse` would:
/// an optional leading `+`, then decimal digits, value at most 255.
pub fn parse_u8_dec(s: &str) -> (r: Option<u8>)
    ensures
        r == parsed_u8(s@),
{
    let n: usize = s.unicode_len();
    let start: usize = if n > 0 && s.get_char(0) == '+' {
        1
    } else {
        0
    };
    let ghost ds = if s@.len() > 0 && s@[0] == '+' {
        s@.subrange(1, s@.len() as int)
    } else {
        s@
    };
    proof {
        assert(ds =~= s@.subrange(start as int, n as int));
    }
    if n == start {
        return None;
    }
    let mut acc: u16 = 0;
    let mut i: usize = start;
    while i < n
        invariant
            start <= i <= n,
            n == s@.len(),
            ds == (if s@.len() > 0 && s@[0] == '+' {
                s@.subrange(1, s@.len() as int)
            } else {
                s@
            }),
            ds == s@.subrange(start as int, n as int),
            all_dec_digits(s@.subrange(start as int, i as int)),
            acc == dec_value(s@.subrange(start as int, i as int)),
            acc <= 255,
        decreases n - i,
    {
        let ghost p = s@.subrange(start as int, i as int);
        let ghost q = s@.subrange(start as int, i + 1);
        proof {
            assert(q.drop_last() =~= p);
        }
        let c = s.get_char(i);
        if !(c >= '0' && c <= '9') {
            proof {
                assert(!is_dec_digit(ds[i - start]));
            }
            return None;
        }
        assert(all_dec_digits(q));
        let d: u16 = (c as u32 - 48) as u16;
        let v: u16 = acc * 10 + d;
        assert(v == dec_value(q));
        if v > 255 {
            proof {
                if all_dec_digits(ds) {
                    assert(q =~= ds.subrange(0, i + 1 - start));
                    lemma_dec_value_prefix(ds, i + 1 - start);
                }
            }
            return None;
        }
        acc = v;
        i = i + 1;
    }
    proof {
        assert(s@.subrange(start as int, n as int) =~= ds);
    }
    Some(acc as u8)
}

/// Parse the content of the `COLORFGBG` variable, which is supposed to
/// be either like `17;45` or like `0;default;15`, with the last token
/// being the ANSI code of the background color.
///
/// Note that there doesn't seem to be any authoritative documentation
/// on the exact format.
pub fn parse_colorfgbg(s: &str) -> (r: Result<AnsiColor, TlError>)
    ensures
        match r {
            Ok(ansi) => colorfgbg_shape_ok(s@) && parsed_u8(last_token(s@)) == Some(ansi.code),
            Err(e) => match e {
                TlError::WrongFormat(t) => t@ == s@ && !colorfgbg_shape_ok(s@),
                TlError::ParseInt(t) => t@ == last_token(s@) && colorfgbg_shape_ok(s@)
                    && parsed_u8(last_token(s@)) is None,
                _ => false,
            },
        },
{
    let n: usize = s.unicode_len();
    let mut semis: usize = 0;
    let mut tok_start: usize = 0;
    let mut i: usize = 0;
    while i < n
        invariant
            i <= n,
            n == s@.len(),
            semis <= i,
            tok_start <= i,
            semis == semi_count(s@.subrange(0, i as int)),
            last_token(s@.subrange(0, i as int)) == s@.subrange(tok_start as int, i as int),
        decreases n - i,
    {
        let ghost p = s@.subrange(0, i as int);
        let ghost q = s@.subrange(0, i + 1);
        proof {
            assert(q.drop_last() =~= p);
        }
        let c = s.get_char(i);
        if c == ';' {
            semis = semis + 1;
            tok_start = i + 1;
        }
        proof {
            assert(last_token(q) =~= s@.subrange(tok_start as int, i + 1));
        }
        i = i + 1;
    }
    proof {
        assert(s@.subrange(0, n as int) =~= s@);
    }
    if semis != 1 && semis != 2 {
        return Err(TlError::WrongFormat(s.to_owned()));
    }
    let tok = s.substring_char(tok_start, n);
    proof {
        assert(tok@ == last_token(s@));
    }
    match parse_u8_dec(tok) {
        Some(code) => Ok(AnsiColor { code }),
        None => Err(TlError::ParseInt(tok.to_owned())),
    }
}

/// Pick the background color out of the `COLORFGBG` environment value,
/// read by the caller and handed in here: absent, the error says so;
/// present, its last token is parsed as an ANSI palette code.
pub fn bg_color(colorfgbg: Option<&str>) -> (r: Result<AnsiColor, TlError>)
    ensures
        match r {
            Ok(ansi) => colorfgbg_gives(colorfgbg, ansi),
            Err(e) => match e {
                TlError::NoColorFgBgEnv => colorfgbg is None,
                TlError::WrongFormat(t) => colorfgbg matches Some(s) && t@ == s@
                    && !colorfgbg_shape_ok(s@),
                TlError::ParseInt(t) => colorfgbg matches Some(s) && t@ == last_token(s@)
                    && colorfgbg_shape_ok(s@) && parsed_u8(last_token(s@)) is None,
                _ => false,
            },
        },
{
    match colorfgbg {
        Some(s) => parse_colorfgbg(s),
        None => Err(TlError::NoColorFgBgEnv),
    }
}

} // verus!
