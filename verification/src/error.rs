use vstd::prelude::*;

verus! {

/// Everything that can go wrong while looking for the terminal's
/// background color. Every failure is reported as one of these values;
/// no function of this crate panics.
#[derive(Debug)]
pub enum TlError {
    /// A read, write or poll on the terminal failed.
    Io,
    /// The terminal did not answer the color query before the deadline.
    Timeout,
    /// The terminal's reply was not valid text.
    Utf8Decode,
    /// A numeric token failed to parse; carries the offending token.
    ParseInt(String),
    /// The reply or the environment value did not match the expected
    /// grammar; carries the full text for diagnostics.
    WrongFormat(String),
    /// The `COLORFGBG` environment variable is absent.
    NoColorFgBgEnv,
    /// No strategy is available on this platform, or every one failed.
    Unsupported,
}

} // verus!
