use vstd::prelude::*;

verus! {

/// A recording stand-in for the process-global raw-mode flag of the
/// terminal. The real flag lives in the terminal driver, where proofs
/// cannot see it; this double holds the flag as a plain value and
/// counts the toggle calls, so that the probe's save/restore discipline
/// can be stated, proved and exercised against it.
pub struct RawModeToggles {
    /// whether raw mode is on
    pub raw: bool,
    /// how many times `enable` was called
    pub enables: u32,
    /// how many times `disable` was called
    pub disables: u32,
}

impl RawModeToggles {
    /// A fresh double, with the flag in the given state and nothing
    /// recorded yet.
    pub fn new(raw: bool) -> (t: Self)
        ensures
            t.raw == raw,
            t.enables == 0,
            t.disables == 0,
    {
        RawModeToggles { raw, enables: 0, disables: 0 }
    }

    /// Whether raw mode is on.
    pub fn is_enabled(&self) -> (r: bool)
        ensures
            r == self.raw,
    {
        self.raw
    }

    /// Switch raw mode on, and record the call.
    pub fn enable(&mut self)
        requires
            old(self).enables < u32::MAX,
        ensures
            final(self).raw,
            final(self).enables == old(self).enables + 1,
            final(self).disables == old(self).disables,
    {
        self.raw = true;
        self.enables = self.enables + 1;
    }

    /// Switch raw mode off, and record the call.
    pub fn disable(&mut self)
        requires
            old(self).disables < u32::MAX,
        ensures
            !final(self).raw,
            final(self).disables == old(self).disables + 1,
            final(self).enables == old(self).enables,
    {
        self.raw = false;
        self.disables = self.disables + 1;
    }
}

/// The probe's raw-mode discipline, replayed against a recording
/// double: switch raw mode on only if it was off, run the exchange
/// (whose success or failure is handed in as `query_ok`), then switch
/// raw mode back off only if this call was the one that switched it on.
///
/// Whatever the exchange did, the flag comes back to its prior state
/// and enables and disables stay balanced: a session that found raw
/// mode already on toggles nothing at all, and one that found it off
/// toggles exactly once each way. The terminal is never left in raw
/// mode when it was not already there, and a caller already managing
/// raw mode is left undisturbed.
pub fn raw_mode_session(t: &mut RawModeToggles, query_ok: bool) -> (r: bool)
    requires
        old(t).enables < u32::MAX,
        old(t).disables < u32::MAX,
    ensures
        final(t).raw == old(t).raw,
        final(t).enables - old(t).enables == final(t).disables - old(t).disables,
        old(t).raw ==> final(t).enables == old(t).enables
            && final(t).disables == old(t).disables,
        !old(t).raw ==> final(t).enables == old(t).enables + 1
            && final(t).disables == old(t).disables + 1,
        r == query_ok,
{
    let switch_to_raw = !t.is_enabled();
    if switch_to_raw {
        t.enable();
    }
    let res = query_ok;
    if switch_to_raw {
        t.disable();
    }
    res
}

} // verus!
