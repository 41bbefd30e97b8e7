//! A plain model of a time span, as whole seconds plus a nanosecond
//! remainder, with a checked conversion to whole milliseconds.

use vstd::prelude::*;
use vstd::arithmetic::div_mod::lemma_div_by_multiple;
use vstd::arithmetic::div_mod::lemma_fundamental_div_mod;

verus! {

/// A span of time: `secs` whole seconds plus `nanos` nanoseconds.
///
/// A timeout carried by an outgoing request is data passed through to the
/// transport, never enforced here; the only computation on it is the
/// conversion of its total length to whole milliseconds.
#[derive(Clone, Copy, Debug, PartialEq, Eq, Structural)]
pub struct Duration {
    /// Whole seconds of the span.
    pub secs: u64,
    /// Nanoseconds beyond the whole seconds.
    pub nanos: u32,
}

impl Duration {
    /// The total number of whole milliseconds this span contains.
    pub open spec fn spec_millis(&self) -> int {
        self.secs * 1000 + self.nanos / 1_000_000
    }

    /// A span of `secs` seconds and `nanos` nanoseconds.
    pub fn new(secs: u64, nanos: u32) -> (d: Duration)
        ensures
            d == (Duration { secs, nanos }),
            d.spec_millis() == secs * 1000 + nanos / 1_000_000,
    {
        Duration { secs, nanos }
    }

    /// A span of `secs` whole seconds.
    pub fn from_secs(secs: u64) -> (d: Duration)
        ensures
            d.spec_millis() == secs * 1000,
    {
        Duration { secs, nanos: 0 }
    }

    /// A span of exactly `ms` milliseconds.
    pub fn from_millis(ms: u64) -> (d: Duration)
        ensures
            d.spec_millis() == ms,
    {
        let d = Duration { secs: ms / 1000, nanos: (ms % 1000) as u32 * 1_000_000 };
        proof {
            lemma_fundamental_div_mod(ms as int, 1000);
            lemma_div_by_multiple(ms as int % 1000, 1_000_000);
        }
        d
    }

    /// The total number of whole milliseconds, or `None` if that count does
    /// not fit in an unsigned 64-bit integer.
    pub fn checked_millis(&self) -> (r: Option<u64>)
        ensures
            r is Some <==> self.spec_millis() <= u64::MAX,
            r matches Some(ms) ==> ms == self.spec_millis(),
    {
        let ms: u128 = self.secs as u128 * 1000 + (self.nanos / 1_000_000) as u128;
        if ms <= u64::MAX as u128 {
            Some(ms as u64)
        } else {
            None
        }
    }
}

} // verus!
