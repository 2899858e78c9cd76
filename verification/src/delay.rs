//! Conversion of a delay between synthesized key events into the
//! microsecond count the native library takes.

use vstd::prelude::*;

use vstd::arithmetic::div_mod::{lemma_add_mod_noop, lemma_mul_mod_noop_left};

verus! {

/// One more than the largest value the native microsecond argument holds.
pub const MICROSECOND_RANGE: u64 = 0x1_0000_0000;

/// A delay between synthesized key events, as whole seconds plus the
/// nanoseconds of the fractional second.
#[derive(Clone, Copy, Debug)]
pub struct Delay {
    pub seconds: u64,
    pub nanoseconds: u32,
}

/// The microsecond count a delay is forwarded as: seconds times one
/// million, plus the nanoseconds divided by one thousand, truncated to the
/// 32-bit width of the native microsecond argument.
pub open spec fn microseconds_of(d: Delay) -> int {
    (d.seconds * 1_000_000 + d.nanoseconds / 1_000) % (MICROSECOND_RANGE as int)
}

/// The microsecond count for an optional delay; an absent delay is encoded
/// as zero microseconds.
pub open spec fn microseconds_of_optional(d: Option<Delay>) -> int {
    match d {
        Some(d) => microseconds_of(d),
        None => 0,
    }
}

/// Converts a delay to the native microsecond width, exactly as
/// `microseconds_of` states it.  A delay whose microsecond count does not
/// fit in 32 bits is truncated.
pub fn delay_to_microseconds(d: Delay) -> (r: u32)
    ensures
        r as int == microseconds_of(d),
{
    let seconds_low: u64 = d.seconds % MICROSECOND_RANGE;
    let product: u64 = seconds_low * 1_000_000;
    let micros: u64 = product + (d.nanoseconds / 1_000) as u64;
    let r: u32 = (micros % MICROSECOND_RANGE) as u32;
    proof {
        let m = MICROSECOND_RANGE as int;
        let s = d.seconds as int;
        let c = (d.nanoseconds / 1_000) as int;
        lemma_mul_mod_noop_left(s, 1_000_000, m);
        lemma_add_mod_noop(s * 1_000_000, c, m);
        lemma_add_mod_noop((s % m) * 1_000_000, c, m);
        assert(c % m == c);
        assert(r as int == ((s % m) * 1_000_000 + c) % m);
    }
    r
}

/// Converts an optional delay, exactly as `microseconds_of_optional`
/// states it.
pub fn optional_delay_to_microseconds(d: Option<Delay>) -> (r: u32)
    ensures
        r as int == microseconds_of_optional(d),
{
    match d {
        Some(d) => delay_to_microseconds(d),
        None => 0,
    }
}

} // verus!
