//! Conversion between nanoseconds and ticks of the cycle counter.

use vstd::prelude::*;

verus! {

/// Nanoseconds in one second.
pub const NANOS_PER_SECOND: u64 = 1_000_000_000;

/// The calibrated speed of the cycle counter, in ticks per second.
///
/// A rate is never zero. Its view is the number of ticks per second.
#[derive(Clone, Copy, Debug, PartialEq, Eq)]
pub struct ClockRate {
    ticks_per_second: u64,
}

impl View for ClockRate {
    type V = nat;

    closed spec fn view(&self) -> nat {
        self.ticks_per_second as nat
    }
}

/// Whole ticks that elapse in `nanos` nanoseconds at `rate` ticks per second.
pub open spec fn ticks_in(rate: nat, nanos: nat) -> nat {
    nanos * rate / (NANOS_PER_SECOND as nat)
}

/// Whole nanoseconds that elapse in `ticks` ticks at `rate` ticks per second.
pub open spec fn nanos_in(rate: nat, ticks: nat) -> nat {
    ticks * (NANOS_PER_SECOND as nat) / rate
}

/// On a counter that advances once per nanosecond, ticks are nanoseconds.
pub proof fn lemma_nanosecond_ticks(span: nat)
    ensures
        ticks_in(NANOS_PER_SECOND as nat, span) == span,
        nanos_in(NANOS_PER_SECOND as nat, span) == span,
{
}

/// The product of two 64-bit quantities fits in 128 bits.
proof fn lemma_product_fits(a: nat, b: nat)
    by (nonlinear_arith)
    requires
        a <= u64::MAX,
        b <= u64::MAX,
    ensures
        a * b <= u64::MAX * u64::MAX,
        u64::MAX * u64::MAX < u128::MAX,
{
}

impl ClockRate {
    #[verifier::type_invariant]
    spec fn inv(self) -> bool {
        self.ticks_per_second > 0
    }

    /// A rate of `ticks_per_second`, or `None` for a counter that does not advance.
    pub fn new(ticks_per_second: u64) -> (rate: Option<ClockRate>)
        ensures
            ticks_per_second == 0 <==> rate is None,
            rate matches Some(r) ==> r@ == ticks_per_second,
    {
        if ticks_per_second == 0 {
            None
        } else {
            Some(ClockRate { ticks_per_second })
        }
    }

    /// The rate of a counter that advances once per nanosecond.
    pub fn nanosecond() -> (rate: ClockRate)
        ensures
            rate@ == NANOS_PER_SECOND,
    {
        ClockRate { ticks_per_second: NANOS_PER_SECOND }
    }

    /// Ticks per second.
    pub fn ticks_per_second(&self) -> (ticks: u64)
        ensures
            ticks == self@,
            ticks > 0,
    {
        proof {
            use_type_invariant(self);
        }
        self.ticks_per_second
    }

    /// Converts a span of nanoseconds to ticks, rounding down; `None` when the
    /// result does not fit in 64 bits.
    pub fn ticks_from_nanos(&self, nanos: u64) -> (ticks: Option<u64>)
        ensures
            ticks == (if ticks_in(self@, nanos as nat) <= u64::MAX {
                Some(ticks_in(self@, nanos as nat) as u64)
            } else {
                None
            }),
    {
        proof {
            use_type_invariant(self);
            lemma_product_fits(nanos as nat, self.ticks_per_second as nat);
        }
        let product: u128 = (nanos as u128) * (self.ticks_per_second as u128);
        let whole: u128 = product / (NANOS_PER_SECOND as u128);
        if whole <= u64::MAX as u128 {
            Some(whole as u64)
        } else {
            None
        }
    }

    /// Converts a span of ticks to nanoseconds, rounding down; `None` when the
    /// result does not fit in 64 bits.
    pub fn nanos_from_ticks(&self, ticks: u64) -> (nanos: Option<u64>)
        ensures
            nanos == (if nanos_in(self@, ticks as nat) <= u64::MAX {
                Some(nanos_in(self@, ticks as nat) as u64)
            } else {
                None
            }),
    {
        proof {
            use_type_invariant(self);
        }
        let product: u128 = (ticks as u128) * (NANOS_PER_SECOND as u128);
        let whole: u128 = product / (self.ticks_per_second as u128);
        if whole <= u64::MAX as u128 {
            Some(whole as u64)
        } else {
            None
        }
    }
}

} // verus!
