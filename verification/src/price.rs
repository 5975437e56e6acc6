//! Prices: raw 128-bit amounts in the smallest token unit, rescaled to whole
//! tokens and a fraction.

use vstd::prelude::*;

verus! {

/// How many of the smallest unit make one whole token: ten to the 24th.
pub const UNITS_PER_TOKEN: u128 = 1_000_000_000_000_000_000_000_000;

/// A decimal amount of tokens: `whole` tokens and `fraction` smallest units
/// on top of them, the fraction being the 24 decimal places of the amount.
#[derive(Clone, Copy, Debug, PartialEq, Eq)]
pub struct Price {
    pub whole: u128,
    pub fraction: u128,
}

impl Price {
    /// The fraction is less than one whole token.
    pub open spec fn well_formed(self) -> bool {
        self.fraction < UNITS_PER_TOKEN
    }

    /// The amount in smallest units.
    pub open spec fn raw(self) -> int {
        self.whole * UNITS_PER_TOKEN + self.fraction
    }

    /// The amount in smallest units, where it fits in 128 bits.
    pub fn to_raw(&self) -> (r: Option<u128>)
        ensures
            r is Some <==> self.raw() <= u128::MAX,
            r matches Some(v) ==> v == self.raw(),
    {
        match self.whole.checked_mul(UNITS_PER_TOKEN) {
            Some(scaled) => scaled.checked_add(self.fraction),
            None => None,
        }
    }
}

/// The price that a raw amount stands for.
pub open spec fn rescaled(raw: u128) -> Price {
    Price { whole: raw / UNITS_PER_TOKEN, fraction: raw % UNITS_PER_TOKEN }
}

/// Rescales a raw amount by the fixed divisor of ten to the 24th: the
/// quotient is the whole tokens, the remainder the fraction.
pub fn rescale(raw: u128) -> (p: Price)
    ensures
        p == rescaled(raw),
        p.well_formed(),
        p.raw() == raw,
{
    Price { whole: raw / UNITS_PER_TOKEN, fraction: raw % UNITS_PER_TOKEN }
}

/// Rescaling loses nothing: different raw amounts give different prices.
pub proof fn lemma_rescale_injective(a: u128, b: u128)
    requires
        rescaled(a) == rescaled(b),
    ensures
        a == b,
{
    assert(rescaled(a).raw() == a);
    assert(rescaled(b).raw() == b);
}

/// A well-formed price whose raw amount fits in 128 bits is the rescaling
/// of that amount.
pub proof fn lemma_rescale_of_raw(p: Price)
    requires
        p.well_formed(),
        p.raw() <= u128::MAX,
    ensures
        rescaled(p.raw() as u128) == p,
{
    let raw = p.raw();
    let d = UNITS_PER_TOKEN as int;
    assert(raw / d == p.whole && raw % d == p.fraction) by (nonlinear_arith)
        requires
            raw == p.whole * d + p.fraction,
            0 <= p.fraction < d,
            d > 0,
    ;
}

} // verus!
