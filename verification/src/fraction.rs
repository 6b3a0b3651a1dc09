//! Fractions of a whole, in parts per million.

use vstd::prelude::*;

verus! {

/// One whole, in parts per million.
pub const WHOLE_PPM: u32 = 1_000_000;

/// `raw` brought into the range from nothing to one whole.
pub open spec fn clamp_ppm(raw: int) -> nat {
    if raw < 0 {
        0
    } else if raw > WHOLE_PPM {
        WHOLE_PPM as nat
    } else {
        raw as nat
    }
}

/// `part / whole` in parts per million, rounded down and never above one
/// whole. Of an empty whole no part is taken.
pub open spec fn ratio_ppm(part: nat, whole: nat) -> nat {
    if whole == 0 {
        0
    } else {
        clamp_ppm((part * WHOLE_PPM) / (whole as int))
    }
}

/// A fraction between nothing and one whole, both included.
#[derive(Clone, Copy, Debug, PartialEq, Eq)]
pub struct Fraction {
    ppm: u32,
}

impl View for Fraction {
    type V = nat;

    /// The fraction in parts per million.
    closed spec fn view(&self) -> nat {
        self.ppm as nat
    }
}

impl Fraction {
    #[verifier::type_invariant]
    spec fn in_range(self) -> bool {
        self.ppm <= WHOLE_PPM
    }

    /// The empty fraction.
    pub fn zero() -> (fraction: Fraction)
        ensures
            fraction@ == 0,
    {
        Fraction { ppm: 0 }
    }

    /// The fraction nearest to `raw` parts per million: values below nothing
    /// become nothing, values above one whole become one whole.
    pub fn from_ppm(raw: i64) -> (fraction: Fraction)
        ensures
            fraction@ == clamp_ppm(raw as int),
    {
        if raw < 0 {
            Fraction { ppm: 0 }
        } else if raw > 1_000_000 {
            Fraction { ppm: WHOLE_PPM }
        } else {
            Fraction { ppm: raw as u32 }
        }
    }

    /// The share that `part` has of `whole`.
    pub fn ratio(part: u64, whole: u64) -> (fraction: Fraction)
        ensures
            fraction@ == ratio_ppm(part as nat, whole as nat),
    {
        if whole == 0 {
            return Fraction { ppm: 0 };
        }
        assert(part * 1_000_000 <= u128::MAX) by (nonlinear_arith)
            requires
                part <= u64::MAX,
        ;
        let scaled: u128 = (part as u128) * 1_000_000u128;
        let quotient: u128 = scaled / (whole as u128);
        if quotient > 1_000_000 {
            Fraction { ppm: WHOLE_PPM }
        } else {
            Fraction { ppm: quotient as u32 }
        }
    }

    /// The fraction in parts per million.
    pub fn ppm(&self) -> (ppm: u32)
        ensures
            ppm == self@,
            ppm <= WHOLE_PPM,
    {
        proof {
            use_type_invariant(self);
        }
        self.ppm
    }
}

/// A share of a whole that is a multiple of a unit is the share of the
/// multiplier: the unit cancels.
pub proof fn lemma_ratio_cancels_unit(part: nat, whole: nat, unit: nat)
    requires
        unit > 0,
        whole > 0,
        part <= whole,
    ensures
        ratio_ppm(part * unit, whole * unit) == (part * WHOLE_PPM) / (whole as int),
        ratio_ppm(part * unit, whole * unit) <= WHOLE_PPM,
{
    let scaled = (part * WHOLE_PPM) as int;
    assert((part * unit) * WHOLE_PPM == unit * scaled) by (nonlinear_arith)
        requires
            scaled == part * WHOLE_PPM,
    ;
    assert(whole * unit > 0) by (nonlinear_arith)
        requires
            whole > 0,
            unit > 0,
    ;
    vstd::arithmetic::div_mod::lemma_div_denominator(unit * scaled, unit as int, whole as int);
    vstd::arithmetic::div_mod::lemma_div_multiples_vanish(scaled, unit as int);
    assert(unit * whole == whole * unit) by (nonlinear_arith);
    assert(scaled / (whole as int) <= WHOLE_PPM) by (nonlinear_arith)
        requires
            scaled == part * WHOLE_PPM,
            part <= whole,
            whole > 0,
    ;
    assert(scaled / (whole as int) >= 0) by (nonlinear_arith)
        requires
            scaled >= 0,
            whole > 0,
    ;
}

} // verus!
