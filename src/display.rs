use vstd::prelude::*;

use crate::game::GOLD;
use crate::upgrade::cap;

verus! {

/// The scale an amount is shown at.
#[derive(Clone, Copy, Debug, PartialEq, Eq, Structural)]
pub enum Magnitude {
    Ones,
    Thousands,
    Millions,
}

/// An amount of gold ready to print: `hundredths / 100` followed by the
/// suffix of `magnitude` (none, `K` or `M`).
#[derive(Clone, Copy, Debug, PartialEq, Eq, Structural)]
pub struct DisplayNumber {
    pub hundredths: u64,
    pub magnitude: Magnitude,
}

/// `a / d` rounded to the nearest integer, halves up.
pub open spec fn rounded_div(a: int, d: int) -> int {
    (a + d / 2) / d
}

/// How an amount in units is shown: in millions of gold from a million gold
/// up, in thousands from a thousand up, else in gold; always with two
/// decimals, rounded to nearest.
pub open spec fn display_spec(amount: u64) -> DisplayNumber {
    if amount >= 1_000_000 * GOLD {
        DisplayNumber { hundredths: rounded_div(amount as int, 10_000 * GOLD as int) as u64, magnitude: Magnitude::Millions }
    } else if amount >= 1_000 * GOLD {
        DisplayNumber { hundredths: rounded_div(amount as int, 10 * GOLD as int) as u64, magnitude: Magnitude::Thousands }
    } else {
        DisplayNumber { hundredths: rounded_div(amount as int, (GOLD / 100) as int) as u64, magnitude: Magnitude::Ones }
    }
}

fn round_div(a: u64, d: u64) -> (r: u64)
    requires
        d >= 2,
        d % 2 == 0,
    ensures
        r == rounded_div(a as int, d as int),
{
    let q = a / d;
    let rem = a % d;
    let h = d / 2;
    proof {
        let (ai, di, qi, ri) = (a as int, d as int, q as int, rem as int);
        vstd::arithmetic::div_mod::lemma_fundamental_div_mod(ai, di);
        assert(ai == di * qi + ri);
        if ri >= h {
            assert(ai + h == (qi + 1) * di + (ri + h - di)) by (nonlinear_arith)
                requires
                    ai == di * qi + ri,
            ;
            vstd::arithmetic::div_mod::lemma_fundamental_div_mod_converse(ai + h, di, qi + 1, ri + h - di);
        } else {
            vstd::arithmetic::div_mod::lemma_fundamental_div_mod_converse(ai + h, di, qi, ri + h);
        }
        assert(qi <= ai) by (nonlinear_arith)
            requires
                ai == di * qi + ri,
                di >= 2,
                ri >= 0,
                qi >= 0,
        ;
        if ri >= h {
            assert(qi < ai) by (nonlinear_arith)
                requires
                    ai == di * qi + ri,
                    di >= 2,
                    ri >= 1,
                    qi >= 0,
            ;
        }
    }
    if rem >= h {
        q + 1
    } else {
        q
    }
}

/// Scales an amount in units for display.
pub fn format_number(amount: u64) -> (r: DisplayNumber)
    ensures
        r == display_spec(amount),
{
    if amount >= 1_000_000 * GOLD {
        DisplayNumber { hundredths: round_div(amount, 10_000 * GOLD), magnitude: Magnitude::Millions }
    } else if amount >= 1_000 * GOLD {
        DisplayNumber { hundredths: round_div(amount, 10 * GOLD), magnitude: Magnitude::Thousands }
    } else {
        DisplayNumber { hundredths: round_div(amount, GOLD / 100), magnitude: Magnitude::Ones }
    }
}

/// Scales a passive rate (units per millisecond) for display as gold per
/// second.
pub fn format_rate(rate: u64) -> (r: DisplayNumber)
    ensures
        r == display_spec(cap(rate * 1000)),
{
    let scaled: u64 = if rate > 0xffff_ffff_ffff_ffff / 1000 {
        0xffff_ffff_ffff_ffff
    } else {
        rate * 1000
    };
    format_number(scaled)
}

} // verus!
