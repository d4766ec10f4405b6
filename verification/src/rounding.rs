//! Lot rounding for share counts.
//!
//! Quantities in this crate are fixed-point integers. A share count carries
//! three decimal places: a stored value of `x` stands for `x / 1000` shares.
//! Shares trade in round lots of 100, so a count of one lot is stored as
//! `100_000`.

use vstd::prelude::*;

verus! {

/// Division of `a` by `q`, rounded to the nearest integer with halves
/// rounded up. For the non-negative values this crate works with, this is
/// ordinary commercial rounding.
pub open spec fn round_div(a: int, q: int) -> int {
    (a + q / 2) / q
}

/// Snap a fixed-point share count to the nearest round lot of 100 shares,
/// with one deliberate short-circuit: a count whose nearest whole-share
/// value is already a multiple of 100 is returned unchanged, even when the
/// count itself is fractional.
pub open spec fn round_to_hundred_spec(x: int) -> int {
    if round_div(x, 1000) % 100 == 0 {
        x
    } else {
        round_div(x, 100_000) * 100_000
    }
}

/// Executable rounded division: `a / q` to the nearest integer, halves
/// rounded up.
pub(crate) fn div_round(a: u64, q: u64) -> (r: u64)
    requires
        q > 0,
        a + q / 2 <= u64::MAX,
    ensures
        r == round_div(a as int, q as int),
        r <= a + q / 2,
{
    let r: u64 = (a + q / 2) / q;
    proof {
        assert(r <= a + q / 2) by (nonlinear_arith)
            requires
                q >= 1,
                r == (a + q / 2) as int / q as int,
        ;
    }
    r
}

/// Executable lot rounding over fixed-point share counts.
pub fn round_to_hundred(x: u64) -> (r: u64)
    requires
        x + 50_000 <= u64::MAX,
    ensures
        r == round_to_hundred_spec(x as int),
{
    let whole: u64 = (x + 500) / 1000;
    if whole % 100 == 0 {
        x
    } else {
        let lots: u64 = (x + 50_000) / 100_000;
        proof {
            assert(lots * 100_000 <= x + 50_000) by (nonlinear_arith)
                requires
                    lots == (x + 50_000) as int / 100_000,
            ;
        }
        lots * 100_000
    }
}

/// Lot rounding is idempotent: snapping an already-snapped count changes
/// nothing.
pub proof fn lemma_round_to_hundred_idempotent(x: int)
    ensures
        round_to_hundred_spec(round_to_hundred_spec(x)) == round_to_hundred_spec(x),
{
    if round_div(x, 1000) % 100 != 0 {
        let k = round_div(x, 100_000);
        let y = k * 100_000;
        assert(round_div(y, 1000) == 100 * k) by (nonlinear_arith)
            requires
                y == k * 100_000,
        ;
        assert((100 * k) % 100 == 0) by (nonlinear_arith);
    }
}

} // verus!
