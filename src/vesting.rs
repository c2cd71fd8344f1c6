//! The amount of a purchased balance that a partial unlock releases.

use vstd::prelude::*;
use crate::decimal::{lemma_pow10_two, to_decimal, trunc_div, Rational};

verus! {

/// What a holder may claim, in hundredths of a unit: the balance less the
/// still-locked share `(100 - percentage)%` of the stake, and never less
/// than zero.
pub open spec fn claimable_hundredths(stake: int, balance: int, percentage: int) -> int {
    let locked = stake * (100 - percentage);
    if 100 * balance >= locked {
        100 * balance - locked
    } else {
        0
    }
}

/// What a holder may claim, in whole units, truncated toward zero.
pub open spec fn claimable_units(stake: int, balance: int, percentage: int) -> int {
    claimable_hundredths(stake, balance, percentage) / 100
}

/// The exact claimable amount for a holder whose cumulative purchases are
/// `stake` and whose current balance is `balance`, when `available_percentage`
/// percent of purchases are unlocked: `max(0, balance - stake * (1 - p / 100))`.
pub fn calculate_claimable_amount(stake: u64, balance: u64, available_percentage: u64) -> (r: Rational)
    requires
        available_percentage <= 100,
    ensures
        r@ == if 100 * balance >= stake * (100 - available_percentage) {
            (claimable_hundredths(stake as int, balance as int, available_percentage as int), 100int)
        } else {
            (0int, 1int)
        },
        trunc_div(r@.0, r@.1) == claimable_units(
            stake as int,
            balance as int,
            available_percentage as int,
        ),
{
    let d_stake = Rational::from_integer(stake as i128);
    let d_portion = to_decimal(available_percentage, 2).unwrap();
    let d_balance = Rational::from_integer(balance as i128);
    let d_unlocked = Rational::from_integer(1).checked_sub(&d_portion);
    proof {
        lemma_pow10_two();
    }
    let d_locked_share = d_unlocked.unwrap();
    let d_locked = d_stake.checked_mul(&d_locked_share);
    proof {
        assert(0 <= stake * (100 - available_percentage) <= u64::MAX * 100) by (nonlinear_arith)
            requires
                0 <= 100 - available_percentage <= 100,
                0 <= stake <= u64::MAX,
        ;
    }
    let d_locked = d_locked.unwrap();
    let d_claimable = d_balance.checked_sub(&d_locked).unwrap();
    d_claimable.non_negative()
}

/// Raising the unlock percentage never lowers what a holder may claim.
pub proof fn lemma_claimable_monotone(stake: u64, balance: u64, lower: u64, higher: u64)
    requires
        lower <= higher <= 100,
    ensures
        claimable_hundredths(stake as int, balance as int, lower as int) <= claimable_hundredths(
            stake as int,
            balance as int,
            higher as int,
        ),
        claimable_units(stake as int, balance as int, lower as int) <= claimable_units(
            stake as int,
            balance as int,
            higher as int,
        ),
{
    assert(stake * (100 - lower) >= stake * (100 - higher)) by (nonlinear_arith)
        requires
            lower <= higher,
            stake >= 0,
    ;
    let h1 = claimable_hundredths(stake as int, balance as int, lower as int);
    let h2 = claimable_hundredths(stake as int, balance as int, higher as int);
    assert(h1 / 100 <= h2 / 100) by (nonlinear_arith)
        requires
            0 <= h1 <= h2,
    ;
}

/// A full unlock releases the whole balance; no unlock releases only what
/// exceeds the stake.
pub proof fn lemma_claimable_extremes(stake: u64, balance: u64)
    ensures
        claimable_units(stake as int, balance as int, 100) == balance,
        claimable_units(stake as int, balance as int, 0) == if balance >= stake {
            balance - stake
        } else {
            0
        },
{
    assert(stake * (100 - 100) == 0);
    assert((100 * balance) / 100 == balance);
    assert(stake * (100 - 0) == 100 * stake);
    assert((100 * balance - 100 * stake) / 100 == balance - stake) by (nonlinear_arith);
}

/// Once a holder has claimed what the current percentage releases, claiming
/// again at that percentage releases nothing more.
pub proof fn lemma_claim_exhausts(stake: u64, balance: u64, percentage: u64)
    requires
        percentage <= 100,
        claimable_units(stake as int, balance as int, percentage as int) <= balance,
    ensures
        claimable_units(
            stake as int,
            balance - claimable_units(stake as int, balance as int, percentage as int),
            percentage as int,
        ) == 0,
{
    let locked = stake * (100 - percentage);
    let h = claimable_hundredths(stake as int, balance as int, percentage as int);
    let c = h / 100;
    let rest = balance - c;
    assert(0 <= h - 100 * c < 100) by (nonlinear_arith)
        requires
            h >= 0,
            c == h / 100,
    ;
    if 100 * balance >= locked {
        assert(100 * rest - locked == h - 100 * c) by (nonlinear_arith)
            requires
                h == 100 * balance - locked,
                rest == balance - c,
        ;
    }
    let h2 = claimable_hundredths(stake as int, rest, percentage as int);
    assert(0 <= h2 < 100);
    assert(h2 / 100 == 0);
}

} // verus!
