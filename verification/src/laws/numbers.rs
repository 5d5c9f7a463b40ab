//! Laws of the numbers that the status line is made from, and of its timer.

use vstd::prelude::*;

use crate::status::{as_signed, per_second};
use crate::timer::{is_due, INFO_PERIOD_MS, INFO_PERIOD_SECONDS, INFO_TIMER};
use crate::u256::U256;

verus! {

/// A size taken as a signed number is in the signed range, and it is the size or differs
/// from it by one full turn.
pub proof fn lemma_signed_sizes(size: usize)
    ensures
        isize::MIN <= as_signed(size) <= isize::MAX,
        as_signed(size) == size || as_signed(size) + usize::MAX + 1 == size,
{
}

/// A rate over five seconds: five times the rate is at most the growth, and less than one
/// unit for each second short of it.
pub proof fn lemma_rates(now: nat, before: nat)
    requires
        now >= before,
    ensures
        5 * per_second(now, before) <= now - before < 5 * per_second(now, before) + 5,
{
}

/// The status line comes every five seconds, and its rates are taken over that time.
pub proof fn lemma_timer()
    ensures
        INFO_PERIOD_MS == 5000,
        INFO_PERIOD_SECONDS == 5,
        INFO_TIMER == 0,
{
}

/// No other timer brings a status line.
pub proof fn lemma_only_the_timer_brings_a_line(timer: usize, other: usize)
    ensures
        is_due(INFO_TIMER),
        is_due(timer) && is_due(other) ==> timer == other,
{
}

/// A wide number of one limb is that limb; each limb counts for the full range of the one
/// before it.
pub proof fn lemma_limbs(n: u64, a: u64, b: u64, c: u64)
    ensures
        U256([n, 0, 0, 0])@ == n,
        U256([n, a, b, c])@ == n + U256([0, a, b, c])@,
        U256([0, a, b, c])@ == (u64::MAX + 1) * U256([a, b, c, 0])@,
{
    assert(U256([0, a, b, c])@ == (u64::MAX + 1) * U256([a, b, c, 0])@) by {
        let base = crate::u256::limb_base();
        assert(base == u64::MAX + 1);
        assert(U256([a, b, c, 0])@ == a + base * (b + base * (c + base * 0)));
        assert(U256([0, a, b, c])@ == 0 + base * (a + base * (b + base * c)));
    }
}

} // verus!
