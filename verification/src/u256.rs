//! Unsigned integers of 256 bits, as far as the rates of the status line need
//! them.

use vstd::prelude::*;
use vstd::arithmetic::div_mod::lemma_fundamental_div_mod;
use vstd::arithmetic::div_mod::lemma_fundamental_div_mod_converse;

use crate::text::{decimal, digit_text};

verus! {

/// One more than the greatest value of a limb.
pub open spec fn limb_base() -> int {
    0x1_0000_0000_0000_0000
}

/// A 256-bit unsigned integer, as four limbs, the least significant first.
#[derive(Clone, Copy, Debug, PartialEq, Eq)]
pub struct U256(pub [u64; 4]);

impl View for U256 {
    type V = nat;

    /// The number.
    open spec fn view(&self) -> nat {
        limbs_value(self.0[0] as int, self.0[1] as int, self.0[2] as int, self.0[3] as int) as nat
    }
}

/// The number that four limbs stand for.
pub open spec fn limbs_value(l0: int, l1: int, l2: int, l3: int) -> int {
    l0 + limb_base() * (l1 + limb_base() * (l2 + limb_base() * l3))
}

/// One step of a long subtraction: the limb and the borrow that it leaves.
fn sub_limb(a: u64, b: u64, borrow: bool) -> (r: (u64, bool))
    ensures
        r.0 - (if r.1 { limb_base() } else { 0 }) == a - b - (if borrow { 1int } else { 0 }),
{
    let take: u128 = b as u128 + (if borrow { 1 } else { 0 });
    if a as u128 >= take {
        ((a as u128 - take) as u64, false)
    } else {
        ((a as u128 + 0x1_0000_0000_0000_0000 - take) as u64, true)
    }
}

/// One step of a long division: the limb of the quotient and the remainder that
/// it leaves.
fn div_limb(rem: u64, limb: u64, divisor: u64) -> (r: (u64, u64))
    requires
        rem < divisor,
    ensures
        r.1 < divisor,
        r.0 * divisor + r.1 == rem * limb_base() + limb,
{
    let dividend: u128 = rem as u128 * 0x1_0000_0000_0000_0000 + limb as u128;
    let quotient: u128 = dividend / divisor as u128;
    let left: u128 = dividend % divisor as u128;
    proof {
        lemma_fundamental_div_mod(dividend as int, divisor as int);
        assert(divisor * quotient == quotient * divisor) by (nonlinear_arith);
        assert(quotient < limb_base()) by (nonlinear_arith)
            requires
                quotient * divisor + left == dividend,
                0 <= left,
                dividend == rem * limb_base() + limb,
                limb < limb_base(),
                rem + 1 <= divisor,
                limb_base() == 0x1_0000_0000_0000_0000,
        ;
    }
    (quotient as u64, left as u64)
}

/// Four steps of a long division give the quotient of the whole.
proof fn lemma_long_division(
    l: (int, int, int, int),
    q: (int, int, int, int),
    r: (int, int, int, int),
    d: int,
)
    requires
        0 <= r.0 < d,
        q.3 * d + r.3 == l.3,
        q.2 * d + r.2 == r.3 * limb_base() + l.2,
        q.1 * d + r.1 == r.2 * limb_base() + l.1,
        q.0 * d + r.0 == r.1 * limb_base() + l.0,
    ensures
        limbs_value(q.0, q.1, q.2, q.3) == limbs_value(l.0, l.1, l.2, l.3) / d,
        r.0 == limbs_value(l.0, l.1, l.2, l.3) % d,
{
    let b = limb_base();
    let whole = limbs_value(q.0, q.1, q.2, q.3);
    assert(whole * d == q.0 * d + b * (q.1 * d + b * (q.2 * d + b * (q.3 * d))))
        by (nonlinear_arith)
        requires
            whole == q.0 + b * (q.1 + b * (q.2 + b * q.3)),
    ;
    lemma_fundamental_div_mod_converse(limbs_value(l.0, l.1, l.2, l.3), d, whole, r.0);
}

impl U256 {
    /// Whether the number is at least as great as another one.
    pub fn at_least(&self, other: &U256) -> (r: bool)
        ensures
            r == (self@ >= other@),
    {
        let (_, b0) = sub_limb(self.0[0], other.0[0], false);
        let (_, b1) = sub_limb(self.0[1], other.0[1], b0);
        let (_, b2) = sub_limb(self.0[2], other.0[2], b1);
        let (_, b3) = sub_limb(self.0[3], other.0[3], b2);
        !b3
    }

    /// The difference of two numbers.
    pub fn minus(&self, other: &U256) -> (r: U256)
        requires
            self@ >= other@,
        ensures
            r@ == self@ - other@,
    {
        let (l0, b0) = sub_limb(self.0[0], other.0[0], false);
        let (l1, b1) = sub_limb(self.0[1], other.0[1], b0);
        let (l2, b2) = sub_limb(self.0[2], other.0[2], b1);
        let (l3, b3) = sub_limb(self.0[3], other.0[3], b2);
        U256([l0, l1, l2, l3])
    }

    /// The quotient and the remainder by a divisor of one limb.
    pub fn div_rem(&self, divisor: u64) -> (r: (U256, u64))
        requires
            divisor > 0,
        ensures
            r.0@ == self@ / (divisor as nat),
            r.1 == self@ % (divisor as nat),
    {
        let (q3, r3) = div_limb(0, self.0[3], divisor);
        let (q2, r2) = div_limb(r3, self.0[2], divisor);
        let (q1, r1) = div_limb(r2, self.0[1], divisor);
        let (q0, r0) = div_limb(r1, self.0[0], divisor);
        proof {
            lemma_long_division(
                (self.0[0] as int, self.0[1] as int, self.0[2] as int, self.0[3] as int),
                (q0 as int, q1 as int, q2 as int, q3 as int),
                (r0 as int, r1 as int, r2 as int, r3 as int),
                divisor as int,
            );
        }
        (U256([q0, q1, q2, q3]), r0)
    }

    /// Whether the number has a single decimal digit.
    fn is_digit(&self) -> (r: bool)
        ensures
            r == (self@ < 10),
    {
        self.0[3] == 0 && self.0[2] == 0 && self.0[1] == 0 && self.0[0] < 10
    }

    /// Writes the number in decimal.
    pub fn decimal_text(&self) -> (r: String)
        ensures
            r@ == decimal(self@),
        decreases self@,
    {
        let (tens, ones) = self.div_rem(10);
        if self.is_digit() {
            digit_text(ones).to_owned()
        } else {
            let mut text = tens.decimal_text();
            text.append(digit_text(ones));
            assert(text@ =~= decimal(self@));
            text
        }
    }
}

} // verus!
