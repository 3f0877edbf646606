use vstd::prelude::*;
use vstd::arithmetic::div_mod::{
    lemma_div_is_ordered, lemma_div_multiples_vanish, lemma_fundamental_div_mod, lemma_mod_bound,
};
use vstd::arithmetic::mul::{
    lemma_mul_inequality, lemma_mul_is_commutative, lemma_mul_is_distributive_add,
    lemma_mul_upper_bound,
};

verus! {

// Fee amounts are expressed in basis points: 10000 basis points are the
// whole. The pinch fee is the slice of a released escrow amount that the
// protocol keeps; it is divided between the treasury, the keepers pool
// and the commons by three share rates that sum to 10000. Rounding is
// floor division throughout, and the commons share absorbs whatever
// rounding dust the other two shares leave behind, so the three shares
// always reassemble the pinch total exactly.

/// The total pinch fee taken from `amount` at `pinch_bps` basis points,
/// rounded down.
pub open spec fn pinch_total_of(amount: u64, pinch_bps: u16) -> int {
    (amount as int) * (pinch_bps as int) / 10000
}

/// One destination's slice of a pinch total at `share_bps` basis points,
/// rounded down.
pub open spec fn share_of(pinch_total: int, share_bps: u16) -> int {
    pinch_total * (share_bps as int) / 10000
}

/// The four-way division of a released escrow amount: what the worker is
/// paid, and the three destinations of the pinch fee.
#[derive(Clone, Copy, PartialEq, Eq, Structural, Debug)]
pub struct FeeSplit {
    /// Paid to the worker: the amount minus the pinch total.
    pub worker_amount: u64,
    /// The treasury's slice of the pinch total.
    pub treasury_amount: u64,
    /// The keepers pool's slice of the pinch total.
    pub keepers_amount: u64,
    /// The commons' slice: the pinch total minus the other two slices,
    /// so it carries the rounding remainder.
    pub commons_amount: u64,
}

impl FeeSplit {
    /// The pinch total this split carries: the three fee slices together.
    pub open spec fn pinch_total(self) -> int {
        self.treasury_amount + self.keepers_amount + self.commons_amount
    }
}

/// What it means for `s` to be the split of `amount` under the given
/// rates. The commons share rate does not appear: the commons slice is
/// defined as the remainder of the pinch total, which is what makes the
/// split exact under floor rounding.
pub open spec fn is_split_for(
    s: FeeSplit,
    amount: u64,
    pinch_bps: u16,
    treasury_share_bps: u16,
    keepers_share_bps: u16,
) -> bool {
    let pt = pinch_total_of(amount, pinch_bps);
    &&& s.treasury_amount == share_of(pt, treasury_share_bps)
    &&& s.keepers_amount == share_of(pt, keepers_share_bps)
    &&& s.commons_amount == pt - s.treasury_amount - s.keepers_amount
    &&& s.worker_amount == amount - pt
}

/// The split conserves the escrowed amount exactly: the worker's pay and
/// the three fee slices reassemble it with nothing lost to rounding and
/// nothing minted, for every amount and every rate combination the
/// protocol admits.
pub proof fn lemma_split_conserves_amount(
    s: FeeSplit,
    amount: u64,
    pinch_bps: u16,
    treasury_share_bps: u16,
    keepers_share_bps: u16,
)
    requires
        is_split_for(s, amount, pinch_bps, treasury_share_bps, keepers_share_bps),
    ensures
        s.worker_amount + s.treasury_amount + s.keepers_amount + s.commons_amount == amount,
{
}

/// The product of two values each below a bound, divided by that second
/// bound, stays below the first value: `a * b / c <= a` when `b <= c`.
pub(crate) proof fn lemma_mul_div_le(a: int, b: int, c: int)
    requires
        0 <= a,
        0 <= b <= c,
        0 < c,
    ensures
        a * b / c <= a,
{
    lemma_mul_inequality(b, c, a);
    lemma_mul_is_commutative(b, a);
    lemma_mul_is_commutative(c, a);
    lemma_div_is_ordered(a * b, a * c, c);
    lemma_div_multiples_vanish(a, c);
}

/// Two floor-divided slices of `pt` whose rates sum to at most the whole
/// never exceed `pt` together, which is what lets the commons slice be
/// taken as an exact remainder.
proof fn lemma_share_sum_le(pt: int, b1: int, b2: int)
    requires
        0 <= pt,
        0 <= b1,
        0 <= b2,
        b1 + b2 <= 10000,
    ensures
        pt * b1 / 10000 + pt * b2 / 10000 <= pt,
{
    let q1 = pt * b1 / 10000;
    let r1 = pt * b1 % 10000;
    let q2 = pt * b2 / 10000;
    let r2 = pt * b2 % 10000;
    lemma_fundamental_div_mod(pt * b1, 10000);
    lemma_fundamental_div_mod(pt * b2, 10000);
    lemma_mod_bound(pt * b1, 10000);
    lemma_mod_bound(pt * b2, 10000);
    lemma_mul_is_distributive_add(pt, b1, b2);
    lemma_mul_inequality(b1 + b2, 10000, pt);
    lemma_mul_is_commutative(b1 + b2, pt);
    lemma_mul_is_commutative(10000, pt);
    assert(10000 * (q1 + q2) <= 10000 * pt);
}

/// Computes the pinch fee split of `amount`: the pinch total at
/// `pinch_bps`, the treasury and keepers slices of it at their share
/// rates, the commons slice as the exact remainder, and the rest as the
/// worker's pay. All intermediate products are taken at 128-bit width,
/// so within the admitted rates no step can overflow and the split is
/// total.
pub fn split(
    amount: u64,
    pinch_bps: u16,
    treasury_share_bps: u16,
    keepers_share_bps: u16,
    commons_share_bps: u16,
) -> (s: FeeSplit)
    requires
        pinch_bps <= 5000,
        treasury_share_bps + keepers_share_bps + commons_share_bps == 10000,
    ensures
        is_split_for(s, amount, pinch_bps, treasury_share_bps, keepers_share_bps),
        s.worker_amount + s.treasury_amount + s.keepers_amount + s.commons_amount == amount,
        s.pinch_total() == pinch_total_of(amount, pinch_bps),
{
    proof {
        lemma_mul_upper_bound(amount as int, u64::MAX as int, pinch_bps as int, 5000);
        lemma_mul_div_le(amount as int, pinch_bps as int, 10000);
    }
    let pinch_total: u64 = ((amount as u128) * (pinch_bps as u128) / 10000) as u64;

    proof {
        lemma_mul_upper_bound(
            pinch_total as int,
            u64::MAX as int,
            treasury_share_bps as int,
            10000,
        );
        lemma_mul_div_le(pinch_total as int, treasury_share_bps as int, 10000);
    }
    let treasury_amount: u64 = ((pinch_total as u128) * (treasury_share_bps as u128)
        / 10000) as u64;

    proof {
        lemma_mul_upper_bound(pinch_total as int, u64::MAX as int, keepers_share_bps as int, 10000);
        lemma_mul_div_le(pinch_total as int, keepers_share_bps as int, 10000);
    }
    let keepers_amount: u64 = ((pinch_total as u128) * (keepers_share_bps as u128) / 10000) as u64;

    proof {
        lemma_share_sum_le(
            pinch_total as int,
            treasury_share_bps as int,
            keepers_share_bps as int,
        );
    }
    let commons_amount: u64 = pinch_total - treasury_amount - keepers_amount;
    let worker_amount: u64 = amount - pinch_total;

    FeeSplit { worker_amount, treasury_amount, keepers_amount, commons_amount }
}

} // verus!
