//! What a winning stake is worth.
//!
//! A winner receives the share of the whole pool that the stake is of the
//! winning pool. Both divisions round down, so a little may stay behind in
//! escrow; it is never handed out.

use vstd::prelude::*;

verus! {

/// One part in this many of each payout is the fee.
pub const FEE_DIVISOR: u64 = 10;

/// The share of `total_pool` that a stake of `amount` earns when
/// `winning_pool` was staked on the winning outcome: `amount * total_pool /
/// winning_pool`, multiplied first and rounded down.
pub open spec fn share_of(amount: int, total_pool: int, winning_pool: int) -> int {
    (amount * total_pool) / winning_pool
}

/// What is left of the product after the division: the part of the share
/// that rounding down drops, counted in units of `1 / winning_pool`.
pub open spec fn share_remainder(amount: int, total_pool: int, winning_pool: int) -> int {
    (amount * total_pool) % winning_pool
}

/// There is a payout for the stake: something was staked on the winning
/// outcome, and the share is an amount that 64 bits hold. A stake of at most
/// the winning pool always has one (`lemma_payout_within_pool`); a share can
/// be too large only for a record that stakes more than the winning pool
/// holds.
pub open spec fn payout_exists(amount: u64, total_pool: u64, winning_pool: u64) -> bool {
    &&& winning_pool > 0
    &&& share_of(amount as int, total_pool as int, winning_pool as int) <= u64::MAX
}

/// What a stake of `amount` is paid: its share.
pub open spec fn total_payout_of(amount: u64, total_pool: u64, winning_pool: u64) -> int {
    share_of(amount as int, total_pool as int, winning_pool as int)
}

/// The fee on a payout: a tenth, rounded down.
pub open spec fn dev_fee_of(total_payout: int) -> int {
    total_payout / 10
}

/// What the winner keeps of a payout.
pub open spec fn user_payout_of(total_payout: int) -> int {
    total_payout - dev_fee_of(total_payout)
}

/// A payout and its two parts.
#[derive(Clone, Copy, Debug, PartialEq, Eq, Structural)]
pub struct Split {
    /// What leaves the escrow.
    pub total_payout: u64,
    /// The part that goes to the fee wallet.
    pub dev_fee: u64,
    /// The part that goes to the winner.
    pub user_payout: u64,
}

/// The split that a stake of `amount` earns.
pub open spec fn split_of(amount: u64, total_pool: u64, winning_pool: u64) -> Split {
    let total = total_payout_of(amount, total_pool, winning_pool);
    Split {
        total_payout: total as u64,
        dev_fee: dev_fee_of(total) as u64,
        user_payout: user_payout_of(total) as u64,
    }
}

/// The product of two 64-bit values fits in 128 bits.
pub proof fn lemma_product_fits(a: u64, b: u64)
    ensures
        0 <= a * b <= u128::MAX,
{
    assert(0 <= a * b <= 0xFFFF_FFFF_FFFF_FFFF * 0xFFFF_FFFF_FFFF_FFFF) by (nonlinear_arith)
        requires
            0 <= a <= 0xFFFF_FFFF_FFFF_FFFF,
            0 <= b <= 0xFFFF_FFFF_FFFF_FFFF,
    ;
}

/// A share is never negative, and the product splits into the share times the
/// winning pool and the remainder.
pub proof fn lemma_share_division(amount: int, total_pool: int, winning_pool: int)
    requires
        0 <= amount,
        0 <= total_pool,
        0 < winning_pool,
    ensures
        0 <= share_of(amount, total_pool, winning_pool),
        0 <= share_remainder(amount, total_pool, winning_pool) < winning_pool,
        amount * total_pool == share_of(amount, total_pool, winning_pool) * winning_pool
            + share_remainder(amount, total_pool, winning_pool),
{
    let p = amount * total_pool;
    assert(0 <= p) by (nonlinear_arith)
        requires
            0 <= amount,
            0 <= total_pool,
            p == amount * total_pool,
    ;
    assert(0 <= p / winning_pool && 0 <= p % winning_pool < winning_pool && p == (p
        / winning_pool) * winning_pool + p % winning_pool) by (nonlinear_arith)
        requires
            0 <= p,
            0 < winning_pool,
    ;
}

/// A stake of at most the winning pool earns at most the whole pool.
pub proof fn lemma_share_within_pool(amount: int, total_pool: int, winning_pool: int)
    requires
        0 <= amount <= winning_pool,
        0 <= total_pool,
        0 < winning_pool,
    ensures
        0 <= share_of(amount, total_pool, winning_pool) <= total_pool,
{
    lemma_share_division(amount, total_pool, winning_pool);
    let s = share_of(amount, total_pool, winning_pool);
    let r = share_remainder(amount, total_pool, winning_pool);
    assert(s <= total_pool) by (nonlinear_arith)
        requires
            amount * total_pool == s * winning_pool + r,
            0 <= r,
            0 <= amount <= winning_pool,
            0 <= total_pool,
            0 < winning_pool,
    ;
}

/// A stake of at most the winning pool has a payout, of at most the whole
/// pool.
pub proof fn lemma_payout_within_pool(amount: u64, total_pool: u64, winning_pool: u64)
    requires
        amount <= winning_pool,
        0 < winning_pool,
    ensures
        payout_exists(amount, total_pool, winning_pool),
        0 <= total_payout_of(amount, total_pool, winning_pool) <= total_pool,
{
    lemma_share_within_pool(amount as int, total_pool as int, winning_pool as int);
}

/// The two parts of a payout add up to it, and the fee is at most a tenth.
pub proof fn lemma_fee_split(total_payout: int)
    requires
        0 <= total_payout,
    ensures
        dev_fee_of(total_payout) + user_payout_of(total_payout) == total_payout,
        0 <= dev_fee_of(total_payout),
        10 * dev_fee_of(total_payout) <= total_payout,
        0 <= user_payout_of(total_payout) <= total_payout,
{
}

/// Whoever staked the whole pool, all of it on the winning outcome, is paid
/// the whole pool: a tenth of it, rounded down, as the fee, and the rest to
/// the winner.
pub proof fn lemma_sole_winner(total_pool: u64)
    requires
        0 < total_pool,
    ensures
        payout_exists(total_pool, total_pool, total_pool),
        total_payout_of(total_pool, total_pool, total_pool) == total_pool,
        split_of(total_pool, total_pool, total_pool) == (Split {
            total_payout: total_pool,
            dev_fee: (total_pool / 10) as u64,
            user_payout: (total_pool - total_pool / 10) as u64,
        }),
{
    let t = total_pool as int;
    assert((t * t) / t == t) by (nonlinear_arith)
        requires
            0 < t,
    ;
}

/// Computes what a stake of `amount` earns: the payout, the fee on it and
/// what the winner keeps. The product is taken in 128 bits, so that nothing
/// is lost before the division. There is no payout where nothing was staked
/// on the winning outcome, nor where the share is more than 64 bits hold.
pub fn compute_payout(amount: u64, total_pool: u64, winning_pool: u64) -> (split: Option<Split>)
    ensures
        split is Some <==> payout_exists(amount, total_pool, winning_pool),
        split matches Some(s) ==> s == split_of(amount, total_pool, winning_pool),
        split matches Some(s) ==> s.dev_fee + s.user_payout == s.total_payout,
        winning_pool == 0 ==> split is None,
{
    if winning_pool == 0 {
        return None;
    }
    proof {
        lemma_product_fits(amount, total_pool);
        lemma_share_division(amount as int, total_pool as int, winning_pool as int);
    }
    let product: u128 = (amount as u128) * (total_pool as u128);
    let share: u128 = product / (winning_pool as u128);
    if share > u64::MAX as u128 {
        return None;
    }
    let total_payout: u64 = share as u64;
    let dev_fee: u64 = total_payout / FEE_DIVISOR;
    let user_payout: u64 = total_payout - dev_fee;
    Some(Split { total_payout, dev_fee, user_payout })
}

} // verus!
