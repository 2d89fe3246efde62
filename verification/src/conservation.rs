//! What holds of a market and the bet records on it together: the pools are
//! what the records add up to, and the claims never take more out of the
//! escrow than the bets put in.
//!
//! The records of a market are taken as a sequence, one record for each
//! bettor.

use crate::address::Address;
use crate::instructions::{
    bet_after_stake, bet_refusal, claim_refusal, market_after_bet, payout_of, ClaimWinnings,
    Payout,
};
use crate::market::{Market, UserBet};
use crate::payout::{
    lemma_fee_split, lemma_payout_within_pool, lemma_share_division, share_remainder,
};
use vstd::prelude::*;

verus! {

// ---------------------------------------------------------------------------
// The records and the pools
// ---------------------------------------------------------------------------
/// What a record stakes on `outcome`: its amount if that is its outcome,
/// nothing otherwise.
pub open spec fn stake_on(bet: UserBet, outcome: u8) -> int {
    if bet.outcome_id == outcome {
        bet.amount as int
    } else {
        0
    }
}

/// What the records stake on `outcome`, all together.
pub open spec fn backing(bets: Seq<UserBet>, outcome: u8) -> int
    decreases bets.len(),
{
    if bets.len() == 0 {
        0
    } else {
        backing(bets.drop_last(), outcome) + stake_on(bets.last(), outcome)
    }
}

/// Each pool is what the records stake on its outcome.
pub open spec fn pools_backed(market: Market, bets: Seq<UserBet>) -> bool {
    &&& backing(bets, 0) == market.pool_a
    &&& backing(bets, 1) == market.pool_b
}

/// What the records stake on an outcome is never negative.
pub proof fn lemma_backing_nonnegative(bets: Seq<UserBet>, outcome: u8)
    ensures
        0 <= backing(bets, outcome),
    decreases bets.len(),
{
    if bets.len() > 0 {
        lemma_backing_nonnegative(bets.drop_last(), outcome);
    }
}

/// No record stakes more on an outcome than all of them together, and all
/// but the last stake no more than all.
pub proof fn lemma_backing_bounds(bets: Seq<UserBet>, outcome: u8, i: int)
    requires
        0 <= i < bets.len(),
    ensures
        0 <= stake_on(bets[i], outcome) <= backing(bets, outcome),
        0 <= backing(bets.drop_last(), outcome) <= backing(bets, outcome),
    decreases bets.len(),
{
    lemma_backing_nonnegative(bets.drop_last(), outcome);
    if i < bets.len() - 1 {
        lemma_backing_bounds(bets.drop_last(), outcome, i);
        assert(bets.drop_last()[i] == bets[i]);
    }
}

/// Replacing the record at `i` changes what is staked on an outcome by the
/// difference between the two records.
pub proof fn lemma_backing_update(bets: Seq<UserBet>, i: int, bet: UserBet, outcome: u8)
    requires
        0 <= i < bets.len(),
    ensures
        backing(bets.update(i, bet), outcome) == backing(bets, outcome) - stake_on(
            bets[i],
            outcome,
        ) + stake_on(bet, outcome),
    decreases bets.len(),
{
    let updated = bets.update(i, bet);
    if i == bets.len() - 1 {
        assert(updated.drop_last() =~= bets.drop_last());
    } else {
        assert(updated.drop_last() =~= bets.drop_last().update(i, bet));
        lemma_backing_update(bets.drop_last(), i, bet, outcome);
    }
}

/// No records, empty pools: a market as it is created is backed by the empty
/// sequence of records.
pub proof fn lemma_empty_pools_backed(market: Market)
    requires
        market.pool_a == 0,
        market.pool_b == 0,
    ensures
        pools_backed(market, Seq::<UserBet>::empty()),
{
}

/// A new bettor brings a record with no stake, which leaves the pools backed.
pub proof fn lemma_new_record_keeps_pools_backed(market: Market, bets: Seq<UserBet>, bet: UserBet)
    requires
        pools_backed(market, bets),
        bet.amount == 0,
    ensures
        pools_backed(market, bets.push(bet)),
{
    assert(bets.push(bet).drop_last() =~= bets);
}

/// A bet that is taken keeps the pools backed as long as the bettor keeps to
/// one side: the record has no stake yet, or it backs the outcome that is bet
/// on now. (A bettor who changes sides carries the whole stake over to the
/// new outcome on the record, while the pools keep each bet where it was
/// made.)
pub proof fn lemma_bet_keeps_pools_backed(
    market: Market,
    bets: Seq<UserBet>,
    i: int,
    market_key: Address,
    user: Address,
    now: i64,
    outcome_id: u8,
    amount: u64,
)
    requires
        pools_backed(market, bets),
        0 <= i < bets.len(),
        bet_refusal(market, bets[i], now, outcome_id, amount) is None,
        bets[i].amount == 0 || bets[i].outcome_id == outcome_id,
    ensures
        pools_backed(
            market_after_bet(market, outcome_id, amount),
            bets.update(i, bet_after_stake(bets[i], market_key, user, outcome_id, amount)),
        ),
{
    let bet = bet_after_stake(bets[i], market_key, user, outcome_id, amount);
    lemma_backing_update(bets, i, bet, 0);
    lemma_backing_update(bets, i, bet, 1);
}

/// Where the pools are backed and the winning outcome is 0 or 1, the records
/// on the winning outcome stake exactly the winning pool.
pub proof fn lemma_backed_winning_pool(market: Market, bets: Seq<UserBet>)
    requires
        pools_backed(market, bets),
        market.winning_outcome <= 1,
    ensures
        backing(bets, market.winning_outcome) == market.winning_pool(),
{
}

// ---------------------------------------------------------------------------
// The claims
// ---------------------------------------------------------------------------
/// The claim of its owner on `bet`.
pub open spec fn claim_by_owner(market: Market, vault: Address, bet: UserBet) -> ClaimWinnings {
    ClaimWinnings { market, vault, user_bet: bet, user: bet.owner }
}

/// The claim of its owner on `bet` is paid.
pub open spec fn is_paid(market: Market, bet: UserBet) -> bool {
    claim_refusal(market, bet, bet.owner) is None
}

/// What a payout takes out of the escrow: the fee and the winner's part.
pub open spec fn lamports_out(payout: Payout) -> int {
    payout.dev_fee.lamports + payout.user_payout.lamports
}

/// What the claim of its owner on `bet` takes out of the escrow: nothing
/// where it is refused.
pub open spec fn claim_paid(market: Market, vault: Address, bet: UserBet) -> int {
    if is_paid(market, bet) {
        lamports_out(payout_of(claim_by_owner(market, vault, bet)))
    } else {
        0
    }
}

/// What rounding down withholds from the claim on `bet`, in parts of the
/// winning pool: nothing where the claim is refused.
pub open spec fn claim_loss(market: Market, bet: UserBet) -> int {
    if is_paid(market, bet) {
        share_remainder(
            bet.amount as int,
            market.total_pool as int,
            market.winning_pool() as int,
        )
    } else {
        0
    }
}

/// What the claims of their owners on all the records take out of the escrow.
pub open spec fn claims_paid(market: Market, vault: Address, bets: Seq<UserBet>) -> int
    decreases bets.len(),
{
    if bets.len() == 0 {
        0
    } else {
        claims_paid(market, vault, bets.drop_last()) + claim_paid(market, vault, bets.last())
    }
}

/// What rounding down withholds from all the claims, in parts of the winning
/// pool.
pub open spec fn claims_loss(market: Market, bets: Seq<UserBet>) -> int
    decreases bets.len(),
{
    if bets.len() == 0 {
        0
    } else {
        claims_loss(market, bets.drop_last()) + claim_loss(market, bets.last())
    }
}

/// What the records stake whose claim is paid.
pub open spec fn claims_staked(market: Market, bets: Seq<UserBet>) -> int
    decreases bets.len(),
{
    if bets.len() == 0 {
        0
    } else {
        claims_staked(market, bets.drop_last()) + if is_paid(market, bets.last()) {
            bets.last().amount as int
        } else {
            0
        }
    }
}

/// The number of records whose claim is paid.
pub open spec fn claims_count(market: Market, bets: Seq<UserBet>) -> int
    decreases bets.len(),
{
    if bets.len() == 0 {
        0
    } else {
        claims_count(market, bets.drop_last()) + if is_paid(market, bets.last()) {
            1int
        } else {
            0int
        }
    }
}

/// One claim: what it pays, times the winning pool, and what rounding
/// withholds make up the stake times the whole pool.
proof fn lemma_claim_account(market: Market, vault: Address, bet: UserBet)
    requires
        is_paid(market, bet),
        bet.amount <= market.winning_pool(),
    ensures
        0 <= claim_paid(market, vault, bet),
        0 <= claim_loss(market, bet) < market.winning_pool(),
        claim_paid(market, vault, bet) * market.winning_pool() + claim_loss(market, bet)
            == market.total_pool * bet.amount,
{
    let w = market.winning_pool();
    lemma_payout_within_pool(bet.amount, market.total_pool, w);
    lemma_share_division(bet.amount as int, market.total_pool as int, w as int);
    lemma_fee_split(crate::payout::total_payout_of(bet.amount, market.total_pool, w));
    assert(bet.amount * market.total_pool == market.total_pool * bet.amount) by (nonlinear_arith);
}

/// All the claims: what they pay, times the winning pool, and what rounding
/// withholds make up what the paid records stake, times the whole pool.
proof fn lemma_claims_account(market: Market, vault: Address, bets: Seq<UserBet>)
    requires
        backing(bets, market.winning_outcome) <= market.winning_pool(),
    ensures
        0 <= claims_paid(market, vault, bets),
        0 <= claims_staked(market, bets) <= backing(bets, market.winning_outcome),
        0 <= claims_count(market, bets),
        0 <= claims_loss(market, bets) <= claims_count(market, bets) * (market.winning_pool() - 1),
        claims_paid(market, vault, bets) * market.winning_pool() + claims_loss(market, bets)
            == market.total_pool * claims_staked(market, bets),
        claims_staked(market, bets) > 0 ==> claims_count(market, bets) > 0,
    decreases bets.len(),
{
    let w = market.winning_pool() as int;
    let t = market.total_pool as int;
    if bets.len() > 0 {
        let rest = bets.drop_last();
        let bet = bets.last();
        lemma_backing_bounds(bets, market.winning_outcome, bets.len() - 1);
        lemma_claims_account(market, vault, rest);
        let paid_before = claims_paid(market, vault, rest);
        let loss_before = claims_loss(market, rest);
        let staked_before = claims_staked(market, rest);
        let count_before = claims_count(market, rest);
        if is_paid(market, bet) {
            lemma_claim_account(market, vault, bet);
            let paid_now = claim_paid(market, vault, bet);
            let loss_now = claim_loss(market, bet);
            let a = bet.amount as int;
            assert((paid_before + paid_now) * w + (loss_before + loss_now) == t * (staked_before
                + a)) by (nonlinear_arith)
                requires
                    paid_before * w + loss_before == t * staked_before,
                    paid_now * w + loss_now == t * a,
            ;
            assert(loss_before + loss_now <= (count_before + 1) * (w - 1)) by (nonlinear_arith)
                requires
                    loss_before <= count_before * (w - 1),
                    loss_now <= w - 1,
            ;
        }
    }
}

/// The claims never take more out of the escrow than the bets put in.
///
/// Take a market and the bet records on it, and let the records on the
/// winning outcome stake no more than the winning pool, as they do where no
/// bettor has changed sides. Then the fees and the winners' parts of all the
/// claims that are paid add up to the whole pool at most. They add up to
/// exactly the whole pool only where rounding down has withheld nothing.
pub proof fn lemma_payouts_within_pool(market: Market, vault: Address, bets: Seq<UserBet>)
    requires
        backing(bets, market.winning_outcome) <= market.winning_pool(),
    ensures
        0 <= claims_paid(market, vault, bets) <= market.total_pool,
        claims_paid(market, vault, bets) == market.total_pool ==> claims_loss(market, bets) == 0,
{
    lemma_claims_account(market, vault, bets);
    let w = market.winning_pool() as int;
    let t = market.total_pool as int;
    let p = claims_paid(market, vault, bets);
    let l = claims_loss(market, bets);
    let s = claims_staked(market, bets);
    if w == 0 {
        lemma_nothing_paid_from_empty_pool(market, vault, bets);
    } else {
        assert(p <= t && (p == t ==> l == 0)) by (nonlinear_arith)
            requires
                p * w + l == t * s,
                0 <= l,
                0 <= s <= w,
                0 < w,
                0 <= t,
                0 <= p,
        ;
    }
}

/// The same of a market as regular betting leaves it: where each pool is
/// what the records stake on its outcome, whichever outcome wins, the claims
/// that are paid add up to the whole pool at most.
pub proof fn lemma_backed_payouts_within_pool(market: Market, vault: Address, bets: Seq<UserBet>)
    requires
        pools_backed(market, bets),
        market.winning_outcome <= 1,
    ensures
        0 <= claims_paid(market, vault, bets) <= market.total_pool,
{
    lemma_backed_winning_pool(market, bets);
    lemma_payouts_within_pool(market, vault, bets);
}

/// Where nothing was staked on the winning outcome, no claim is paid.
pub proof fn lemma_nothing_paid_from_empty_pool(
    market: Market,
    vault: Address,
    bets: Seq<UserBet>,
)
    requires
        market.winning_pool() == 0,
    ensures
        claims_paid(market, vault, bets) == 0,
        claims_loss(market, bets) == 0,
        claims_count(market, bets) == 0,
    decreases bets.len(),
{
    if bets.len() > 0 {
        lemma_nothing_paid_from_empty_pool(market, vault, bets.drop_last());
    }
}

/// What rounding leaves behind is small: where the paid records stake the
/// whole winning pool, what stays in the escrow after all the claims is less
/// than one unit for each claim that was paid.
pub proof fn lemma_dust_bounded(market: Market, vault: Address, bets: Seq<UserBet>)
    requires
        0 < market.winning_pool(),
        backing(bets, market.winning_outcome) <= market.winning_pool(),
        claims_staked(market, bets) == market.winning_pool(),
    ensures
        0 <= market.total_pool - claims_paid(market, vault, bets) < claims_count(market, bets),
{
    lemma_claims_account(market, vault, bets);
    let w = market.winning_pool() as int;
    let t = market.total_pool as int;
    let p = claims_paid(market, vault, bets);
    let l = claims_loss(market, bets);
    let c = claims_count(market, bets);
    assert(0 <= t - p < c) by (nonlinear_arith)
        requires
            p * w + l == t * w,
            0 <= l <= c * (w - 1),
            0 < w,
            0 < c,
    ;
}

} // verus!
