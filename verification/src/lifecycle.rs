//! What holds over the life of a market, from one operation to the next.

use crate::address::Address;
use crate::error::PredictionError;
use crate::instructions::{
    after_bet, after_claim, after_lock, after_settle, bet_after_claim, bet_refusal,
    claim_refusal, lock_refusal, market_after_bet, new_market, payout_of, settle_refusal,
    ClaimWinnings, LockMarket, PlaceBet, SettleMarket,
};
use crate::market::{Market, MarketStatus, UserBet};
use crate::payout::lemma_sole_winner;
use vstd::prelude::*;

verus! {

// ---------------------------------------------------------------------------
// The pools
// ---------------------------------------------------------------------------
/// A market, as created, has balanced pools.
pub proof fn lemma_new_market_balanced(
    event_id: String,
    oracle_feed: Address,
    dev_wallet: Address,
    end_time: i64,
    authority: Address,
    vault_bump: u8,
)
    ensures
        new_market(
            event_id,
            oracle_feed,
            dev_wallet,
            end_time,
            authority,
            vault_bump,
        ).pools_balanced(),
{
}

/// A bet that is taken keeps the pools balanced, and the total grows by the
/// amount, with nothing cut off.
pub proof fn lemma_bet_keeps_pools_balanced(
    market: Market,
    bet: UserBet,
    now: i64,
    outcome_id: u8,
    amount: u64,
)
    requires
        market.pools_balanced(),
        bet_refusal(market, bet, now, outcome_id, amount) is None,
    ensures
        market_after_bet(market, outcome_id, amount).pools_balanced(),
        market_after_bet(market, outcome_id, amount).total_pool == market.total_pool + amount,
{
}

/// One call of `place_bet`, as the record that it is made with, the time,
/// the outcome and the amount.
pub type BetCall = (UserBet, i64, u8, u64);

/// The market after one call of `place_bet`: after the bet where it is
/// taken, as it was where it is refused.
pub open spec fn market_after_call(market: Market, call: BetCall) -> Market {
    if bet_refusal(market, call.0, call.1, call.2, call.3) is None {
        market_after_bet(market, call.2, call.3)
    } else {
        market
    }
}

/// The market after a run of calls of `place_bet`, one after the other.
pub open spec fn market_after_calls(market: Market, calls: Seq<BetCall>) -> Market
    decreases calls.len(),
{
    if calls.len() == 0 {
        market
    } else {
        market_after_call(market_after_calls(market, calls.drop_last()), calls.last())
    }
}

/// Whatever bets are placed on a market with balanced pools, the pools are
/// balanced after them.
pub proof fn lemma_bets_keep_pools_balanced(market: Market, calls: Seq<BetCall>)
    requires
        market.pools_balanced(),
    ensures
        market_after_calls(market, calls).pools_balanced(),
    decreases calls.len(),
{
    if calls.len() > 0 {
        lemma_bets_keep_pools_balanced(market, calls.drop_last());
    }
}

/// The pools of a market are balanced after each bet of a run, not only
/// after the last: starting from balanced pools, as those of a market that
/// was just created, the two pools add up to the total after any number of
/// the calls, whichever of them were taken.
pub proof fn lemma_pools_balanced_after_each_bet(market: Market, calls: Seq<BetCall>, n: int)
    requires
        market.pools_balanced(),
        0 <= n <= calls.len(),
    ensures
        market_after_calls(market, calls.take(n)).pools_balanced(),
{
    lemma_bets_keep_pools_balanced(market, calls.take(n));
}

// ---------------------------------------------------------------------------
// Bets
// ---------------------------------------------------------------------------
/// A bet on a market that is not open, or at or after the end time, is
/// refused, whatever its outcome and amount and whatever the record.
pub proof fn lemma_late_bet_refused(
    market: Market,
    bet: UserBet,
    now: i64,
    outcome_id: u8,
    amount: u64,
)
    requires
        market.status != MarketStatus::Open || now >= market.end_time,
    ensures
        bet_refusal(market, bet, now, outcome_id, amount) is Some,
        market.status != MarketStatus::Open ==> bet_refusal(market, bet, now, outcome_id, amount)
            == Some(PredictionError::MarketNotOpen),
        market.status == MarketStatus::Open ==> bet_refusal(market, bet, now, outcome_id, amount)
            == Some(PredictionError::MarketExpired),
{
}

/// A record that has been paid out is frozen: no bet is added to it,
/// whatever the market, the time, the outcome and the amount.
pub proof fn lemma_claimed_record_frozen(
    market: Market,
    bet: UserBet,
    now: i64,
    outcome_id: u8,
    amount: u64,
)
    requires
        bet.claimed,
    ensures
        bet_refusal(market, bet, now, outcome_id, amount) is Some,
{
}

/// The mark of a claim is written once: a claim that is paid sets it, and a
/// bet that is taken leaves it as it finds it, which is unset.
pub proof fn lemma_claimed_written_once(
    bet: PlaceBet,
    outcome_id: u8,
    amount: u64,
    claim: ClaimWinnings,
)
    ensures
        after_bet(bet, outcome_id, amount).user_bet.claimed == bet.user_bet.claimed,
        after_claim(claim).user_bet.claimed,
        after_claim(claim).user_bet.amount == claim.user_bet.amount,
        after_claim(claim).user_bet.outcome_id == claim.user_bet.outcome_id,
        forall|now: i64|
            (#[trigger] bet_refusal(bet.market, bet.user_bet, now, outcome_id, amount)) is None
                ==> !bet.user_bet.claimed,
{
}

// ---------------------------------------------------------------------------
// Claims
// ---------------------------------------------------------------------------
/// A bet record is paid once: after a claim that was paid, the same claim on
/// the record as the first one left it is refused as already claimed.
pub proof fn lemma_no_second_claim(ctx: ClaimWinnings)
    requires
        claim_refusal(ctx.market, ctx.user_bet, ctx.user) is None,
    ensures
        claim_refusal(after_claim(ctx).market, after_claim(ctx).user_bet, after_claim(ctx).user)
            == Some(PredictionError::AlreadyClaimed),
        after_claim(ctx).user_bet == bet_after_claim(ctx.user_bet),
{
}

/// A record that is marked as paid is never paid: whoever claims on it, and
/// whatever the market, the claim is refused.
pub proof fn lemma_claimed_record_refused(market: Market, bet: UserBet, user: Address)
    requires
        bet.claimed,
    ensures
        claim_refusal(market, bet, user) is Some,
        bet.owner == user && market.status == MarketStatus::Settled ==> claim_refusal(
            market,
            bet,
            user,
        ) == Some(PredictionError::AlreadyClaimed),
{
}

/// The only winner, who staked the whole pool, is paid the whole pool: a
/// tenth of it, rounded down, goes to the fee wallet and the rest to the
/// winner.
pub proof fn lemma_sole_winner_claim(ctx: ClaimWinnings)
    requires
        claim_refusal(ctx.market, ctx.user_bet, ctx.user) is None,
        ctx.user_bet.amount == ctx.market.total_pool,
        ctx.market.winning_pool() == ctx.market.total_pool,
    ensures
        payout_of(ctx).dev_fee.lamports == ctx.market.total_pool / 10,
        payout_of(ctx).user_payout.lamports == ctx.market.total_pool - ctx.market.total_pool / 10,
        payout_of(ctx).dev_fee.to == ctx.market.dev_wallet,
        payout_of(ctx).user_payout.to == ctx.user,
{
    lemma_sole_winner(ctx.market.total_pool);
}

/// A bet record that backs another outcome than the winning one is never
/// paid: whoever claims on it, and whatever the state of the market, the
/// claim is refused.
pub proof fn lemma_losing_bet_refused(market: Market, bet: UserBet, user: Address)
    requires
        bet.outcome_id != market.winning_outcome,
    ensures
        claim_refusal(market, bet, user) is Some,
        bet.owner == user && market.status == MarketStatus::Settled && !bet.claimed
            ==> claim_refusal(market, bet, user) == Some(PredictionError::LostBet),
{
}

// ---------------------------------------------------------------------------
// The status
// ---------------------------------------------------------------------------
/// Settlement is for good. On a settled market every bet, every lock and
/// every settlement is refused, whoever calls and with whatever arguments,
/// and a claim leaves the market as it is: so the market stays settled and
/// keeps its winner, whatever is tried on it.
pub proof fn lemma_settled_market_is_final(market: Market)
    requires
        market.status == MarketStatus::Settled,
    ensures
        forall|bet: UserBet, now: i64, outcome_id: u8, amount: u64|
            (#[trigger] bet_refusal(market, bet, now, outcome_id, amount)) is Some,
        forall|caller: Address| (#[trigger] lock_refusal(market, caller)) is Some,
        forall|caller: Address, winning_outcome: u8|
            (#[trigger] settle_refusal(market, caller, winning_outcome)) is Some,
        forall|ctx: ClaimWinnings| ctx.market == market ==> (#[trigger] after_claim(ctx)).market
            == market,
{
}

/// A market is settled to one outcome only: after a settlement that was
/// done, a second one is refused, to the other outcome as to the same.
pub proof fn lemma_no_second_settlement(ctx: SettleMarket, first: u8, second: u8)
    requires
        settle_refusal(ctx.market, ctx.authority, first) is None,
    ensures
        after_settle(ctx, first).market.winning_outcome == first,
        settle_refusal(after_settle(ctx, first).market, after_settle(ctx, first).authority, second)
            is Some,
        second <= 1 ==> settle_refusal(
            after_settle(ctx, first).market,
            after_settle(ctx, first).authority,
            second,
        ) == Some(PredictionError::InconsistentState),
{
}

/// No operation leads back: a lock leaves the market locked, a settlement
/// leaves it settled, and neither is followed by a bet that is taken.
pub proof fn lemma_no_way_back(lock: LockMarket, settle: SettleMarket, winning_outcome: u8)
    ensures
        after_lock(lock).market.status == MarketStatus::Locked,
        after_settle(settle, winning_outcome).market.status == MarketStatus::Settled,
        forall|bet: UserBet, now: i64, outcome_id: u8, amount: u64|
            (#[trigger] bet_refusal(after_lock(lock).market, bet, now, outcome_id, amount))
                == Some(PredictionError::MarketNotOpen),
        forall|bet: UserBet, now: i64, outcome_id: u8, amount: u64|
            (#[trigger] bet_refusal(
                after_settle(settle, winning_outcome).market,
                bet,
                now,
                outcome_id,
                amount,
            )) == Some(PredictionError::MarketNotOpen),
{
}

/// Once a claim has been paid on a market, no bet is taken on it any more, so
/// that a record that was paid is not staked on again.
pub proof fn lemma_no_bet_after_claim(
    ctx: ClaimWinnings,
    bet: UserBet,
    now: i64,
    outcome_id: u8,
    amount: u64,
)
    requires
        claim_refusal(ctx.market, ctx.user_bet, ctx.user) is None,
    ensures
        bet_refusal(after_claim(ctx).market, bet, now, outcome_id, amount) == Some(
            PredictionError::MarketNotOpen,
        ),
{
}

/// Only the authority locks and settles: for any other caller both are
/// refused as unauthorized, whatever the state of the market.
pub proof fn lemma_only_authority(market: Market, caller: Address, winning_outcome: u8)
    requires
        caller != market.authority,
    ensures
        lock_refusal(market, caller) == Some(PredictionError::Unauthorized),
        settle_refusal(market, caller, winning_outcome) == Some(PredictionError::Unauthorized),
{
}

} // verus!
