//! The five operations on a market: initialize, bet, lock, settle, claim.
//!
//! Each operation takes the records it reads and writes, checks its
//! conditions in a fixed order and either applies all of its changes or
//! refuses and changes nothing. Funds are not moved here: an operation that
//! moves funds returns the transfers for the caller to carry out.

use crate::address::Address;
use crate::error::PredictionError;
use crate::market::{Market, MarketStatus, UserBet};
use crate::payout::{compute_payout, payout_exists, split_of};
use vstd::prelude::*;

verus! {

/// An order to move `lamports` from one account to another.
#[derive(Clone, Copy, Debug, PartialEq, Eq)]
pub struct Transfer {
    pub from: Address,
    pub to: Address,
    pub lamports: u64,
}

/// What a successful claim takes out of the escrow, in the order in which it
/// leaves: the fee first, then the winner's part.
#[derive(Clone, Copy, Debug, PartialEq, Eq)]
pub struct Payout {
    /// The fee, from the escrow to the fee wallet.
    pub dev_fee: Transfer,
    /// The rest, from the escrow to the bettor.
    pub user_payout: Transfer,
}

/// The records of an initialization.
#[derive(Clone, Debug, PartialEq, Eq)]
pub struct InitializeMarket {
    /// The record to fill in. What it held before is overwritten.
    pub market: Market,
    /// The caller, who becomes the market's authority.
    pub authority: Address,
    /// The nonce found for the escrow address of the event.
    pub vault_bump: u8,
}

/// The records of a bet.
#[derive(Clone, Debug, PartialEq, Eq)]
pub struct PlaceBet {
    pub market: Market,
    /// The address of the market record.
    pub market_key: Address,
    /// The escrow of the market.
    pub vault: Address,
    /// The bettor's record on this market. A bettor who has not bet before
    /// brings an empty one.
    pub user_bet: UserBet,
    /// The bettor.
    pub user: Address,
}

/// The records of a lock.
#[derive(Clone, Debug, PartialEq, Eq)]
pub struct LockMarket {
    pub market: Market,
    /// The caller.
    pub authority: Address,
}

/// The records of a settlement.
#[derive(Clone, Debug, PartialEq, Eq)]
pub struct SettleMarket {
    pub market: Market,
    /// The caller.
    pub authority: Address,
}

/// The records of a claim.
#[derive(Clone, Debug, PartialEq, Eq)]
pub struct ClaimWinnings {
    pub market: Market,
    /// The escrow of the market.
    pub vault: Address,
    /// The bet record that is claimed on.
    pub user_bet: UserBet,
    /// The caller, who is paid.
    pub user: Address,
}

// ---------------------------------------------------------------------------
// Initialize
// ---------------------------------------------------------------------------
/// A market as it is created: open, with empty pools.
pub open spec fn new_market(
    event_id: String,
    oracle_feed: Address,
    dev_wallet: Address,
    end_time: i64,
    authority: Address,
    vault_bump: u8,
) -> Market {
    Market {
        event_id,
        oracle_feed,
        dev_wallet,
        pool_a: 0,
        pool_b: 0,
        total_pool: 0,
        end_time,
        status: MarketStatus::Open,
        authority,
        winning_outcome: 0,
        vault_bump,
    }
}

/// The records after an initialization.
pub open spec fn after_initialize(
    ctx: InitializeMarket,
    event_id: String,
    oracle_feed: Address,
    dev_wallet: Address,
    end_time: i64,
) -> InitializeMarket {
    InitializeMarket {
        market: new_market(
            event_id,
            oracle_feed,
            dev_wallet,
            end_time,
            ctx.authority,
            ctx.vault_bump,
        ),
        ..ctx
    }
}

/// Creates the market of an event: open for bets until `end_time`, with
/// empty pools, under the authority of the caller, and with the escrow nonce
/// on record. It is never refused and moves no funds.
pub fn initialize_market(
    ctx: &mut InitializeMarket,
    event_id: String,
    oracle_feed: Address,
    dev_wallet: Address,
    end_time: i64,
) -> (r: Result<(), PredictionError>)
    ensures
        r is Ok,
        *final(ctx) == after_initialize(*old(ctx), event_id, oracle_feed, dev_wallet, end_time),
        final(ctx).market.pools_balanced(),
        final(ctx).market.status == MarketStatus::Open,
        final(ctx).market.authority == old(ctx).authority,
{
    ctx.market.event_id = event_id;
    ctx.market.oracle_feed = oracle_feed;
    ctx.market.dev_wallet = dev_wallet;
    ctx.market.end_time = end_time;
    ctx.market.pool_a = 0;
    ctx.market.pool_b = 0;
    ctx.market.total_pool = 0;
    ctx.market.status = MarketStatus::Open;
    ctx.market.authority = ctx.authority;
    ctx.market.winning_outcome = 0;
    ctx.market.vault_bump = ctx.vault_bump;
    Ok(())
}

// ---------------------------------------------------------------------------
// Bet
// ---------------------------------------------------------------------------
/// The sums that a bet of `amount` leads to can be held: the chosen pool, the
/// total and the bettor's stake each stay within 64 bits.
pub open spec fn bet_fits(market: Market, bet: UserBet, outcome_id: u8, amount: u64) -> bool {
    &&& market.pool_of(outcome_id) + amount <= u64::MAX
    &&& market.total_pool + amount <= u64::MAX
    &&& bet.amount + amount <= u64::MAX
}

/// Why a bet of `amount` at time `now` on `outcome_id`, to be added to the
/// record `bet`, is refused, or `None` where it is taken. The conditions are
/// tried in this order, and the first that fails decides: the market is
/// open; the time is before the end time; the outcome is 0 or 1; and the
/// records are fit for the bet, which they are not where the record has been
/// paid out, nor where one of the sums would be more than 64 bits hold.
/// Neither arises from the operations themselves: no bet is taken once a
/// claim has been paid, and the pools hold no more than was ever staked.
pub open spec fn bet_refusal(
    market: Market,
    bet: UserBet,
    now: i64,
    outcome_id: u8,
    amount: u64,
) -> Option<PredictionError> {
    if market.status != MarketStatus::Open {
        Some(PredictionError::MarketNotOpen)
    } else if now >= market.end_time {
        Some(PredictionError::MarketExpired)
    } else if outcome_id > 1 {
        Some(PredictionError::InvalidOutcome)
    } else if bet.claimed || !bet_fits(market, bet, outcome_id, amount) {
        Some(PredictionError::InconsistentState)
    } else {
        None
    }
}

/// The market after a bet of `amount` on `outcome_id`: the chosen pool and
/// the total have grown by `amount`.
pub open spec fn market_after_bet(market: Market, outcome_id: u8, amount: u64) -> Market {
    Market {
        pool_a: if outcome_id == 0 {
            (market.pool_a + amount) as u64
        } else {
            market.pool_a
        },
        pool_b: if outcome_id == 0 {
            market.pool_b
        } else {
            (market.pool_b + amount) as u64
        },
        total_pool: (market.total_pool + amount) as u64,
        ..market
    }
}

/// The bettor's record after a bet: it is bound to the market and the
/// bettor, the stake has grown by `amount`, and the outcome is the one chosen
/// now, whatever was chosen before. A bet never writes the mark of a claim.
pub open spec fn bet_after_stake(
    bet: UserBet,
    market_key: Address,
    user: Address,
    outcome_id: u8,
    amount: u64,
) -> UserBet {
    UserBet {
        market: market_key,
        owner: user,
        outcome_id,
        amount: (bet.amount + amount) as u64,
        claimed: bet.claimed,
    }
}

/// The records after a bet that was taken.
pub open spec fn after_bet(ctx: PlaceBet, outcome_id: u8, amount: u64) -> PlaceBet {
    PlaceBet {
        market: market_after_bet(ctx.market, outcome_id, amount),
        user_bet: bet_after_stake(ctx.user_bet, ctx.market_key, ctx.user, outcome_id, amount),
        ..ctx
    }
}

/// The transfer that a bet asks for: the stake, from the bettor into escrow.
pub open spec fn stake_transfer(ctx: PlaceBet, amount: u64) -> Transfer {
    Transfer { from: ctx.user, to: ctx.vault, lamports: amount }
}

impl PlaceBet {
    /// Tells whether the market is closed to bets at any time: the first of
    /// the conditions of `place_bet`, which needs neither the time nor the
    /// bet.
    pub fn status_refusal(&self) -> (r: Option<PredictionError>)
        ensures
            r is Some <==> self.market.status != MarketStatus::Open,
            r is Some ==> r == Some(PredictionError::MarketNotOpen),
            forall|now: i64, outcome_id: u8, amount: u64|
                r is Some ==> (#[trigger] bet_refusal(
                    self.market,
                    self.user_bet,
                    now,
                    outcome_id,
                    amount,
                )) == r,
    {
        if self.market.status != MarketStatus::Open {
            Some(PredictionError::MarketNotOpen)
        } else {
            None
        }
    }

    /// Tells whether the sums that a bet of `amount` on `outcome_id` leads to
    /// can be held.
    pub fn fits(&self, outcome_id: u8, amount: u64) -> (r: bool)
        ensures
            r == bet_fits(self.market, self.user_bet, outcome_id, amount),
    {
        let pool = if outcome_id == 0 {
            self.market.pool_a
        } else {
            self.market.pool_b
        };
        pool <= u64::MAX - amount && self.market.total_pool <= u64::MAX - amount
            && self.user_bet.amount <= u64::MAX - amount
    }

    /// Tells why `place_bet` would refuse a bet of `amount` at time `now` on
    /// `outcome_id`, or `None` where it would take it. Nothing is changed.
    pub fn refusal(&self, now: i64, outcome_id: u8, amount: u64) -> (r: Option<PredictionError>)
        ensures
            r == bet_refusal(self.market, self.user_bet, now, outcome_id, amount),
    {
        if self.market.status != MarketStatus::Open {
            Some(PredictionError::MarketNotOpen)
        } else if now >= self.market.end_time {
            Some(PredictionError::MarketExpired)
        } else if outcome_id > 1 {
            Some(PredictionError::InvalidOutcome)
        } else if self.user_bet.claimed || !self.fits(outcome_id, amount) {
            Some(PredictionError::InconsistentState)
        } else {
            None
        }
    }
}

/// Stakes `amount` on `outcome_id` (0 for A, 1 for B) at time `now`.
///
/// The bet is taken while the market is open, `now` is before the market's
/// end time, the outcome is 0 or 1, the bettor's record has not been paid
/// out, and the sums can be held. Then the chosen pool and the total grow by
/// `amount`, the bettor's record is bound to this market and this bettor, its
/// stake grows by `amount`, and the transfer of the stake into escrow is
/// returned. A bettor may bet again and again: the stakes add up. The record
/// keeps only the outcome chosen last, also where an earlier bet was on the
/// other outcome.
///
/// Otherwise the bet is refused with the error of the first condition that
/// fails, and nothing is changed. In particular a record that has been paid
/// out stays as it is: its mark, its stake and its outcome.
pub fn place_bet(ctx: &mut PlaceBet, now: i64, outcome_id: u8, amount: u64) -> (r: Result<
    Transfer,
    PredictionError,
>)
    ensures
        r is Ok <==> bet_refusal(old(ctx).market, old(ctx).user_bet, now, outcome_id, amount)
            is None,
        r matches Ok(transfer) ==> transfer == stake_transfer(*old(ctx), amount)
            && *final(ctx) == after_bet(*old(ctx), outcome_id, amount),
        r matches Err(e) ==> *final(ctx) == *old(ctx) && bet_refusal(
            old(ctx).market,
            old(ctx).user_bet,
            now,
            outcome_id,
            amount,
        ) == Some(e),
        old(ctx).market.status != MarketStatus::Open ==> r is Err,
        now >= old(ctx).market.end_time ==> r is Err,
        old(ctx).user_bet.claimed ==> r is Err,
        final(ctx).user_bet.claimed == old(ctx).user_bet.claimed,
        r is Ok ==> final(ctx).market.pool_of(outcome_id) == old(ctx).market.pool_of(outcome_id)
            + amount,
        r is Ok ==> final(ctx).market.total_pool == old(ctx).market.total_pool + amount,
        r is Ok ==> final(ctx).user_bet.amount == old(ctx).user_bet.amount + amount,
        old(ctx).market.pools_balanced() ==> final(ctx).market.pools_balanced(),
{
    if let Some(error) = ctx.refusal(now, outcome_id, amount) {
        return Err(error);
    }
    if outcome_id == 0 {
        ctx.market.pool_a = ctx.market.pool_a + amount;
    } else {
        ctx.market.pool_b = ctx.market.pool_b + amount;
    }
    ctx.market.total_pool = ctx.market.total_pool + amount;

    ctx.user_bet.market = ctx.market_key;
    ctx.user_bet.owner = ctx.user;
    ctx.user_bet.outcome_id = outcome_id;
    ctx.user_bet.amount = ctx.user_bet.amount + amount;

    Ok(Transfer { from: ctx.user, to: ctx.vault, lamports: amount })
}

// ---------------------------------------------------------------------------
// Lock
// ---------------------------------------------------------------------------
/// Why a lock by `caller` is refused, or `None` where it is done.
pub open spec fn lock_refusal(market: Market, caller: Address) -> Option<PredictionError> {
    if caller != market.authority {
        Some(PredictionError::Unauthorized)
    } else if market.status != MarketStatus::Open {
        Some(PredictionError::InconsistentState)
    } else {
        None
    }
}

/// The records after a lock.
pub open spec fn after_lock(ctx: LockMarket) -> LockMarket {
    LockMarket { market: Market { status: MarketStatus::Locked, ..ctx.market }, ..ctx }
}

/// Closes an open market to further bets. Only the market's authority may do
/// so, and only while the market is open; otherwise the lock is refused and
/// nothing is changed.
pub fn lock_market(ctx: &mut LockMarket) -> (r: Result<(), PredictionError>)
    ensures
        r is Ok <==> lock_refusal(old(ctx).market, old(ctx).authority) is None,
        r is Ok ==> *final(ctx) == after_lock(*old(ctx)),
        r matches Err(e) ==> lock_refusal(old(ctx).market, old(ctx).authority) == Some(e)
            && *final(ctx) == *old(ctx),
        old(ctx).authority != old(ctx).market.authority ==> r == Err::<(), PredictionError>(
            PredictionError::Unauthorized,
        ),
{
    if ctx.authority != ctx.market.authority {
        return Err(PredictionError::Unauthorized);
    }
    if ctx.market.status != MarketStatus::Open {
        return Err(PredictionError::InconsistentState);
    }
    ctx.market.status = MarketStatus::Locked;
    Ok(())
}

// ---------------------------------------------------------------------------
// Settle
// ---------------------------------------------------------------------------
/// Why a settlement by `caller` to `winning_outcome` is refused, or `None`
/// where it is done. The conditions are tried in this order, and the first
/// that fails decides: the caller is the authority; the outcome is 0 or 1;
/// and the market is not settled yet. An open market is settled as well as a
/// locked one.
pub open spec fn settle_refusal(market: Market, caller: Address, winning_outcome: u8) -> Option<
    PredictionError,
> {
    if caller != market.authority {
        Some(PredictionError::Unauthorized)
    } else if winning_outcome > 1 {
        Some(PredictionError::InvalidOutcome)
    } else if market.status == MarketStatus::Settled {
        Some(PredictionError::InconsistentState)
    } else {
        None
    }
}

/// The records after a settlement.
pub open spec fn after_settle(ctx: SettleMarket, winning_outcome: u8) -> SettleMarket {
    SettleMarket {
        market: Market { status: MarketStatus::Settled, winning_outcome, ..ctx.market },
        ..ctx
    }
}

/// Records the winning outcome (0 for A, 1 for B) and marks the market as
/// settled, once and for all. Only the market's authority may do so. The
/// market need not have been locked before: an open market is settled just
/// as well. A market that is settled keeps its winner: to settle it again is
/// refused, also by the authority and also to the same outcome. A settlement
/// that is refused changes nothing.
pub fn settle_market(ctx: &mut SettleMarket, winning_outcome: u8) -> (r: Result<
    (),
    PredictionError,
>)
    ensures
        r is Ok <==> settle_refusal(old(ctx).market, old(ctx).authority, winning_outcome) is None,
        r is Ok ==> *final(ctx) == after_settle(*old(ctx), winning_outcome),
        r matches Err(e) ==> settle_refusal(old(ctx).market, old(ctx).authority, winning_outcome)
            == Some(e) && *final(ctx) == *old(ctx),
        old(ctx).authority != old(ctx).market.authority ==> r == Err::<(), PredictionError>(
            PredictionError::Unauthorized,
        ),
        old(ctx).market.status == MarketStatus::Settled ==> r is Err,
        old(ctx).market.status == MarketStatus::Settled ==> final(ctx).market.winning_outcome
            == old(ctx).market.winning_outcome,
        final(ctx).market.status == MarketStatus::Settled <==> r is Ok || old(ctx).market.status
            == MarketStatus::Settled,
{
    if ctx.authority != ctx.market.authority {
        return Err(PredictionError::Unauthorized);
    }
    if winning_outcome > 1 {
        return Err(PredictionError::InvalidOutcome);
    }
    if ctx.market.status == MarketStatus::Settled {
        return Err(PredictionError::InconsistentState);
    }
    ctx.market.status = MarketStatus::Settled;
    ctx.market.winning_outcome = winning_outcome;
    Ok(())
}

// ---------------------------------------------------------------------------
// Claim
// ---------------------------------------------------------------------------
/// Why a claim by `user` on `bet` is refused, or `None` where it is paid. The
/// conditions are tried in this order, and the first that fails decides: the
/// caller owns the record; the market is settled; the record has not been
/// paid; it backs the winning outcome; and there is a payout for it, which
/// there is not where nothing was staked on the winning outcome, nor where
/// the share is more than 64 bits hold.
pub open spec fn claim_refusal(market: Market, bet: UserBet, user: Address) -> Option<
    PredictionError,
> {
    if bet.owner != user {
        Some(PredictionError::Unauthorized)
    } else if market.status != MarketStatus::Settled {
        Some(PredictionError::MarketNotSettled)
    } else if bet.claimed {
        Some(PredictionError::AlreadyClaimed)
    } else if bet.outcome_id != market.winning_outcome {
        Some(PredictionError::LostBet)
    } else if !payout_exists(bet.amount, market.total_pool, market.winning_pool()) {
        Some(PredictionError::InconsistentState)
    } else {
        None
    }
}

/// The bet record after it has been paid: marked as claimed, otherwise as it
/// was.
pub open spec fn bet_after_claim(bet: UserBet) -> UserBet {
    UserBet { claimed: true, ..bet }
}

/// The records after a claim that was paid.
pub open spec fn after_claim(ctx: ClaimWinnings) -> ClaimWinnings {
    ClaimWinnings { user_bet: bet_after_claim(ctx.user_bet), ..ctx }
}

/// What a claim pays, where it is not refused: the split of what the stake
/// earns, the fee to the market's fee wallet and the rest to the caller, both
/// out of the escrow.
pub open spec fn payout_of(ctx: ClaimWinnings) -> Payout {
    let split = split_of(ctx.user_bet.amount, ctx.market.total_pool, ctx.market.winning_pool());
    Payout {
        dev_fee: Transfer { from: ctx.vault, to: ctx.market.dev_wallet, lamports: split.dev_fee },
        user_payout: Transfer { from: ctx.vault, to: ctx.user, lamports: split.user_payout },
    }
}

/// Pays out a winning bet record, once.
///
/// The caller must own the record, the market must be settled, the record
/// must not have been paid before, it must back the winning outcome, and
/// there must be a payout for it: something was staked on that outcome, and
/// the share is an amount that 64 bits hold. Then the record is marked as
/// claimed and the payout is returned: the fee for the market's fee wallet
/// and the rest for the caller, both out of the escrow. Otherwise the claim is
/// refused with the error of the first condition that fails, nothing is
/// changed and nothing is paid.
pub fn claim_winnings(ctx: &mut ClaimWinnings) -> (r: Result<Payout, PredictionError>)
    ensures
        r is Ok <==> claim_refusal(old(ctx).market, old(ctx).user_bet, old(ctx).user) is None,
        r matches Ok(paid) ==> paid == payout_of(*old(ctx))
            && *final(ctx) == after_claim(*old(ctx)),
        r matches Err(e) ==> claim_refusal(old(ctx).market, old(ctx).user_bet, old(ctx).user)
            == Some(e) && *final(ctx) == *old(ctx),
        old(ctx).market.status != MarketStatus::Settled ==> r is Err,
        old(ctx).user_bet.claimed ==> r is Err,
        old(ctx).user_bet.outcome_id != old(ctx).market.winning_outcome ==> r is Err,
        r is Ok ==> final(ctx).user_bet.claimed,
{
    if ctx.user_bet.owner != ctx.user {
        return Err(PredictionError::Unauthorized);
    }
    if ctx.market.status != MarketStatus::Settled {
        return Err(PredictionError::MarketNotSettled);
    }
    if ctx.user_bet.claimed {
        return Err(PredictionError::AlreadyClaimed);
    }
    if ctx.user_bet.outcome_id != ctx.market.winning_outcome {
        return Err(PredictionError::LostBet);
    }
    let winning_pool = ctx.market.winning_pool_amount();
    match compute_payout(ctx.user_bet.amount, ctx.market.total_pool, winning_pool) {
        None => Err(PredictionError::InconsistentState),
        Some(split) => {
            ctx.user_bet.claimed = true;
            Ok(
                Payout {
                    dev_fee: Transfer {
                        from: ctx.vault,
                        to: ctx.market.dev_wallet,
                        lamports: split.dev_fee,
                    },
                    user_payout: Transfer {
                        from: ctx.vault,
                        to: ctx.user,
                        lamports: split.user_payout,
                    },
                },
            )
        },
    }
}

} // verus!
