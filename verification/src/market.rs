//! The records that the operations work on.

use crate::address::Address;
use vstd::prelude::*;

verus! {

/// The selector of outcome A.
pub const OUTCOME_A: u8 = 0;

/// The selector of outcome B.
pub const OUTCOME_B: u8 = 1;

/// Where a market stands in its life.
#[derive(Clone, Copy, Debug, PartialEq, Eq, Structural)]
pub enum MarketStatus {
    /// Bets are taken until the deadline.
    Open,
    /// No more bets; the outcome is awaited.
    Locked,
    /// The winning outcome is recorded.
    Settled,
}

/// One predicted event with its two pools.
#[derive(Clone, Debug, PartialEq, Eq)]
pub struct Market {
    /// Identifies the event; the escrow address is derived from it.
    pub event_id: String,
    /// The feed that reports on the event. It is kept for reference only.
    pub oracle_feed: Address,
    /// The wallet that receives the fees.
    pub dev_wallet: Address,
    /// What has been staked on outcome A.
    pub pool_a: u64,
    /// What has been staked on outcome B.
    pub pool_b: u64,
    /// What has been staked in all.
    pub total_pool: u64,
    /// Bets are taken while the time is before this.
    pub end_time: i64,
    pub status: MarketStatus,
    /// The one who may lock and settle the market.
    pub authority: Address,
    /// The outcome that won. It means something only once the market is
    /// settled.
    pub winning_outcome: u8,
    /// The nonce that, with the event identifier, derives the escrow address.
    pub vault_bump: u8,
}

/// What one bettor has staked on one market.
#[derive(Clone, Copy, Debug, PartialEq, Eq)]
pub struct UserBet {
    /// The market that the stake is on.
    pub market: Address,
    /// The bettor.
    pub owner: Address,
    /// The outcome that the bettor chose last.
    pub outcome_id: u8,
    /// All that the bettor has staked.
    pub amount: u64,
    /// Whether the winnings have been paid.
    pub claimed: bool,
}

impl Market {
    /// The two pools add up to the total.
    pub open spec fn pools_balanced(&self) -> bool {
        self.pool_a + self.pool_b == self.total_pool
    }

    /// The pool behind `outcome`: pool A for 0, pool B for anything else.
    pub open spec fn pool_of(&self, outcome: u8) -> u64 {
        if outcome == 0 {
            self.pool_a
        } else {
            self.pool_b
        }
    }

    /// The pool behind the recorded winning outcome.
    pub open spec fn winning_pool(&self) -> u64 {
        self.pool_of(self.winning_outcome)
    }

    /// Reads the pool behind the recorded winning outcome.
    pub fn winning_pool_amount(&self) -> (pool: u64)
        ensures
            pool == self.winning_pool(),
    {
        if self.winning_outcome == 0 {
            self.pool_a
        } else {
            self.pool_b
        }
    }
}

} // verus!
