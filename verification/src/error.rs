//! Why an operation was refused.

use vstd::prelude::*;

verus! {

/// The reasons for which an operation on a market is refused. A refused
/// operation changes nothing.
#[derive(Clone, Copy, Debug, PartialEq, Eq, Structural)]
pub enum PredictionError {
    /// The market does not take bets: it is locked or settled.
    MarketNotOpen,
    /// The market is locked.
    MarketLocked,
    /// The market has no winning outcome yet.
    MarketNotSettled,
    /// The betting deadline has been reached.
    MarketExpired,
    /// The caller is not the one entitled to the operation.
    Unauthorized,
    /// The outcome is neither 0 nor 1.
    InvalidOutcome,
    /// The bet record has been paid out before.
    AlreadyClaimed,
    /// The bet record backs the outcome that lost.
    LostBet,
    /// The records contradict each other; no regular sequence of operations
    /// leads here.
    InconsistentState,
}

impl PredictionError {
    /// The text shown for the error.
    pub open spec fn message_text(&self) -> Seq<char> {
        match self {
            PredictionError::MarketNotOpen => "Market is not open for betting"@,
            PredictionError::MarketLocked => "Market is locked"@,
            PredictionError::MarketNotSettled => "Market is not settled yet"@,
            PredictionError::MarketExpired => "Betting period has expired"@,
            PredictionError::Unauthorized => "Unauthorized action"@,
            PredictionError::InvalidOutcome => "Invalid outcome ID"@,
            PredictionError::AlreadyClaimed => "Already claimed winnings"@,
            PredictionError::LostBet => "This bet did not win"@,
            PredictionError::InconsistentState => "Internal state inconsistency"@,
        }
    }

    /// The text shown for the error.
    pub fn message(&self) -> (text: &'static str)
        ensures
            text@ == self.message_text(),
    {
        match self {
            PredictionError::MarketNotOpen => "Market is not open for betting",
            PredictionError::MarketLocked => "Market is locked",
            PredictionError::MarketNotSettled => "Market is not settled yet",
            PredictionError::MarketExpired => "Betting period has expired",
            PredictionError::Unauthorized => "Unauthorized action",
            PredictionError::InvalidOutcome => "Invalid outcome ID",
            PredictionError::AlreadyClaimed => "Already claimed winnings",
            PredictionError::LostBet => "This bet did not win",
            PredictionError::InconsistentState => "Internal state inconsistency",
        }
    }
}

} // verus!
