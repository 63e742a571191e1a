//! The ways in which an operation on a market can be refused.

use vstd::prelude::*;

verus! {

/// Why an operation was refused. A refused operation leaves every record as it was.
#[derive(Clone, Copy, Debug, PartialEq, Eq, Structural)]
pub enum PredictionError {
    QuestionTooLong,
    DescriptionTooLong,
    InvalidEndTime,
    InvalidAmount,
    MarketAlreadyResolved,
    MarketEnded,
    MarketNotResolved,
    AlreadyClaimed,
    Unauthorized,
    MarketNotEnded,
    LosingBet,
    NoWinningBets,
    NotCardOwner,
    RequiresOracleResolution,
    NotOracleMarket,
    OracleConfigRequired,
    InvalidPriceFeed,
    PriceNotAvailable,
    StalePriceData,
    /// A counter, a pool or a payout would leave the range of the native amount.
    ArithmeticOverflow,
}

impl PredictionError {
    /// The sentence shown to a user for this error.
    pub fn message(&self) -> (text: &'static str)
        ensures
            text@ == self.message_text(),
    {
        match self {
            PredictionError::QuestionTooLong => "Question is too long (max 100 characters)",
            PredictionError::DescriptionTooLong => "Description is too long (max 200 characters)",
            PredictionError::InvalidEndTime => "End time must be in the future",
            PredictionError::InvalidAmount => "Invalid bet amount",
            PredictionError::MarketAlreadyResolved => "Market has already been resolved",
            PredictionError::MarketEnded => "Market betting period has ended",
            PredictionError::MarketNotResolved => "Market has not been resolved yet",
            PredictionError::AlreadyClaimed => "Winnings already claimed",
            PredictionError::Unauthorized => "Unauthorized",
            PredictionError::MarketNotEnded => "Market betting period has not ended",
            PredictionError::LosingBet => "This is a losing bet",
            PredictionError::NoWinningBets => "No winning bets in this market",
            PredictionError::NotCardOwner => "Not the card owner",
            PredictionError::RequiresOracleResolution => "Market requires oracle resolution",
            PredictionError::NotOracleMarket => "Market is not configured for oracle resolution",
            PredictionError::OracleConfigRequired => "Oracle configuration (price_feed and target_price) is required",
            PredictionError::InvalidPriceFeed => "Invalid Pyth price feed",
            PredictionError::PriceNotAvailable => "Price data not available",
            PredictionError::StalePriceData => "Price data is stale (older than 60 seconds)",
            PredictionError::ArithmeticOverflow => "Amount is out of range",
        }
    }

    /// The characters of [`PredictionError::message`].
    pub open spec fn message_text(&self) -> Seq<char> {
        match self {
            PredictionError::QuestionTooLong => "Question is too long (max 100 characters)"@,
            PredictionError::DescriptionTooLong => "Description is too long (max 200 characters)"@,
            PredictionError::InvalidEndTime => "End time must be in the future"@,
            PredictionError::InvalidAmount => "Invalid bet amount"@,
            PredictionError::MarketAlreadyResolved => "Market has already been resolved"@,
            PredictionError::MarketEnded => "Market betting period has ended"@,
            PredictionError::MarketNotResolved => "Market has not been resolved yet"@,
            PredictionError::AlreadyClaimed => "Winnings already claimed"@,
            PredictionError::Unauthorized => "Unauthorized"@,
            PredictionError::MarketNotEnded => "Market betting period has not ended"@,
            PredictionError::LosingBet => "This is a losing bet"@,
            PredictionError::NoWinningBets => "No winning bets in this market"@,
            PredictionError::NotCardOwner => "Not the card owner"@,
            PredictionError::RequiresOracleResolution => "Market requires oracle resolution"@,
            PredictionError::NotOracleMarket => "Market is not configured for oracle resolution"@,
            PredictionError::OracleConfigRequired => "Oracle configuration (price_feed and target_price) is required"@,
            PredictionError::InvalidPriceFeed => "Invalid Pyth price feed"@,
            PredictionError::PriceNotAvailable => "Price data not available"@,
            PredictionError::StalePriceData => "Price data is stale (older than 60 seconds)"@,
            PredictionError::ArithmeticOverflow => "Amount is out of range"@,
        }
    }
}

} // verus!
