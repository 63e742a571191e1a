//! The stored records: platform, market, bet and card.

use vstd::prelude::*;
use vstd::utf8::encode_utf8;
use crate::identity::Identity;
use crate::kinds::{MarketCategory, MetricType, OracleDataType, OracleSource, WeatherMetric};

verus! {

/// Most bytes a market's question may take.
pub const MAX_QUESTION_LEN: usize = 100;

/// Most bytes a market's description may take.
pub const MAX_DESCRIPTION_LEN: usize = 200;

/// The number of bytes that a text takes, as `String::len` gives it.
pub open spec fn byte_len(text: Seq<char>) -> usize {
    encode_utf8(text).len() as usize
}

/// The platform-wide record: who runs it, where fees go, and running statistics.
#[derive(Clone, Copy, Debug, PartialEq, Eq)]
pub struct Platform {
    pub authority: Identity,
    pub treasury: Identity,
    pub total_markets: u64,
    pub total_volume: u64,
    pub bump: u8,
}

/// How a market is to be resolved, as given when it is created.
#[derive(Clone, Debug, PartialEq, Eq)]
pub struct OracleConfig {
    pub oracle_source: OracleSource,
    pub oracle_data_type: OracleDataType,
    pub price_feed: Option<Identity>,
    pub target_price: Option<i64>,
    pub game_id: Option<String>,
    pub target_spread: Option<i32>,
    pub location: Option<String>,
    pub weather_metric: Option<WeatherMetric>,
    pub target_value: Option<i64>,
    pub data_identifier: Option<String>,
    pub metric_type: Option<MetricType>,
    pub threshold: Option<u64>,
}

impl OracleConfig {
    /// Whether every field that the data type calls for is present.
    pub open spec fn complete(&self) -> bool {
        match self.oracle_data_type {
            OracleDataType::Price => self.price_feed.is_some() && self.target_price.is_some(),
            OracleDataType::SportsScore | OracleDataType::SportsWinner => self.game_id.is_some(),
            OracleDataType::Weather => self.location.is_some() && self.weather_metric.is_some()
                && self.target_value.is_some(),
            OracleDataType::Social | OracleDataType::BoxOffice | OracleDataType::Custom =>
                self.data_identifier.is_some() && self.threshold.is_some(),
            OracleDataType::Unspecified => true,
        }
    }

    /// Decides [`OracleConfig::complete`].
    pub fn is_complete(&self) -> (complete: bool)
        ensures
            complete == self.complete(),
    {
        match self.oracle_data_type {
            OracleDataType::Price => self.price_feed.is_some() && self.target_price.is_some(),
            OracleDataType::SportsScore | OracleDataType::SportsWinner => self.game_id.is_some(),
            OracleDataType::Weather => self.location.is_some() && self.weather_metric.is_some()
                && self.target_value.is_some(),
            OracleDataType::Social | OracleDataType::BoxOffice | OracleDataType::Custom =>
                self.data_identifier.is_some() && self.threshold.is_some(),
            OracleDataType::Unspecified => true,
        }
    }
}

/// Where a market stands in its life.
#[derive(Clone, Copy, Debug, PartialEq, Eq, Structural)]
pub enum MarketPhase {
    /// Unresolved and before the deadline: wagers are taken.
    Open,
    /// Unresolved, at or after the deadline: the market can be resolved.
    Ended,
    /// Resolved: bets can be claimed and the fee collected.
    Resolved,
}

/// One yes/no proposition with its deadline, its pools and its way of resolution.
#[derive(Clone, Debug, PartialEq, Eq)]
pub struct Market {
    pub authority: Identity,
    pub creator: Identity,
    pub question: String,
    pub description: String,
    pub end_time: i64,
    pub created_at: i64,
    pub resolved: bool,
    pub outcome: Option<bool>,
    pub total_yes_amount: u64,
    pub total_no_amount: u64,
    pub category: MarketCategory,
    pub bump: u8,
    pub oracle_source: OracleSource,
    pub oracle_data_type: OracleDataType,
    pub price_feed: Option<Identity>,
    pub target_price: Option<i64>,
    /// The price observed when the market was resolved.
    pub strike_price: Option<i64>,
    pub game_id: Option<String>,
    pub team_a_score: Option<u32>,
    pub team_b_score: Option<u32>,
    pub target_spread: Option<i32>,
    pub location: Option<String>,
    pub weather_metric: WeatherMetric,
    pub target_value: Option<i64>,
    /// The weather value recorded when the market was resolved.
    pub recorded_value: Option<i64>,
    pub data_identifier: Option<String>,
    pub metric_type: MetricType,
    pub threshold: Option<u64>,
    /// The value reported when the market was resolved.
    pub actual_value: Option<u64>,
}

impl Market {
    /// Whether the fields that the market's data type calls for are present.
    pub open spec fn config_complete(&self) -> bool {
        match self.oracle_data_type {
            OracleDataType::Price => self.price_feed.is_some() && self.target_price.is_some(),
            OracleDataType::SportsScore | OracleDataType::SportsWinner => self.game_id.is_some(),
            OracleDataType::Weather => self.location.is_some() && self.target_value.is_some(),
            OracleDataType::Social | OracleDataType::BoxOffice | OracleDataType::Custom =>
                self.data_identifier.is_some() && self.threshold.is_some(),
            OracleDataType::Unspecified => true,
        }
    }

    /// Whether the market has kept no observation of a resolution.
    pub open spec fn no_observation(&self) -> bool {
        &&& self.strike_price.is_none()
        &&& self.team_a_score.is_none()
        &&& self.team_b_score.is_none()
        &&& self.recorded_value.is_none()
        &&& self.actual_value.is_none()
    }

    /// The market's invariant: the outcome is there exactly when the market is resolved, an
    /// unresolved market holds no observation, the texts are within their bounds, the deadline
    /// lies after the creation, and the oracle configuration is complete.
    pub open spec fn wf(&self) -> bool {
        &&& self.resolved == self.outcome.is_some()
        &&& !self.resolved ==> self.no_observation()
        &&& byte_len(self.question@) <= MAX_QUESTION_LEN
        &&& byte_len(self.description@) <= MAX_DESCRIPTION_LEN
        &&& self.created_at < self.end_time
        &&& self.config_complete()
    }

    /// Both pools together.
    pub open spec fn total_pool(&self) -> int {
        self.total_yes_amount + self.total_no_amount
    }

    /// The pool of the given side.
    pub open spec fn pool_of(&self, side: bool) -> int {
        if side {
            self.total_yes_amount as int
        } else {
            self.total_no_amount as int
        }
    }

    /// Where the market stands at time `now`: resolved for good once it is resolved; before
    /// that, open until its deadline and ended from the deadline on.
    pub open spec fn phase_at(&self, now: i64) -> MarketPhase {
        if self.resolved {
            MarketPhase::Resolved
        } else if now < self.end_time {
            MarketPhase::Open
        } else {
            MarketPhase::Ended
        }
    }

    /// Where the market stands at time `now`.
    pub fn phase(&self, now: i64) -> (phase: MarketPhase)
        ensures
            phase == self.phase_at(now),
    {
        if self.resolved {
            MarketPhase::Resolved
        } else if now < self.end_time {
            MarketPhase::Open
        } else {
            MarketPhase::Ended
        }
    }

    /// Decides [`Market::wf`].
    pub fn is_well_formed(&self) -> (ok: bool)
        ensures
            ok == self.wf(),
    {
        let config_complete = match self.oracle_data_type {
            OracleDataType::Price => self.price_feed.is_some() && self.target_price.is_some(),
            OracleDataType::SportsScore | OracleDataType::SportsWinner => self.game_id.is_some(),
            OracleDataType::Weather => self.location.is_some() && self.target_value.is_some(),
            OracleDataType::Social | OracleDataType::BoxOffice | OracleDataType::Custom =>
                self.data_identifier.is_some() && self.threshold.is_some(),
            OracleDataType::Unspecified => true,
        };
        let no_observation = self.strike_price.is_none() && self.team_a_score.is_none()
            && self.team_b_score.is_none() && self.recorded_value.is_none()
            && self.actual_value.is_none();
        self.resolved == self.outcome.is_some() && (self.resolved || no_observation)
            && self.question.as_str().len() <= MAX_QUESTION_LEN
            && self.description.as_str().len() <= MAX_DESCRIPTION_LEN
            && self.created_at < self.end_time && config_complete
    }
}

/// What one bettor has staked on one market.
#[derive(Clone, Copy, Debug, PartialEq, Eq)]
pub struct Bet {
    pub market: Identity,
    pub bettor: Identity,
    /// Everything the bettor has wagered on the market, on either side.
    pub amount: u64,
    /// The side of the bettor's latest wager.
    pub prediction: bool,
    pub claimed: bool,
    pub card_mint: Option<Identity>,
    /// The card's multiplier as it was when the wager was placed.
    pub card_multiplier: u64,
}

impl Bet {
    /// Whether this is the record of a bettor who has not wagered yet.
    pub open spec fn is_empty(&self) -> bool {
        &&& self.market.is_zero()
        &&& self.bettor.is_zero()
        &&& self.amount == 0
        &&& !self.prediction
        &&& !self.claimed
        &&& self.card_mint.is_none()
        &&& self.card_multiplier == 0
    }

    /// The record of a bettor who has not wagered yet.
    pub fn empty() -> (bet: Bet)
        ensures
            bet.is_empty(),
    {
        Bet {
            market: Identity::zero(),
            bettor: Identity::zero(),
            amount: 0,
            prediction: false,
            claimed: false,
            card_mint: None,
            card_multiplier: 0,
        }
    }

    /// The bet's invariant towards its market: a claimed bet is a winning bet on a resolved
    /// market.
    pub open spec fn consistent_with(&self, market: &Market) -> bool {
        self.claimed ==> market.resolved && market.outcome == Some(self.prediction)
    }
}

/// A collectible card whose multiplier a wager can carry.
#[derive(Clone, Copy, Debug, PartialEq, Eq)]
pub struct Card {
    pub mint: Identity,
    pub owner: Identity,
    pub power: u8,
    pub rarity: u8,
    /// Fixed-point multiplier.
    pub multiplier: u64,
    pub wins: u64,
    pub losses: u64,
    pub bump: u8,
}

/// What the token ledger reports of the account that is shown as proof of owning a card.
#[derive(Clone, Copy, Debug, PartialEq, Eq)]
pub struct TokenHolding {
    pub owner: Identity,
    pub amount: u64,
}

} // verus!
