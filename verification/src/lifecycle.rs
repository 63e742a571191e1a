//! Setting up the platform and opening a market.

use vstd::prelude::*;
use crate::error::PredictionError;
use crate::identity::Identity;
use crate::kinds::{MarketCategory, MetricType, WeatherMetric};
use crate::records::{
    byte_len,
    Market,
    OracleConfig,
    Platform,
    MAX_DESCRIPTION_LEN,
    MAX_QUESTION_LEN,
};

verus! {

/// Why the creation of a market is refused, if it is: a question or a description that is
/// too long, a deadline that is not after `now`, an oracle configuration that lacks a field
/// that its data type calls for, or a platform whose count of markets is at its limit, in
/// this order.
pub open spec fn creation_refusal(
    platform: Platform,
    question: Seq<char>,
    description: Seq<char>,
    end_time: i64,
    config: OracleConfig,
    now: i64,
) -> Option<PredictionError> {
    if byte_len(question) > MAX_QUESTION_LEN {
        Some(PredictionError::QuestionTooLong)
    } else if byte_len(description) > MAX_DESCRIPTION_LEN {
        Some(PredictionError::DescriptionTooLong)
    } else if end_time <= now {
        Some(PredictionError::InvalidEndTime)
    } else if !config.complete() {
        Some(PredictionError::OracleConfigRequired)
    } else if platform.total_markets == u64::MAX {
        Some(PredictionError::ArithmeticOverflow)
    } else {
        None
    }
}

/// Whether `market` is the market that a creation with these arguments opens: unresolved,
/// with empty pools and no observation, created at `now` by `authority`, and configured as
/// `config` says, a metric that is not given being left unspecified.
pub open spec fn is_new_market(
    market: Market,
    authority: Identity,
    question: Seq<char>,
    description: Seq<char>,
    end_time: i64,
    category: MarketCategory,
    config: OracleConfig,
    now: i64,
    bump: u8,
) -> bool {
    &&& market.authority == authority
    &&& market.creator == authority
    &&& market.question@ == question
    &&& market.description@ == description
    &&& market.end_time == end_time
    &&& market.created_at == now
    &&& !market.resolved
    &&& market.outcome.is_none()
    &&& market.total_yes_amount == 0
    &&& market.total_no_amount == 0
    &&& market.category == category
    &&& market.bump == bump
    &&& market.oracle_source == config.oracle_source
    &&& market.oracle_data_type == config.oracle_data_type
    &&& market.price_feed == config.price_feed
    &&& market.target_price == config.target_price
    &&& market.game_id == config.game_id
    &&& market.target_spread == config.target_spread
    &&& market.location == config.location
    &&& market.weather_metric == match config.weather_metric {
        Some(metric) => metric,
        None => WeatherMetric::Unspecified,
    }
    &&& market.target_value == config.target_value
    &&& market.data_identifier == config.data_identifier
    &&& market.metric_type == match config.metric_type {
        Some(metric) => metric,
        None => MetricType::Unspecified,
    }
    &&& market.threshold == config.threshold
    &&& market.no_observation()
}

/// The platform's record at its start: no markets, no volume.
pub fn initialize_platform(authority: Identity, treasury: Identity, bump: u8) -> (platform:
    Platform)
    ensures
        platform == (Platform { authority, treasury, total_markets: 0, total_volume: 0, bump }),
{
    Platform { authority, treasury, total_markets: 0, total_volume: 0, bump }
}

/// Opens a market for `authority` at time `now` and counts it on the platform.
pub fn create_market(
    platform: &mut Platform,
    authority: Identity,
    question: String,
    description: String,
    end_time: i64,
    category: MarketCategory,
    config: OracleConfig,
    now: i64,
    bump: u8,
) -> (result: Result<Market, PredictionError>)
    ensures
        match creation_refusal(*old(platform), question@, description@, end_time, config, now) {
            Some(e) => {
                &&& result == Err::<Market, PredictionError>(e)
                &&& *final(platform) == *old(platform)
            },
            None => {
                &&& result.is_ok()
                &&& is_new_market(
                    result.unwrap(),
                    authority,
                    question@,
                    description@,
                    end_time,
                    category,
                    config,
                    now,
                    bump,
                )
                &&& result.unwrap().wf()
                &&& *final(platform) == (Platform {
                    total_markets: (old(platform).total_markets + 1) as u64,
                    ..*old(platform)
                })
            },
        },
{
    if question.as_str().len() > MAX_QUESTION_LEN {
        return Err(PredictionError::QuestionTooLong);
    }
    if description.as_str().len() > MAX_DESCRIPTION_LEN {
        return Err(PredictionError::DescriptionTooLong);
    }
    if end_time <= now {
        return Err(PredictionError::InvalidEndTime);
    }
    if !config.is_complete() {
        return Err(PredictionError::OracleConfigRequired);
    }
    let counted = match platform.total_markets.checked_add(1) {
        Some(count) => count,
        None => {
            return Err(PredictionError::ArithmeticOverflow);
        },
    };
    let weather_metric = match config.weather_metric {
        Some(metric) => metric,
        None => WeatherMetric::Unspecified,
    };
    let metric_type = match config.metric_type {
        Some(metric) => metric,
        None => MetricType::Unspecified,
    };
    let market = Market {
        authority,
        creator: authority,
        question,
        description,
        end_time,
        created_at: now,
        resolved: false,
        outcome: None,
        total_yes_amount: 0,
        total_no_amount: 0,
        category,
        bump,
        oracle_source: config.oracle_source,
        oracle_data_type: config.oracle_data_type,
        price_feed: config.price_feed,
        target_price: config.target_price,
        strike_price: None,
        game_id: config.game_id,
        team_a_score: None,
        team_b_score: None,
        target_spread: config.target_spread,
        location: config.location,
        weather_metric,
        target_value: config.target_value,
        recorded_value: None,
        data_identifier: config.data_identifier,
        metric_type,
        threshold: config.threshold,
        actual_value: None,
    };
    platform.total_markets = counted;
    Ok(market)
}

} // verus!
