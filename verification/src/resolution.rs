//! Fixing the outcome of a market: once, after its deadline, by the path that its
//! configuration selects.

use vstd::prelude::*;
use crate::error::PredictionError;
use crate::feed::{load_price_reading, price_account_reading};
use crate::identity::Identity;
use crate::kinds::{OracleDataType, OracleSource};
use crate::records::{Market, MarketPhase};

verus! {

/// The greatest age, in time units, at which a price observation is still accepted.
pub const MAX_PRICE_AGE: i64 = 60;

/// Whether an operation that may change a market did what `expected` says: on `Ok` the
/// market is the expected one, on `Err` the same error is returned and the market is as
/// before.
pub open spec fn transition_done(
    result: Result<(), PredictionError>,
    before: Market,
    after: Market,
    expected: Result<Market, PredictionError>,
) -> bool {
    match expected {
        Ok(next) => result.is_ok() && after == next,
        Err(e) => result == Err::<(), PredictionError>(e) && after == before,
    }
}

/// Whether an observation made at `observed_at` is too old at `now`.
pub open spec fn price_is_stale(now: i64, observed_at: i64) -> bool {
    now - observed_at > MAX_PRICE_AGE
}

/// The outcome of a sports market. A winner market is won by the higher score of team A. A
/// score market with a spread asks whether team A leads by at least the spread; without a
/// spread but with a target value, whether both scores together reach the target; without
/// either, it is decided as a winner market.
pub open spec fn sports_outcome(
    data_type: OracleDataType,
    target_spread: Option<i32>,
    target_value: Option<i64>,
    team_a_score: u32,
    team_b_score: u32,
) -> bool {
    if data_type == OracleDataType::SportsWinner {
        team_a_score > team_b_score
    } else if let Some(spread) = target_spread {
        team_a_score - team_b_score >= spread
    } else if let Some(target) = target_value {
        team_a_score + team_b_score >= target
    } else {
        team_a_score > team_b_score
    }
}

/// The market with its outcome fixed.
pub open spec fn resolved_as(market: Market, outcome: bool) -> Market {
    Market { resolved: true, outcome: Some(outcome), ..market }
}

/// What resolving by hand does: refused on a resolved market, on a market of another source,
/// for a caller who is not the market's authority, and before the deadline, in this order.
pub open spec fn manual_resolution(market: Market, caller: Identity, outcome: bool, now: i64)
    -> Result<Market, PredictionError> {
    if market.resolved {
        Err(PredictionError::MarketAlreadyResolved)
    } else if market.oracle_source != OracleSource::Manual {
        Err(PredictionError::RequiresOracleResolution)
    } else if caller != market.authority {
        Err(PredictionError::Unauthorized)
    } else if now < market.end_time {
        Err(PredictionError::MarketNotEnded)
    } else {
        Ok(resolved_as(market, outcome))
    }
}

/// What resolving by a price observation does. `reading` is the observed price and its time,
/// or `None` where the feed could not be read. The outcome is yes when the price has reached
/// the target, and the price is kept as the strike price.
pub open spec fn price_resolution(market: Market, reading: Option<(i64, i64)>, now: i64)
    -> Result<Market, PredictionError> {
    if market.resolved {
        Err(PredictionError::MarketAlreadyResolved)
    } else if market.oracle_source != OracleSource::PythPrice {
        Err(PredictionError::NotOracleMarket)
    } else if now < market.end_time {
        Err(PredictionError::MarketNotEnded)
    } else {
        match reading {
            None => Err(PredictionError::InvalidPriceFeed),
            Some((price, observed_at)) => {
                if price_is_stale(now, observed_at) {
                    Err(PredictionError::StalePriceData)
                } else {
                    match market.target_price {
                        None => Err(PredictionError::OracleConfigRequired),
                        Some(target) => Ok(
                            Market {
                                strike_price: Some(price),
                                ..resolved_as(market, price >= target)
                            },
                        ),
                    }
                }
            },
        }
    }
}

/// What resolving by final scores does. The scores are kept.
pub open spec fn sports_resolution(market: Market, team_a_score: u32, team_b_score: u32, now: i64)
    -> Result<Market, PredictionError> {
    if market.resolved {
        Err(PredictionError::MarketAlreadyResolved)
    } else if market.oracle_data_type != OracleDataType::SportsScore && market.oracle_data_type
        != OracleDataType::SportsWinner {
        Err(PredictionError::NotOracleMarket)
    } else if now < market.end_time {
        Err(PredictionError::MarketNotEnded)
    } else {
        Ok(
            Market {
                team_a_score: Some(team_a_score),
                team_b_score: Some(team_b_score),
                ..resolved_as(
                    market,
                    sports_outcome(
                        market.oracle_data_type,
                        market.target_spread,
                        market.target_value,
                        team_a_score,
                        team_b_score,
                    ),
                )
            },
        )
    }
}

/// What resolving by a recorded weather value does. The outcome is yes when the value has
/// reached the target, and the value is kept.
pub open spec fn weather_resolution(market: Market, recorded_value: i64, now: i64) -> Result<
    Market,
    PredictionError,
> {
    if market.resolved {
        Err(PredictionError::MarketAlreadyResolved)
    } else if market.oracle_data_type != OracleDataType::Weather {
        Err(PredictionError::NotOracleMarket)
    } else if now < market.end_time {
        Err(PredictionError::MarketNotEnded)
    } else {
        match market.target_value {
            None => Err(PredictionError::OracleConfigRequired),
            Some(target) => Ok(
                Market {
                    recorded_value: Some(recorded_value),
                    ..resolved_as(market, recorded_value >= target)
                },
            ),
        }
    }
}

/// What resolving by a reported social, box-office or custom value does. The outcome is yes
/// when the value has reached the threshold, and the value is kept.
pub open spec fn social_resolution(market: Market, actual_value: u64, now: i64) -> Result<
    Market,
    PredictionError,
> {
    if market.resolved {
        Err(PredictionError::MarketAlreadyResolved)
    } else if market.oracle_data_type != OracleDataType::Social && market.oracle_data_type
        != OracleDataType::BoxOffice && market.oracle_data_type != OracleDataType::Custom {
        Err(PredictionError::NotOracleMarket)
    } else if now < market.end_time {
        Err(PredictionError::MarketNotEnded)
    } else {
        match market.threshold {
            None => Err(PredictionError::OracleConfigRequired),
            Some(threshold) => Ok(
                Market {
                    actual_value: Some(actual_value),
                    ..resolved_as(market, actual_value >= threshold)
                },
            ),
        }
    }
}

/// The outcome is written once: on a resolved market every path of resolution is refused as
/// already resolved, whatever the caller supplies, so that the market stays as it is.
pub proof fn lemma_outcome_is_final(
    market: Market,
    caller: Identity,
    outcome: bool,
    reading: Option<(i64, i64)>,
    team_a_score: u32,
    team_b_score: u32,
    recorded_value: i64,
    actual_value: u64,
    now: i64,
)
    requires
        market.resolved,
    ensures
        manual_resolution(market, caller, outcome, now) == Err::<Market, PredictionError>(
            PredictionError::MarketAlreadyResolved,
        ),
        price_resolution(market, reading, now) == Err::<Market, PredictionError>(
            PredictionError::MarketAlreadyResolved,
        ),
        sports_resolution(market, team_a_score, team_b_score, now) == Err::<
            Market,
            PredictionError,
        >(PredictionError::MarketAlreadyResolved),
        weather_resolution(market, recorded_value, now) == Err::<Market, PredictionError>(
            PredictionError::MarketAlreadyResolved,
        ),
        social_resolution(market, actual_value, now) == Err::<Market, PredictionError>(
            PredictionError::MarketAlreadyResolved,
        ),
{
}

/// Whether `next` is `market` resolved: it has an outcome, it keeps the market's invariant,
/// and its pools, its deadline and its configuration are those of `market`.
pub open spec fn is_resolution_of(next: Market, market: Market) -> bool {
    &&& next.resolved
    &&& next.outcome.is_some()
    &&& next.wf()
    &&& next.total_yes_amount == market.total_yes_amount
    &&& next.total_no_amount == market.total_no_amount
    &&& next.end_time == market.end_time
    &&& next.authority == market.authority
    &&& next.oracle_source == market.oracle_source
    &&& next.oracle_data_type == market.oracle_data_type
}

/// A market has an outcome exactly when it is resolved: every path of resolution that
/// succeeds on a market that keeps its invariant turns an ended market without an outcome
/// into a resolved one with an outcome, and changes neither the pools nor the
/// configuration.
pub proof fn lemma_resolution_sets_outcome(
    market: Market,
    caller: Identity,
    outcome: bool,
    reading: Option<(i64, i64)>,
    team_a_score: u32,
    team_b_score: u32,
    recorded_value: i64,
    actual_value: u64,
    now: i64,
)
    requires
        market.wf(),
    ensures
        manual_resolution(market, caller, outcome, now) matches Ok(next) ==> is_resolution_of(
            next,
            market,
        ) && next.outcome == Some(outcome) && caller == market.authority,
        price_resolution(market, reading, now) matches Ok(next) ==> is_resolution_of(
            next,
            market,
        ),
        sports_resolution(market, team_a_score, team_b_score, now) matches Ok(next)
            ==> is_resolution_of(next, market),
        weather_resolution(market, recorded_value, now) matches Ok(next) ==> is_resolution_of(
            next,
            market,
        ),
        social_resolution(market, actual_value, now) matches Ok(next) ==> is_resolution_of(
            next,
            market,
        ),
        manual_resolution(market, caller, outcome, now).is_ok() || price_resolution(
            market,
            reading,
            now,
        ).is_ok() || sports_resolution(market, team_a_score, team_b_score, now).is_ok()
            || weather_resolution(market, recorded_value, now).is_ok() || social_resolution(
            market,
            actual_value,
            now,
        ).is_ok() ==> market.phase_at(now) == MarketPhase::Ended && market.outcome.is_none(),
{
}

/// Resolution is determined by what the market holds and what the caller supplies: two
/// markets that hold the same, resolved by the same path with the same inputs at the same
/// time, end the same, in outcome and in everything else.
pub proof fn lemma_resolution_is_determined(
    first: Market,
    second: Market,
    caller: Identity,
    outcome: bool,
    reading: Option<(i64, i64)>,
    team_a_score: u32,
    team_b_score: u32,
    recorded_value: i64,
    actual_value: u64,
    now: i64,
)
    requires
        first == second,
    ensures
        manual_resolution(first, caller, outcome, now) == manual_resolution(
            second,
            caller,
            outcome,
            now,
        ),
        price_resolution(first, reading, now) == price_resolution(second, reading, now),
        sports_resolution(first, team_a_score, team_b_score, now) == sports_resolution(
            second,
            team_a_score,
            team_b_score,
            now,
        ),
        weather_resolution(first, recorded_value, now) == weather_resolution(
            second,
            recorded_value,
            now,
        ),
        social_resolution(first, actual_value, now) == social_resolution(
            second,
            actual_value,
            now,
        ),
{
}

/// The outcome of a price, weather or social market looks at nothing but the target and the
/// value observed: yes exactly when the value has reached the target.
pub proof fn lemma_threshold_outcomes(
    market: Market,
    reading: Option<(i64, i64)>,
    recorded_value: i64,
    actual_value: u64,
    now: i64,
)
    ensures
        price_resolution(market, reading, now) matches Ok(next) ==> reading.is_some()
            && market.target_price.is_some() && next.outcome == Some(
            reading.unwrap().0 >= market.target_price.unwrap(),
        ) && next.strike_price == Some(reading.unwrap().0) && now - reading.unwrap().1
            <= MAX_PRICE_AGE,
        weather_resolution(market, recorded_value, now) matches Ok(next)
            ==> market.target_value.is_some() && next.outcome == Some(
            recorded_value >= market.target_value.unwrap(),
        ) && next.recorded_value == Some(recorded_value),
        social_resolution(market, actual_value, now) matches Ok(next)
            ==> market.threshold.is_some() && next.outcome == Some(
            actual_value >= market.threshold.unwrap(),
        ) && next.actual_value == Some(actual_value),
{
}

/// Resolves a manual market with the outcome that its authority gives.
pub fn resolve_market(market: &mut Market, caller: Identity, outcome: bool, now: i64) -> (result:
    Result<(), PredictionError>)
    ensures
        transition_done(
            result,
            *old(market),
            *final(market),
            manual_resolution(*old(market), caller, outcome, now),
        ),
        old(market).wf() ==> final(market).wf(),
{
    if market.resolved {
        return Err(PredictionError::MarketAlreadyResolved);
    }
    if market.oracle_source != OracleSource::Manual {
        return Err(PredictionError::RequiresOracleResolution);
    }
    if !caller.same_as(&market.authority) {
        return Err(PredictionError::Unauthorized);
    }
    if now < market.end_time {
        return Err(PredictionError::MarketNotEnded);
    }
    market.resolved = true;
    market.outcome = Some(outcome);
    Ok(())
}

/// Resolves a price market from an observation that the caller has read from the feed:
/// the price and the time it was observed, or `None` where the feed could not be read.
pub fn resolve_market_with_reading(market: &mut Market, reading: Option<(i64, i64)>, now: i64)
    -> (result: Result<(), PredictionError>)
    ensures
        transition_done(
            result,
            *old(market),
            *final(market),
            price_resolution(*old(market), reading, now),
        ),
        old(market).wf() ==> final(market).wf(),
{
    if market.resolved {
        return Err(PredictionError::MarketAlreadyResolved);
    }
    if market.oracle_source != OracleSource::PythPrice {
        return Err(PredictionError::NotOracleMarket);
    }
    if now < market.end_time {
        return Err(PredictionError::MarketNotEnded);
    }
    let (price, observed_at) = match reading {
        None => {
            return Err(PredictionError::InvalidPriceFeed);
        },
        Some(pair) => pair,
    };
    let age: i128 = now as i128 - observed_at as i128;
    if age > MAX_PRICE_AGE as i128 {
        return Err(PredictionError::StalePriceData);
    }
    let target = match market.target_price {
        None => {
            return Err(PredictionError::OracleConfigRequired);
        },
        Some(target) => target,
    };
    market.strike_price = Some(price);
    market.resolved = true;
    market.outcome = Some(price >= target);
    Ok(())
}

/// Resolves a price market from the bytes of the price account of its feed.
pub fn resolve_market_with_oracle(market: &mut Market, price_feed_data: &[u8], now: i64) -> (result:
    Result<(), PredictionError>)
    ensures
        transition_done(
            result,
            *old(market),
            *final(market),
            price_resolution(*old(market), price_account_reading(price_feed_data@), now),
        ),
        old(market).wf() ==> final(market).wf(),
{
    if market.resolved || market.oracle_source != OracleSource::PythPrice || now
        < market.end_time {
        // The refusal does not depend on the feed, so the account is not read.
        return resolve_market_with_reading(market, None, now);
    }
    let reading = load_price_reading(price_feed_data);
    resolve_market_with_reading(market, reading, now)
}

/// Resolves a sports market from the final scores.
pub fn resolve_market_sports(market: &mut Market, team_a_score: u32, team_b_score: u32, now: i64)
    -> (result: Result<(), PredictionError>)
    ensures
        transition_done(
            result,
            *old(market),
            *final(market),
            sports_resolution(*old(market), team_a_score, team_b_score, now),
        ),
        old(market).wf() ==> final(market).wf(),
{
    if market.resolved {
        return Err(PredictionError::MarketAlreadyResolved);
    }
    let winner_market = market.oracle_data_type == OracleDataType::SportsWinner;
    if !(market.oracle_data_type == OracleDataType::SportsScore || winner_market) {
        return Err(PredictionError::NotOracleMarket);
    }
    if now < market.end_time {
        return Err(PredictionError::MarketNotEnded);
    }
    let a: i64 = team_a_score as i64;
    let b: i64 = team_b_score as i64;
    let outcome = if winner_market {
        team_a_score > team_b_score
    } else {
        match market.target_spread {
            Some(spread) => a - b >= spread as i64,
            None => match market.target_value {
                Some(target) => a + b >= target,
                None => team_a_score > team_b_score,
            },
        }
    };
    market.team_a_score = Some(team_a_score);
    market.team_b_score = Some(team_b_score);
    market.resolved = true;
    market.outcome = Some(outcome);
    Ok(())
}

/// Resolves a weather market from the recorded value.
pub fn resolve_market_weather(market: &mut Market, recorded_value: i64, now: i64) -> (result:
    Result<(), PredictionError>)
    ensures
        transition_done(
            result,
            *old(market),
            *final(market),
            weather_resolution(*old(market), recorded_value, now),
        ),
        old(market).wf() ==> final(market).wf(),
{
    if market.resolved {
        return Err(PredictionError::MarketAlreadyResolved);
    }
    if market.oracle_data_type != OracleDataType::Weather {
        return Err(PredictionError::NotOracleMarket);
    }
    if now < market.end_time {
        return Err(PredictionError::MarketNotEnded);
    }
    let target = match market.target_value {
        None => {
            return Err(PredictionError::OracleConfigRequired);
        },
        Some(target) => target,
    };
    market.recorded_value = Some(recorded_value);
    market.resolved = true;
    market.outcome = Some(recorded_value >= target);
    Ok(())
}

/// Resolves a social, box-office or custom market from the reported value.
pub fn resolve_market_social(market: &mut Market, actual_value: u64, now: i64) -> (result: Result<
    (),
    PredictionError,
>)
    ensures
        transition_done(
            result,
            *old(market),
            *final(market),
            social_resolution(*old(market), actual_value, now),
        ),
        old(market).wf() ==> final(market).wf(),
{
    if market.resolved {
        return Err(PredictionError::MarketAlreadyResolved);
    }
    if !(market.oracle_data_type == OracleDataType::Social || market.oracle_data_type
        == OracleDataType::BoxOffice || market.oracle_data_type == OracleDataType::Custom) {
        return Err(PredictionError::NotOracleMarket);
    }
    if now < market.end_time {
        return Err(PredictionError::MarketNotEnded);
    }
    let threshold = match market.threshold {
        None => {
            return Err(PredictionError::OracleConfigRequired);
        },
        Some(threshold) => threshold,
    };
    market.actual_value = Some(actual_value);
    market.resolved = true;
    market.outcome = Some(actual_value >= threshold);
    Ok(())
}

} // verus!
