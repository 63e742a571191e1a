//! The tags that classify a market and select how it is resolved.

use vstd::prelude::*;

verus! {

/// Where the fact that resolves a market comes from.
#[derive(Clone, Copy, Debug, PartialEq, Eq, Structural)]
pub enum OracleSource {
    /// Resolved by the market's authority.
    Manual,
    PythPrice,
    ChainlinkPrice,
    ChainlinkSports,
    ChainlinkWeather,
    SwitchboardPrice,
    SwitchboardCustom,
    CustomApi,
}

impl Default for OracleSource {
    fn default() -> (source: OracleSource)
        ensures
            source == OracleSource::Manual,
    {
        OracleSource::Manual
    }
}

/// What kind of fact resolves a market, which decides the fields it must carry.
#[derive(Clone, Copy, Debug, PartialEq, Eq, Structural)]
pub enum OracleDataType {
    /// No outside fact: a manual market.
    Unspecified,
    Price,
    SportsScore,
    SportsWinner,
    Weather,
    Social,
    BoxOffice,
    Custom,
}

impl Default for OracleDataType {
    fn default() -> (data_type: OracleDataType)
        ensures
            data_type == OracleDataType::Unspecified,
    {
        OracleDataType::Unspecified
    }
}

/// The quantity a weather market is about, in hundredths of its unit.
#[derive(Clone, Copy, Debug, PartialEq, Eq, Structural)]
pub enum WeatherMetric {
    Unspecified,
    Temperature,
    Precipitation,
    WindSpeed,
    Humidity,
}

impl Default for WeatherMetric {
    fn default() -> (metric: WeatherMetric)
        ensures
            metric == WeatherMetric::Unspecified,
    {
        WeatherMetric::Unspecified
    }
}

/// The quantity a social or entertainment market is about.
#[derive(Clone, Copy, Debug, PartialEq, Eq, Structural)]
pub enum MetricType {
    Unspecified,
    FollowerCount,
    LikeCount,
    ViewCount,
    BoxOfficeGross,
    StreamRank,
    Custom,
}

impl Default for MetricType {
    fn default() -> (metric: MetricType)
        ensures
            metric == MetricType::Unspecified,
    {
        MetricType::Unspecified
    }
}

/// The subject area of a market.
#[derive(Clone, Copy, Debug, PartialEq, Eq, Structural)]
pub enum MarketCategory {
    Sports,
    Crypto,
    Politics,
    Entertainment,
    Weather,
    Technology,
    Gaming,
    Other,
}

} // verus!
