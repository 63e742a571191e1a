//! Settlement rules of a binary-outcome prediction market.
//!
//! Markets are opened, take wagers until their deadline, are resolved once by the path that
//! their configuration selects, and then pay each winner a share of both pools in proportion
//! to the stake, less the platform's fee. Every operation acts on records that the caller
//! holds and on a time that the caller supplies; moving funds is left to the caller.

pub mod cards;
pub mod error;
pub mod feed;
pub mod identity;
pub mod kinds;
pub mod lifecycle;
pub mod payout;
pub mod records;
pub mod resolution;
pub mod settlement;
pub mod wagering;

pub use cards::{mint_card, update_card_stats};
pub use error::PredictionError;
pub use identity::Identity;
pub use kinds::{MarketCategory, MetricType, OracleDataType, OracleSource, WeatherMetric};
pub use lifecycle::{create_market, initialize_platform};
pub use records::{Bet, Card, Market, MarketPhase, OracleConfig, Platform, TokenHolding};
pub use resolution::{
    resolve_market, resolve_market_social, resolve_market_sports, resolve_market_weather,
    resolve_market_with_oracle, resolve_market_with_reading,
};
pub use settlement::{claim_winnings, collect_platform_fee};
pub use wagering::{battle, place_bet};
