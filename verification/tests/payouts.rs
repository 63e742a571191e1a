use prediction::payout::{platform_fee, pool_after_fee, proportional_winnings};
use prediction::{
    claim_winnings, collect_platform_fee, create_market, initialize_platform, place_bet,
    resolve_market, resolve_market_with_reading, Bet, Identity, Market, MarketCategory,
    OracleConfig, OracleDataType, OracleSource, Platform, PredictionError,
};

fn id(n: u8) -> Identity {
    Identity::new([n; 32])
}

fn manual_config() -> OracleConfig {
    OracleConfig {
        oracle_source: OracleSource::Manual,
        oracle_data_type: OracleDataType::Unspecified,
        price_feed: None,
        target_price: None,
        game_id: None,
        target_spread: None,
        location: None,
        weather_metric: None,
        target_value: None,
        data_identifier: None,
        metric_type: None,
        threshold: None,
    }
}

fn price_config(target: i64) -> OracleConfig {
    OracleConfig {
        oracle_source: OracleSource::PythPrice,
        oracle_data_type: OracleDataType::Price,
        price_feed: Some(id(50)),
        target_price: Some(target),
        ..manual_config()
    }
}

fn open_market(platform: &mut Platform, config: OracleConfig) -> Market {
    create_market(
        platform,
        id(1),
        String::from("Will it happen?"),
        String::from("A test market"),
        1_000,
        MarketCategory::Other,
        config,
        100,
        254,
    )
    .unwrap()
}

fn wager(
    market: &mut Market,
    platform: &mut Platform,
    bettor: u8,
    amount: u64,
    side: bool,
) -> Bet {
    let mut bet = Bet::empty();
    place_bet(market, platform, &mut bet, id(200), id(bettor), amount, side, 500).unwrap();
    bet
}

#[test]
fn market_with_past_end_time_is_rejected() {
    let mut platform = initialize_platform(id(1), id(2), 255);
    let before = platform;
    let result = create_market(
        &mut platform,
        id(1),
        String::from("Q"),
        String::from("D"),
        99,
        MarketCategory::Crypto,
        manual_config(),
        100,
        1,
    );
    assert_eq!(result, Err(PredictionError::InvalidEndTime));
    assert_eq!(platform, before);
    let at_now = create_market(
        &mut platform,
        id(1),
        String::from("Q"),
        String::from("D"),
        100,
        MarketCategory::Crypto,
        manual_config(),
        100,
        1,
    );
    assert_eq!(at_now, Err(PredictionError::InvalidEndTime));
    assert_eq!(platform.total_markets, 0);
}

#[test]
fn two_winners_share_the_pool_after_fee() {
    let mut platform = initialize_platform(id(1), id(2), 255);
    let mut market = open_market(&mut platform, manual_config());
    let mut first = wager(&mut market, &mut platform, 10, 100, true);
    let mut second = wager(&mut market, &mut platform, 11, 300, true);
    let mut loser = wager(&mut market, &mut platform, 12, 200, false);
    assert_eq!(market.total_yes_amount, 400);
    assert_eq!(market.total_no_amount, 200);
    assert_eq!(platform.total_volume, 600);

    resolve_market(&mut market, id(1), true, 1_000).unwrap();
    assert_eq!(market.outcome, Some(true));

    assert_eq!(collect_platform_fee(&market, &platform, id(1)), Ok(12));
    assert_eq!(pool_after_fee(600), 588);
    let paid_first = claim_winnings(&market, &mut first, id(10)).unwrap();
    let paid_second = claim_winnings(&market, &mut second, id(11)).unwrap();
    assert_eq!(paid_first, 147);
    assert_eq!(paid_second, 441);
    assert_eq!(paid_first + paid_second, 588);
    assert!(first.claimed && second.claimed);
    assert_eq!(claim_winnings(&market, &mut loser, id(12)), Err(PredictionError::LosingBet));
    assert!(!loser.claimed);
}

#[test]
fn claim_before_resolution_and_claim_twice() {
    let mut platform = initialize_platform(id(1), id(2), 255);
    let mut market = open_market(&mut platform, manual_config());
    let mut bet = wager(&mut market, &mut platform, 10, 100, true);
    let untouched = bet;
    assert_eq!(claim_winnings(&market, &mut bet, id(10)), Err(PredictionError::MarketNotResolved));
    assert_eq!(bet, untouched);

    resolve_market(&mut market, id(1), true, 2_000).unwrap();
    assert_eq!(claim_winnings(&market, &mut bet, id(10)), Ok(98));
    let claimed = bet;
    assert!(claimed.claimed);
    assert_eq!(claim_winnings(&market, &mut bet, id(10)), Err(PredictionError::AlreadyClaimed));
    assert_eq!(bet, claimed);
    assert_eq!(claim_winnings(&market, &mut bet, id(99)), Err(PredictionError::AlreadyClaimed));
}

#[test]
fn no_wager_on_the_winning_side() {
    let mut platform = initialize_platform(id(1), id(2), 255);
    let mut market = open_market(&mut platform, manual_config());
    let mut first = wager(&mut market, &mut platform, 10, 100, false);
    let mut second = wager(&mut market, &mut platform, 11, 250, false);
    resolve_market(&mut market, id(1), true, 1_000).unwrap();
    assert_eq!(claim_winnings(&market, &mut first, id(10)), Err(PredictionError::NoWinningBets));
    assert_eq!(claim_winnings(&market, &mut second, id(11)), Err(PredictionError::NoWinningBets));
    assert!(!first.claimed && !second.claimed);
}

#[test]
fn stale_price_observation_is_refused() {
    let mut platform = initialize_platform(id(1), id(2), 255);
    let mut market = open_market(&mut platform, price_config(5_000));
    let before = market.clone();
    let result = resolve_market_with_reading(&mut market, Some((6_000, 1_939)), 2_000);
    assert_eq!(result, Err(PredictionError::StalePriceData));
    assert_eq!(market, before);
    assert_eq!(resolve_market_with_reading(&mut market, Some((6_000, 1_940)), 2_000), Ok(()));
    assert_eq!(market.outcome, Some(true));
    assert_eq!(market.strike_price, Some(6_000));
    assert!(market.resolved);
}

#[test]
fn fee_is_two_percent_rounded_down() {
    assert_eq!(platform_fee(600), 12);
    assert_eq!(platform_fee(0), 0);
    assert_eq!(platform_fee(49), 0);
    assert_eq!(platform_fee(50), 1);
    assert_eq!(platform_fee(10_000), 200);
    assert_eq!(platform_fee(u64::MAX), 368_934_881_474_191_032);
    assert_eq!(pool_after_fee(49), 49);
    assert_eq!(pool_after_fee(50), 49);
    assert_eq!(pool_after_fee(u64::MAX), u64::MAX - 368_934_881_474_191_032);
}

#[test]
fn fee_and_remainder_make_up_the_pool() {
    for total in [0u64, 1, 49, 50, 99, 600, 12_345, 1 << 40, u64::MAX - 1, u64::MAX] {
        assert_eq!(platform_fee(total) + pool_after_fee(total), total);
    }
}

#[test]
fn winnings_are_proportional_and_rounded_down() {
    assert_eq!(proportional_winnings(100, 588, 400), Some(147));
    assert_eq!(proportional_winnings(300, 588, 400), Some(441));
    assert_eq!(proportional_winnings(1, 10, 3), Some(3));
    assert_eq!(proportional_winnings(0, 10, 3), Some(0));
    assert_eq!(proportional_winnings(7, 0, 3), Some(0));
}

#[test]
fn winnings_use_a_wide_product() {
    let big = u64::MAX;
    assert_eq!(proportional_winnings(big, big, big), Some(big));
    assert_eq!(proportional_winnings(1 << 63, 1 << 63, 1 << 63), Some(1 << 63));
    assert_eq!(proportional_winnings(big, 2, 1), None);
    assert_eq!(proportional_winnings(big, big, 1), None);
}

#[test]
fn winners_are_paid_no_more_than_the_pool_after_fee() {
    let stakes = [1u64, 2, 3, 5, 7, 11];
    let winning_pool: u64 = stakes.iter().sum();
    let total = winning_pool + 1_000;
    let to_share = pool_after_fee(total);
    let mut paid = 0u64;
    for stake in stakes {
        paid += proportional_winnings(stake, to_share, winning_pool).unwrap();
    }
    assert!(paid <= to_share);
    assert_eq!(to_share, 1_009);
    assert_eq!(paid, 1_005);
}
