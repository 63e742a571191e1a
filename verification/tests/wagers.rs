use prediction::{
    battle, create_market, initialize_platform, mint_card, place_bet, resolve_market,
    update_card_stats, Bet, Card, Identity, Market, MarketCategory, OracleConfig, OracleDataType,
    OracleSource, Platform, PredictionError, TokenHolding,
};

fn id(n: u8) -> Identity {
    Identity::new([n; 32])
}

fn setup() -> (Platform, Market) {
    let mut platform = initialize_platform(id(1), id(2), 255);
    let config = OracleConfig {
        oracle_source: OracleSource::Manual,
        oracle_data_type: OracleDataType::Unspecified,
        price_feed: None,
        target_price: None,
        game_id: None,
        target_spread: None,
        location: None,
        weather_metric: None,
        target_value: None,
        data_identifier: None,
        metric_type: None,
        threshold: None,
    };
    let market = create_market(
        &mut platform,
        id(1),
        String::from("Q"),
        String::from("D"),
        1_000,
        MarketCategory::Gaming,
        config,
        100,
        9,
    )
    .unwrap();
    (platform, market)
}

fn card() -> Card {
    mint_card(id(70), id(10), 8, 2, 15_000, 250)
}

fn holding(owner: u8, amount: u64) -> TokenHolding {
    TokenHolding { owner: id(owner), amount }
}

#[test]
fn wager_updates_pool_stake_and_volume_together() {
    let (mut platform, mut market) = setup();
    let mut bet = Bet::empty();
    assert_eq!(
        place_bet(&mut market, &mut platform, &mut bet, id(200), id(10), 40, true, 500),
        Ok(())
    );
    assert_eq!(market.total_yes_amount, 40);
    assert_eq!(market.total_no_amount, 0);
    assert_eq!(platform.total_volume, 40);
    assert_eq!(bet.market, id(200));
    assert_eq!(bet.bettor, id(10));
    assert_eq!(bet.amount, 40);
    assert!(bet.prediction);
    assert!(!bet.claimed);
    assert_eq!(bet.card_mint, None);
    assert_eq!(bet.card_multiplier, 0);
}

#[test]
fn repeated_wagers_accumulate_and_the_latest_side_stands() {
    let (mut platform, mut market) = setup();
    let mut bet = Bet::empty();
    place_bet(&mut market, &mut platform, &mut bet, id(200), id(10), 40, true, 500).unwrap();
    place_bet(&mut market, &mut platform, &mut bet, id(200), id(10), 2, false, 501).unwrap();
    place_bet(&mut market, &mut platform, &mut bet, id(200), id(10), 8, false, 502).unwrap();
    assert_eq!(bet.amount, 50);
    assert!(!bet.prediction);
    assert_eq!(market.total_yes_amount, 40);
    assert_eq!(market.total_no_amount, 10);
    assert_eq!(platform.total_volume, 50);
}

#[test]
fn pools_are_the_sum_of_the_wagers() {
    let (mut platform, mut market) = setup();
    let wagers: [(u8, u64, bool); 7] = [
        (10, 5, true),
        (11, 17, false),
        (10, 1, true),
        (12, 1_000_000, false),
        (13, 3, true),
        (11, 9, true),
        (12, 250, false),
    ];
    let mut bets = vec![Bet::empty(); 4];
    let mut sum = 0u64;
    let mut yes = 0u64;
    for (bettor, amount, side) in wagers {
        let bet = &mut bets[(bettor - 10) as usize];
        place_bet(&mut market, &mut platform, bet, id(200), id(bettor), amount, side, 500).unwrap();
        sum += amount;
        if side {
            yes += amount;
        }
        assert_eq!(market.total_yes_amount + market.total_no_amount, sum);
        assert_eq!(market.total_yes_amount, yes);
    }
    assert_eq!(platform.total_volume, sum);
    assert_eq!(bets.iter().map(|bet| bet.amount).sum::<u64>(), sum);
    assert_eq!(sum, 1_000_285);
}

#[test]
fn refused_wagers_add_nothing_to_the_pools() {
    let (mut platform, mut market) = setup();
    let mut bet = Bet::empty();
    place_bet(&mut market, &mut platform, &mut bet, id(200), id(10), 40, true, 500).unwrap();
    let (market_before, platform_before, bet_before) = (market.clone(), platform, bet);
    assert_eq!(
        place_bet(&mut market, &mut platform, &mut bet, id(200), id(10), 0, false, 500),
        Err(PredictionError::InvalidAmount)
    );
    assert_eq!(
        place_bet(&mut market, &mut platform, &mut bet, id(200), id(10), 5, false, 1_000),
        Err(PredictionError::MarketEnded)
    );
    assert_eq!(
        place_bet(&mut market, &mut platform, &mut bet, id(200), id(10), 5, false, 1_001),
        Err(PredictionError::MarketEnded)
    );
    assert_eq!(market, market_before);
    assert_eq!(platform, platform_before);
    assert_eq!(bet, bet_before);
    assert_eq!(
        place_bet(&mut market, &mut platform, &mut bet, id(200), id(10), 5, false, 999),
        Ok(())
    );
}

#[test]
fn resolved_market_takes_no_wager() {
    let (mut platform, mut market) = setup();
    market.end_time = 100;
    resolve_market(&mut market, id(1), false, 100).unwrap();
    let mut bet = Bet::empty();
    let before = market.clone();
    assert_eq!(
        place_bet(&mut market, &mut platform, &mut bet, id(200), id(10), 5, false, 50),
        Err(PredictionError::MarketAlreadyResolved)
    );
    assert_eq!(
        place_bet(&mut market, &mut platform, &mut bet, id(200), id(10), 0, false, 50),
        Err(PredictionError::InvalidAmount)
    );
    assert_eq!(market, before);
    assert_eq!(platform.total_volume, 0);
}

#[test]
fn pool_overflow_fails_closed() {
    let (mut platform, mut market) = setup();
    let mut bet = Bet::empty();
    market.total_yes_amount = u64::MAX - 10;
    let (market_before, platform_before) = (market.clone(), platform);
    assert_eq!(
        place_bet(&mut market, &mut platform, &mut bet, id(200), id(10), 11, true, 500),
        Err(PredictionError::ArithmeticOverflow)
    );
    assert_eq!(market, market_before);
    assert_eq!(platform, platform_before);
    assert_eq!(bet, Bet::empty());
    assert_eq!(
        place_bet(&mut market, &mut platform, &mut bet, id(200), id(10), 10, true, 500),
        Ok(())
    );
    assert_eq!(market.total_yes_amount, u64::MAX);
    assert_eq!(
        place_bet(&mut market, &mut platform, &mut bet, id(200), id(10), 10, false, 500),
        Ok(())
    );
    assert_eq!(market.total_no_amount, 10);
}

#[test]
fn stake_and_volume_overflow_fail_closed() {
    let (mut platform, mut market) = setup();
    let mut bet = Bet::empty();
    bet.amount = u64::MAX;
    let before = (market.clone(), platform, bet);
    assert_eq!(
        place_bet(&mut market, &mut platform, &mut bet, id(200), id(10), 1, true, 500),
        Err(PredictionError::ArithmeticOverflow)
    );
    assert_eq!((market.clone(), platform, bet), before);

    let mut fresh = Bet::empty();
    platform.total_volume = u64::MAX - 1;
    let before = (market.clone(), platform, fresh);
    assert_eq!(
        place_bet(&mut market, &mut platform, &mut fresh, id(200), id(10), 2, false, 500),
        Err(PredictionError::ArithmeticOverflow)
    );
    assert_eq!((market.clone(), platform, fresh), before);
}

#[test]
fn card_wager_keeps_the_multiplier_of_its_moment() {
    let (mut platform, mut market) = setup();
    let mut card = card();
    let mut bet = Bet::empty();
    assert_eq!(
        battle(
            &mut market,
            &mut platform,
            &mut bet,
            &card,
            &holding(10, 1),
            id(200),
            id(10),
            25,
            false,
            500
        ),
        Ok(())
    );
    assert_eq!(bet.card_mint, Some(id(70)));
    assert_eq!(bet.card_multiplier, 15_000);
    assert_eq!(bet.amount, 25);
    assert_eq!(bet.bettor, id(10));
    assert_eq!(bet.market, id(200));
    assert!(!bet.prediction);
    assert_eq!(market.total_no_amount, 25);
    assert_eq!(platform.total_volume, 25);
    card.multiplier = 1;
    assert_eq!(bet.card_multiplier, 15_000);
}

#[test]
fn card_wager_needs_exactly_one_unit_held_by_the_player() {
    let (mut platform, mut market) = setup();
    let card = card();
    let mut bet = Bet::empty();
    let before = (market.clone(), platform, bet);
    for (held, player) in [(holding(10, 0), 10u8), (holding(10, 2), 10), (holding(11, 1), 10)] {
        assert_eq!(
            battle(
                &mut market,
                &mut platform,
                &mut bet,
                &card,
                &held,
                id(200),
                id(player),
                25,
                true,
                500
            ),
            Err(PredictionError::NotCardOwner)
        );
    }
    assert_eq!((market.clone(), platform, bet), before);
}

#[test]
fn card_wager_is_checked_like_any_wager() {
    let (mut platform, mut market) = setup();
    let card = card();
    let mut bet = Bet::empty();
    let held = holding(10, 1);
    let before = (market.clone(), platform, bet);
    assert_eq!(
        battle(&mut market, &mut platform, &mut bet, &card, &holding(11, 5), id(200), id(10), 0, true, 500),
        Err(PredictionError::InvalidAmount)
    );
    assert_eq!(
        battle(&mut market, &mut platform, &mut bet, &card, &held, id(200), id(10), 5, true, 1_000),
        Err(PredictionError::MarketEnded)
    );
    assert_eq!(
        battle(&mut market, &mut platform, &mut bet, &card, &holding(11, 1), id(200), id(10), 5, true, 1_000),
        Err(PredictionError::NotCardOwner)
    );
    platform.total_volume = u64::MAX;
    assert_eq!(
        battle(&mut market, &mut platform, &mut bet, &card, &held, id(200), id(10), 5, true, 500),
        Err(PredictionError::ArithmeticOverflow)
    );
    platform.total_volume = 0;
    assert_eq!((market.clone(), platform, bet), before);
    market.end_time = 100;
    resolve_market(&mut market, id(1), true, 100).unwrap();
    assert_eq!(
        battle(&mut market, &mut platform, &mut bet, &card, &held, id(200), id(10), 5, true, 50),
        Err(PredictionError::MarketAlreadyResolved)
    );
    assert_eq!(bet, Bet::empty());
}

#[test]
fn minted_card_has_no_wins_and_no_losses() {
    let card = card();
    assert_eq!(
        card,
        Card {
            mint: id(70),
            owner: id(10),
            power: 8,
            rarity: 2,
            multiplier: 15_000,
            wins: 0,
            losses: 0,
            bump: 250
        }
    );
}

#[test]
fn card_stats_count_what_the_owner_reports() {
    let mut card = card();
    let held = holding(10, 1);
    assert_eq!(update_card_stats(&mut card, &held, id(10), true), Ok(()));
    assert_eq!(update_card_stats(&mut card, &held, id(10), true), Ok(()));
    assert_eq!(update_card_stats(&mut card, &held, id(10), false), Ok(()));
    assert_eq!((card.wins, card.losses), (2, 1));
    let before = card;
    assert_eq!(
        update_card_stats(&mut card, &holding(10, 0), id(10), true),
        Err(PredictionError::NotCardOwner)
    );
    assert_eq!(
        update_card_stats(&mut card, &holding(11, 1), id(10), false),
        Err(PredictionError::NotCardOwner)
    );
    assert_eq!(card, before);
}

#[test]
fn card_stats_do_not_wrap() {
    let mut card = card();
    let held = holding(10, 1);
    card.wins = u64::MAX;
    card.losses = u64::MAX - 1;
    let before = card;
    assert_eq!(
        update_card_stats(&mut card, &held, id(10), true),
        Err(PredictionError::ArithmeticOverflow)
    );
    assert_eq!(card, before);
    assert_eq!(update_card_stats(&mut card, &held, id(10), false), Ok(()));
    assert_eq!(card.losses, u64::MAX);
    assert_eq!(
        update_card_stats(&mut card, &held, id(10), false),
        Err(PredictionError::ArithmeticOverflow)
    );
}

#[test]
fn order_of_wagers_does_not_change_the_totals() {
    let (mut platform_one, mut market_one) = setup();
    let (mut platform_other, mut market_other) = setup();
    let mut first_one = Bet::empty();
    let mut second_one = Bet::empty();
    let mut first_other = Bet::empty();
    let mut second_other = Bet::empty();
    place_bet(&mut market_one, &mut platform_one, &mut first_one, id(200), id(10), 7, true, 500)
        .unwrap();
    place_bet(&mut market_one, &mut platform_one, &mut second_one, id(200), id(11), 9, false, 501)
        .unwrap();
    place_bet(&mut market_other, &mut platform_other, &mut second_other, id(200), id(11), 9, false, 500)
        .unwrap();
    place_bet(&mut market_other, &mut platform_other, &mut first_other, id(200), id(10), 7, true, 501)
        .unwrap();
    assert_eq!(market_one, market_other);
    assert_eq!(platform_one, platform_other);
    assert_eq!(first_one, first_other);
    assert_eq!(second_one, second_other);
    assert_eq!(market_one.total_yes_amount, 7);
    assert_eq!(market_one.total_no_amount, 9);
}
