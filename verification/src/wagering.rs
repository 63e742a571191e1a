//! The wagering ledger: a wager is added to its side's pool, to the bettor's stake and to
//! the platform's volume in one step, or to none of them.

use vstd::prelude::*;
use crate::error::PredictionError;
use crate::identity::Identity;
use crate::records::{Bet, Card, Market, MarketPhase, Platform, TokenHolding};

verus! {

/// Why a wager is refused, if it is: no amount, a resolved market, a market past its
/// deadline, or a pool, a stake or the volume that would leave the range of an amount, in
/// this order.
pub open spec fn wager_refusal(
    market: Market,
    platform: Platform,
    bet: Bet,
    amount: u64,
    side: bool,
    now: i64,
) -> Option<PredictionError> {
    if amount == 0 {
        Some(PredictionError::InvalidAmount)
    } else if market.resolved {
        Some(PredictionError::MarketAlreadyResolved)
    } else if now >= market.end_time {
        Some(PredictionError::MarketEnded)
    } else if market.pool_of(side) + amount > u64::MAX || bet.amount + amount > u64::MAX
        || platform.total_volume + amount > u64::MAX {
        Some(PredictionError::ArithmeticOverflow)
    } else {
        None
    }
}

/// Why a wager that carries a card is refused, if it is: no amount, a holding that is not
/// exactly one unit in the player's hands, and then as any other wager.
pub open spec fn card_wager_refusal(
    market: Market,
    platform: Platform,
    bet: Bet,
    holding: TokenHolding,
    player: Identity,
    amount: u64,
    side: bool,
    now: i64,
) -> Option<PredictionError> {
    if amount == 0 {
        Some(PredictionError::InvalidAmount)
    } else if holding.amount != 1 || holding.owner != player {
        Some(PredictionError::NotCardOwner)
    } else {
        wager_refusal(market, platform, bet, amount, side, now)
    }
}

/// The market with `amount` added to the pool of `side`.
pub open spec fn market_after_wager(market: Market, amount: u64, side: bool) -> Market {
    if side {
        Market { total_yes_amount: (market.total_yes_amount + amount) as u64, ..market }
    } else {
        Market { total_no_amount: (market.total_no_amount + amount) as u64, ..market }
    }
}

/// The bettor's record with `amount` added to the stake and `side` as the prediction.
pub open spec fn bet_after_wager(
    bet: Bet,
    market_key: Identity,
    bettor: Identity,
    amount: u64,
    side: bool,
) -> Bet {
    Bet {
        market: market_key,
        bettor,
        amount: (bet.amount + amount) as u64,
        prediction: side,
        claimed: false,
        ..bet
    }
}

/// The platform with `amount` added to its volume.
pub open spec fn platform_after_wager(platform: Platform, amount: u64) -> Platform {
    Platform { total_volume: (platform.total_volume + amount) as u64, ..platform }
}

/// One wager as it is offered to a ledger whose bettors are numbered from zero.
pub struct Wager {
    pub bettor: nat,
    pub amount: u64,
    pub side: bool,
    pub now: i64,
}

/// A market with the platform it belongs to and the records of all its bettors.
pub struct Ledger {
    pub market: Market,
    pub platform: Platform,
    pub bets: Seq<Bet>,
}

/// The sum of the stakes of a sequence of bets.
pub open spec fn stakes_total(bets: Seq<Bet>) -> int
    decreases bets.len(),
{
    if bets.len() == 0 {
        0
    } else {
        stakes_total(bets.drop_last()) + bets.last().amount
    }
}

impl Ledger {
    /// Whether the ledger takes the wager: it is from one of its bettors and is not refused.
    pub open spec fn places(self, wager: Wager) -> bool {
        wager.bettor < self.bets.len() && wager_refusal(
            self.market,
            self.platform,
            self.bets[wager.bettor as int],
            wager.amount,
            wager.side,
            wager.now,
        ).is_none()
    }

    /// The ledger after the wager was offered: changed as placing the wager changes the three
    /// records where it is taken, and as before where it is not.
    pub open spec fn after_wager(
        self,
        market_key: Identity,
        bettors: Seq<Identity>,
        wager: Wager,
    ) -> Ledger {
        if self.places(wager) {
            Ledger {
                market: market_after_wager(self.market, wager.amount, wager.side),
                platform: platform_after_wager(self.platform, wager.amount),
                bets: self.bets.update(
                    wager.bettor as int,
                    bet_after_wager(
                        self.bets[wager.bettor as int],
                        market_key,
                        bettors[wager.bettor as int],
                        wager.amount,
                        wager.side,
                    ),
                ),
            }
        } else {
            self
        }
    }

    /// The ledger after a sequence of wagers was offered, the first of them first.
    pub open spec fn after_wagers(
        self,
        market_key: Identity,
        bettors: Seq<Identity>,
        wagers: Seq<Wager>,
    ) -> Ledger
        decreases wagers.len(),
    {
        if wagers.len() == 0 {
            self
        } else {
            self.after_wagers(market_key, bettors, wagers.drop_last()).after_wager(
                market_key,
                bettors,
                wagers.last(),
            )
        }
    }

    /// The sum of the amounts of those wagers of a sequence that the ledger takes.
    pub open spec fn placed_sum(
        self,
        market_key: Identity,
        bettors: Seq<Identity>,
        wagers: Seq<Wager>,
    ) -> int
        decreases wagers.len(),
    {
        if wagers.len() == 0 {
            0
        } else {
            self.placed_sum(market_key, bettors, wagers.drop_last()) + if self.after_wagers(
                market_key,
                bettors,
                wagers.drop_last(),
            ).places(wagers.last()) {
                wagers.last().amount as int
            } else {
                0
            }
        }
    }

    /// Whether the pools together are the sum of the stakes of all bettors.
    pub open spec fn balanced(self) -> bool {
        self.market.total_pool() == stakes_total(self.bets)
    }
}

/// Replacing one bet changes the sum of the stakes by the difference of the two stakes.
proof fn lemma_stake_replaced(bets: Seq<Bet>, i: int, bet: Bet)
    requires
        0 <= i < bets.len(),
    ensures
        stakes_total(bets.update(i, bet)) == stakes_total(bets) - bets[i].amount + bet.amount,
    decreases bets.len(),
{
    let updated = bets.update(i, bet);
    if i == bets.len() - 1 {
        assert(updated.drop_last() =~= bets.drop_last());
    } else {
        assert(updated.drop_last() =~= bets.drop_last().update(i, bet));
        lemma_stake_replaced(bets.drop_last(), i, bet);
    }
}

/// The pools never drift from the wagers: whatever wagers are offered in whatever order, the
/// two pools together, the stakes of all bettors together and the platform's volume each grow
/// by exactly the sum of the wagers that were placed, and no pool ever shrinks. So a ledger
/// whose pools are the sum of its stakes, as that of a new market is, stays so.
pub proof fn lemma_pools_are_sum_of_wagers(
    ledger: Ledger,
    market_key: Identity,
    bettors: Seq<Identity>,
    wagers: Seq<Wager>,
)
    ensures
        ({
            let end = ledger.after_wagers(market_key, bettors, wagers);
            let placed = ledger.placed_sum(market_key, bettors, wagers);
            &&& placed >= 0
            &&& end.bets.len() == ledger.bets.len()
            &&& end.market.total_pool() == ledger.market.total_pool() + placed
            &&& stakes_total(end.bets) == stakes_total(ledger.bets) + placed
            &&& end.platform.total_volume == ledger.platform.total_volume + placed
            &&& end.market.total_yes_amount >= ledger.market.total_yes_amount
            &&& end.market.total_no_amount >= ledger.market.total_no_amount
            &&& ledger.balanced() ==> end.balanced()
        }),
    decreases wagers.len(),
{
    if wagers.len() > 0 {
        let before = ledger.after_wagers(market_key, bettors, wagers.drop_last());
        let wager = wagers.last();
        lemma_pools_are_sum_of_wagers(ledger, market_key, bettors, wagers.drop_last());
        if before.places(wager) {
            lemma_stake_replaced(
                before.bets,
                wager.bettor as int,
                bet_after_wager(
                    before.bets[wager.bettor as int],
                    market_key,
                    bettors[wager.bettor as int],
                    wager.amount,
                    wager.side,
                ),
            );
        }
    }
}

/// The order of two wagers does not matter: where both are placed whichever comes first,
/// the market and the platform end the same, and so do the bets where the wagers are from
/// two bettors.
pub proof fn lemma_wagers_commute(
    ledger: Ledger,
    market_key: Identity,
    bettors: Seq<Identity>,
    first: Wager,
    second: Wager,
)
    requires
        ledger.places(first),
        ledger.places(second),
        ledger.after_wager(market_key, bettors, first).places(second),
        ledger.after_wager(market_key, bettors, second).places(first),
    ensures
        ({
            let one = ledger.after_wager(market_key, bettors, first).after_wager(
                market_key,
                bettors,
                second,
            );
            let other = ledger.after_wager(market_key, bettors, second).after_wager(
                market_key,
                bettors,
                first,
            );
            &&& one.market == other.market
            &&& one.platform == other.platform
            &&& first.bettor != second.bettor ==> one.bets == other.bets
        }),
{
    let one = ledger.after_wager(market_key, bettors, first).after_wager(
        market_key,
        bettors,
        second,
    );
    let other = ledger.after_wager(market_key, bettors, second).after_wager(
        market_key,
        bettors,
        first,
    );
    if first.bettor != second.bettor {
        assert(one.bets =~= other.bets);
    }
}

/// A wager touches nothing but a pool: whether the market is resolved, its outcome, its
/// phase at any time and its invariant are as before. Wagers are taken by an open market
/// only; on a resolved market every wager is refused.
pub proof fn lemma_wager_keeps_outcome(
    market: Market,
    platform: Platform,
    bet: Bet,
    amount: u64,
    side: bool,
    now: i64,
)
    ensures
        market_after_wager(market, amount, side).resolved == market.resolved,
        market_after_wager(market, amount, side).outcome == market.outcome,
        market.wf() ==> market_after_wager(market, amount, side).wf(),
        market.resolved ==> wager_refusal(market, platform, bet, amount, side, now).is_some(),
        wager_refusal(market, platform, bet, amount, side, now).is_none() ==> market.phase_at(now)
            == MarketPhase::Open && amount > 0,
        forall|t: i64| #[trigger]
            market_after_wager(market, amount, side).phase_at(t) == market.phase_at(t),
{
}

/// A pool never shrinks: an accepted wager leaves each pool at least as large as it was.
pub proof fn lemma_wager_grows_pools(market: Market, amount: u64, side: bool)
    requires
        market.pool_of(side) + amount <= u64::MAX,
    ensures
        market_after_wager(market, amount, side).total_yes_amount >= market.total_yes_amount,
        market_after_wager(market, amount, side).total_no_amount >= market.total_no_amount,
        market_after_wager(market, amount, side).total_pool() == market.total_pool() + amount,
{
}

/// Adds a wager to the three records at once, after the checks that both kinds of wager
/// share.
fn record_wager(
    market: &mut Market,
    platform: &mut Platform,
    bet: &mut Bet,
    market_key: Identity,
    bettor: Identity,
    amount: u64,
    prediction: bool,
    now: i64,
) -> (result: Result<(), PredictionError>)
    requires
        amount > 0,
    ensures
        match wager_refusal(*old(market), *old(platform), *old(bet), amount, prediction, now) {
            Some(e) => {
                &&& result == Err::<(), PredictionError>(e)
                &&& *final(market) == *old(market)
                &&& *final(platform) == *old(platform)
                &&& *final(bet) == *old(bet)
            },
            None => {
                &&& result.is_ok()
                &&& *final(market) == market_after_wager(*old(market), amount, prediction)
                &&& *final(platform) == platform_after_wager(*old(platform), amount)
                &&& *final(bet) == bet_after_wager(
                    *old(bet),
                    market_key,
                    bettor,
                    amount,
                    prediction,
                )
            },
        },
{
    if market.resolved {
        return Err(PredictionError::MarketAlreadyResolved);
    }
    if now >= market.end_time {
        return Err(PredictionError::MarketEnded);
    }
    let pool: u64 = if prediction {
        market.total_yes_amount
    } else {
        market.total_no_amount
    };
    let new_pool = match pool.checked_add(amount) {
        Some(sum) => sum,
        None => {
            return Err(PredictionError::ArithmeticOverflow);
        },
    };
    let new_stake = match bet.amount.checked_add(amount) {
        Some(sum) => sum,
        None => {
            return Err(PredictionError::ArithmeticOverflow);
        },
    };
    let new_volume = match platform.total_volume.checked_add(amount) {
        Some(sum) => sum,
        None => {
            return Err(PredictionError::ArithmeticOverflow);
        },
    };
    if prediction {
        market.total_yes_amount = new_pool;
    } else {
        market.total_no_amount = new_pool;
    }
    bet.market = market_key;
    bet.bettor = bettor;
    bet.amount = new_stake;
    bet.prediction = prediction;
    bet.claimed = false;
    platform.total_volume = new_volume;
    Ok(())
}

/// Places a wager of `amount` on the side `prediction` of an open market, for `bettor`.
pub fn place_bet(
    market: &mut Market,
    platform: &mut Platform,
    bet: &mut Bet,
    market_key: Identity,
    bettor: Identity,
    amount: u64,
    prediction: bool,
    now: i64,
) -> (result: Result<(), PredictionError>)
    ensures
        match wager_refusal(*old(market), *old(platform), *old(bet), amount, prediction, now) {
            Some(e) => {
                &&& result == Err::<(), PredictionError>(e)
                &&& *final(market) == *old(market)
                &&& *final(platform) == *old(platform)
                &&& *final(bet) == *old(bet)
            },
            None => {
                &&& result.is_ok()
                &&& *final(market) == market_after_wager(*old(market), amount, prediction)
                &&& *final(platform) == platform_after_wager(*old(platform), amount)
                &&& *final(bet) == bet_after_wager(
                    *old(bet),
                    market_key,
                    bettor,
                    amount,
                    prediction,
                )
            },
        },
        old(market).wf() ==> final(market).wf(),
        final(market).total_yes_amount >= old(market).total_yes_amount,
        final(market).total_no_amount >= old(market).total_no_amount,
        final(market).total_pool() == old(market).total_pool() + (if result.is_ok() {
            amount
        } else {
            0
        }),
        old(bet).consistent_with(old(market)) ==> final(bet).consistent_with(final(market)),
{
    if amount == 0 {
        return Err(PredictionError::InvalidAmount);
    }
    record_wager(market, platform, bet, market_key, bettor, amount, prediction, now)
}

/// Places a wager that carries a card: as [`place_bet`], for a player who holds exactly one
/// unit of the card's token, and the bet keeps the card and its multiplier of this moment.
pub fn battle(
    market: &mut Market,
    platform: &mut Platform,
    bet: &mut Bet,
    card: &Card,
    holding: &TokenHolding,
    market_key: Identity,
    player: Identity,
    amount: u64,
    prediction: bool,
    now: i64,
) -> (result: Result<(), PredictionError>)
    ensures
        match card_wager_refusal(
            *old(market),
            *old(platform),
            *old(bet),
            *holding,
            player,
            amount,
            prediction,
            now,
        ) {
            Some(e) => {
                &&& result == Err::<(), PredictionError>(e)
                &&& *final(market) == *old(market)
                &&& *final(platform) == *old(platform)
                &&& *final(bet) == *old(bet)
            },
            None => {
                &&& result.is_ok()
                &&& *final(market) == market_after_wager(*old(market), amount, prediction)
                &&& *final(platform) == platform_after_wager(*old(platform), amount)
                &&& *final(bet) == (Bet {
                    card_mint: Some(card.mint),
                    card_multiplier: card.multiplier,
                    ..bet_after_wager(*old(bet), market_key, player, amount, prediction)
                })
            },
        },
        old(market).wf() ==> final(market).wf(),
        final(market).total_yes_amount >= old(market).total_yes_amount,
        final(market).total_no_amount >= old(market).total_no_amount,
        final(market).total_pool() == old(market).total_pool() + (if result.is_ok() {
            amount
        } else {
            0
        }),
        old(bet).consistent_with(old(market)) ==> final(bet).consistent_with(final(market)),
{
    if amount == 0 {
        return Err(PredictionError::InvalidAmount);
    }
    if holding.amount != 1 {
        return Err(PredictionError::NotCardOwner);
    }
    if !holding.owner.same_as(&player) {
        return Err(PredictionError::NotCardOwner);
    }
    let recorded = record_wager(market, platform, bet, market_key, player, amount, prediction, now);
    if recorded.is_ok() {
        bet.card_mint = Some(card.mint);
        bet.card_multiplier = card.multiplier;
    }
    recorded
}

} // verus!
