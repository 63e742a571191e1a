//! Paying out a resolved market: each winner's claim, once, and the platform's fee.

use vstd::prelude::*;
use crate::error::PredictionError;
use crate::identity::Identity;
use crate::payout::{
    fee_of,
    lemma_fee_splits_pool,
    lemma_share_rounds_down,
    platform_fee,
    pool_after_fee,
    pool_after_fee_of,
    proportional_winnings,
    winnings_of,
};
use crate::records::{Bet, Market, MarketPhase, Platform};
use crate::wagering::stakes_total;

verus! {

/// The outcome that claims go by: that of a resolved market, and none before.
pub open spec fn settled_outcome(market: Market) -> Option<bool> {
    if market.resolved {
        market.outcome
    } else {
        None
    }
}

/// The share that a winning bet is paid from a market resolved as `outcome`.
pub open spec fn claim_amount(market: Market, bet: Bet, outcome: bool) -> int {
    winnings_of(
        bet.amount as int,
        pool_after_fee_of(market.total_pool()),
        market.pool_of(outcome),
    )
}

/// What a claim gives: the amount to pay, or why the claim is refused. A claim is refused on
/// a market without a settled outcome, for a bet that was claimed before, for a caller who is
/// not the bettor, where nothing was wagered on the winning side, for a bet on the other
/// side, and where the pools together or the share leave the range of an amount, in this
/// order.
pub open spec fn claim_outcome(market: Market, bet: Bet, caller: Identity) -> Result<
    u64,
    PredictionError,
> {
    match settled_outcome(market) {
        None => Err(PredictionError::MarketNotResolved),
        Some(outcome) => {
            if bet.claimed {
                Err(PredictionError::AlreadyClaimed)
            } else if bet.bettor != caller {
                Err(PredictionError::Unauthorized)
            } else if market.pool_of(outcome) == 0 {
                Err(PredictionError::NoWinningBets)
            } else if bet.prediction != outcome {
                Err(PredictionError::LosingBet)
            } else if market.total_pool() > u64::MAX || claim_amount(market, bet, outcome)
                > u64::MAX {
                Err(PredictionError::ArithmeticOverflow)
            } else {
                Ok(claim_amount(market, bet, outcome) as u64)
            }
        },
    }
}

/// What collecting the fee gives: the fee on both pools together, or why it is refused. It
/// is refused on an unresolved market, for a caller who is not the platform's authority, and
/// where the pools together leave the range of an amount, in this order.
pub open spec fn fee_outcome(market: Market, platform: Platform, caller: Identity) -> Result<
    u64,
    PredictionError,
> {
    if !market.resolved {
        Err(PredictionError::MarketNotResolved)
    } else if caller != platform.authority {
        Err(PredictionError::Unauthorized)
    } else if market.total_pool() > u64::MAX {
        Err(PredictionError::ArithmeticOverflow)
    } else {
        Ok(fee_of(market.total_pool()) as u64)
    }
}

/// A bet is claimed at most once: after a claim that was paid, every further claim on the
/// bet is refused as already claimed, whoever makes it, and changes nothing.
pub proof fn lemma_second_claim_refused(
    market: Market,
    bet: Bet,
    caller: Identity,
    second_caller: Identity,
)
    requires
        claim_outcome(market, bet, caller).is_ok(),
    ensures
        !bet.claimed,
        claim_outcome(market, Bet { claimed: true, ..bet }, second_caller) == Err::<
            u64,
            PredictionError,
        >(PredictionError::AlreadyClaimed),
{
}

/// No claim is paid and no fee is collected before the market is resolved.
pub proof fn lemma_nothing_paid_before_resolution(
    market: Market,
    platform: Platform,
    bet: Bet,
    caller: Identity,
    now: i64,
)
    requires
        market.phase_at(now) != MarketPhase::Resolved,
    ensures
        claim_outcome(market, bet, caller) == Err::<u64, PredictionError>(
            PredictionError::MarketNotResolved,
        ),
        fee_outcome(market, platform, caller) == Err::<u64, PredictionError>(
            PredictionError::MarketNotResolved,
        ),
{
}

/// Where nothing was wagered on the side that won, every claim on an unclaimed bet by its
/// bettor is refused for want of winning bets.
pub proof fn lemma_no_winning_bets(market: Market, bet: Bet)
    requires
        market.resolved,
        market.outcome.is_some(),
        market.pool_of(market.outcome.unwrap()) == 0,
        !bet.claimed,
    ensures
        claim_outcome(market, bet, bet.bettor) == Err::<u64, PredictionError>(
            PredictionError::NoWinningBets,
        ),
{
}

/// The fee that is collected and the pool that the claims share make up the pools exactly.
pub proof fn lemma_fee_and_claims_share_pool(market: Market, platform: Platform)
    requires
        fee_outcome(market, platform, platform.authority).is_ok(),
    ensures
        fee_outcome(market, platform, platform.authority).unwrap() + pool_after_fee_of(
            market.total_pool(),
        ) == market.total_pool(),
{
    lemma_fee_splits_pool(market.total_pool());
}

/// The card that a bet carries has no part in what the bet is paid: a claim gives the same
/// with any card and any multiplier on the bet.
pub proof fn lemma_card_has_no_part_in_claim(
    market: Market,
    bet: Bet,
    caller: Identity,
    card_mint: Option<Identity>,
    card_multiplier: u64,
)
    ensures
        claim_outcome(market, Bet { card_mint, card_multiplier, ..bet }, caller) == claim_outcome(
            market,
            bet,
            caller,
        ),
{
}

/// The sum of the shares that a sequence of bets is paid from a market resolved as `outcome`.
pub open spec fn claims_total(market: Market, bets: Seq<Bet>, outcome: bool) -> int
    decreases bets.len(),
{
    if bets.len() == 0 {
        0
    } else {
        claims_total(market, bets.drop_last(), outcome) + claim_amount(
            market,
            bets.last(),
            outcome,
        )
    }
}

/// The shares of a sequence of bets, times the winning pool, are together at most their
/// stakes times the pool that is shared out.
proof fn lemma_claims_scaled(market: Market, bets: Seq<Bet>, outcome: bool)
    requires
        market.pool_of(outcome) > 0,
    ensures
        0 <= stakes_total(bets),
        0 <= claims_total(market, bets, outcome),
        claims_total(market, bets, outcome) * market.pool_of(outcome) <= stakes_total(bets)
            * pool_after_fee_of(market.total_pool()),
    decreases bets.len(),
{
    let to_share = pool_after_fee_of(market.total_pool());
    let winning_pool = market.pool_of(outcome);
    lemma_fee_splits_pool(market.total_pool());
    if bets.len() > 0 {
        let rest = bets.drop_last();
        let stake = bets.last().amount as int;
        lemma_claims_scaled(market, rest, outcome);
        lemma_share_rounds_down(stake, to_share, winning_pool);
        let paid_rest = claims_total(market, rest, outcome);
        let paid_last = claim_amount(market, bets.last(), outcome);
        let staked_rest = stakes_total(rest);
        assert((paid_rest + paid_last) * winning_pool == paid_rest * winning_pool + paid_last
            * winning_pool) by (nonlinear_arith);
        assert((staked_rest + stake) * to_share == staked_rest * to_share + stake * to_share)
            by (nonlinear_arith);
    } else {
        assert(0 * winning_pool == 0 && 0 * to_share == 0) by (nonlinear_arith);
    }
}

/// Winning bets whose stakes together are no more than the winning pool are together paid
/// no more than the pool that is left after the fee: what is missing is lost to rounding.
pub proof fn lemma_claims_within_pool(market: Market, bets: Seq<Bet>, outcome: bool)
    requires
        market.pool_of(outcome) > 0,
        stakes_total(bets) <= market.pool_of(outcome),
    ensures
        0 <= claims_total(market, bets, outcome) <= pool_after_fee_of(market.total_pool()),
{
    lemma_claims_scaled(market, bets, outcome);
    lemma_fee_splits_pool(market.total_pool());
    let paid = claims_total(market, bets, outcome);
    let staked = stakes_total(bets);
    let to_share = pool_after_fee_of(market.total_pool());
    let winning_pool = market.pool_of(outcome);
    assert(paid <= to_share) by (nonlinear_arith)
        requires
            paid * winning_pool <= staked * to_share,
            0 <= staked <= winning_pool,
            to_share >= 0,
            winning_pool > 0,
            paid >= 0,
    ;
}

/// Claims the winnings of `bet` on `market` for `caller`, marks the bet as claimed, and
/// returns the amount that is to be paid out to the bettor.
pub fn claim_winnings(market: &Market, bet: &mut Bet, caller: Identity) -> (result: Result<
    u64,
    PredictionError,
>)
    ensures
        result == claim_outcome(*market, *old(bet), caller),
        result.is_ok() ==> *final(bet) == (Bet { claimed: true, ..*old(bet) }),
        result.is_err() ==> *final(bet) == *old(bet),
        result.is_ok() ==> !old(bet).claimed && final(bet).consistent_with(market),
        old(bet).claimed ==> final(bet).claimed,
{
    if !market.resolved {
        return Err(PredictionError::MarketNotResolved);
    }
    let outcome = match market.outcome {
        None => {
            return Err(PredictionError::MarketNotResolved);
        },
        Some(outcome) => outcome,
    };
    if bet.claimed {
        return Err(PredictionError::AlreadyClaimed);
    }
    if !bet.bettor.same_as(&caller) {
        return Err(PredictionError::Unauthorized);
    }
    let winning_pool: u64 = if outcome {
        market.total_yes_amount
    } else {
        market.total_no_amount
    };
    if winning_pool == 0 {
        return Err(PredictionError::NoWinningBets);
    }
    if bet.prediction != outcome {
        return Err(PredictionError::LosingBet);
    }
    let total_pool = match market.total_yes_amount.checked_add(market.total_no_amount) {
        Some(sum) => sum,
        None => {
            return Err(PredictionError::ArithmeticOverflow);
        },
    };
    let to_share = pool_after_fee(total_pool);
    match proportional_winnings(bet.amount, to_share, winning_pool) {
        None => Err(PredictionError::ArithmeticOverflow),
        Some(winnings) => {
            bet.claimed = true;
            Ok(winnings)
        },
    }
}

/// Returns the platform's fee on a resolved market, which is to be paid to the treasury.
/// Nothing is changed: the fee is computed anew from the pools at every call.
pub fn collect_platform_fee(market: &Market, platform: &Platform, caller: Identity) -> (result:
    Result<u64, PredictionError>)
    ensures
        result == fee_outcome(*market, *platform, caller),
        result.is_ok() ==> result.unwrap() + pool_after_fee_of(market.total_pool())
            == market.total_pool(),
{
    if !market.resolved {
        return Err(PredictionError::MarketNotResolved);
    }
    if !caller.same_as(&platform.authority) {
        return Err(PredictionError::Unauthorized);
    }
    let total_pool = match market.total_yes_amount.checked_add(market.total_no_amount) {
        Some(sum) => sum,
        None => {
            return Err(PredictionError::ArithmeticOverflow);
        },
    };
    Ok(platform_fee(total_pool))
}

} // verus!
