//! Collectible cards: their record at mint, and the tally of wins and losses.

use vstd::prelude::*;
use crate::error::PredictionError;
use crate::identity::Identity;
use crate::records::{Card, TokenHolding};

verus! {

/// Whether the holding proves that `owner` owns the card: exactly one unit, in the owner's
/// hands.
pub open spec fn holds_card(holding: TokenHolding, owner: Identity) -> bool {
    holding.amount == 1 && holding.owner == owner
}

/// What reporting a win or a loss does to a card: refused for a caller who does not hold the
/// card, and where the tally is at its limit; else the win or the loss is counted.
pub open spec fn stats_update(card: Card, holding: TokenHolding, owner: Identity, won: bool)
    -> Result<Card, PredictionError> {
    if !holds_card(holding, owner) {
        Err(PredictionError::NotCardOwner)
    } else if won {
        if card.wins == u64::MAX {
            Err(PredictionError::ArithmeticOverflow)
        } else {
            Ok(Card { wins: (card.wins + 1) as u64, ..card })
        }
    } else {
        if card.losses == u64::MAX {
            Err(PredictionError::ArithmeticOverflow)
        } else {
            Ok(Card { losses: (card.losses + 1) as u64, ..card })
        }
    }
}

/// The record of a card that has just been minted for `owner`: no wins, no losses.
pub fn mint_card(mint: Identity, owner: Identity, power: u8, rarity: u8, multiplier: u64, bump: u8)
    -> (card: Card)
    ensures
        card == (Card { mint, owner, power, rarity, multiplier, wins: 0, losses: 0, bump }),
{
    Card { mint, owner, power, rarity, multiplier, wins: 0, losses: 0, bump }
}

/// Counts a win or a loss on a card, as its owner reports it.
pub fn update_card_stats(card: &mut Card, holding: &TokenHolding, owner: Identity, won: bool)
    -> (result: Result<(), PredictionError>)
    ensures
        match stats_update(*old(card), *holding, owner, won) {
            Ok(next) => result.is_ok() && *final(card) == next,
            Err(e) => result == Err::<(), PredictionError>(e) && *final(card) == *old(card),
        },
{
    if holding.amount != 1 {
        return Err(PredictionError::NotCardOwner);
    }
    if !holding.owner.same_as(&owner) {
        return Err(PredictionError::NotCardOwner);
    }
    if won {
        match card.wins.checked_add(1) {
            Some(wins) => {
                card.wins = wins;
                Ok(())
            },
            None => Err(PredictionError::ArithmeticOverflow),
        }
    } else {
        match card.losses.checked_add(1) {
            Some(losses) => {
                card.losses = losses;
                Ok(())
            },
            None => Err(PredictionError::ArithmeticOverflow),
        }
    }
}

} // verus!
