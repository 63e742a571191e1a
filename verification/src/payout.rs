//! The arithmetic of settlement: the platform's fee and a winner's share.
//!
//! Every product is formed in `u128`, twice the width of an amount, before it is divided.

use vstd::prelude::*;

verus! {

/// The platform's fee in basis points: 2%.
pub const PLATFORM_FEE_BPS: u64 = 200;

/// Basis points in a whole.
pub const BPS_DENOMINATOR: u64 = 10000;

/// The platform's fee on a pool: `floor(total_pool * 200 / 10000)`.
pub open spec fn fee_of(total_pool: int) -> int {
    total_pool * (PLATFORM_FEE_BPS as int) / (BPS_DENOMINATOR as int)
}

/// What is left of a pool for the winners once the fee is taken.
pub open spec fn pool_after_fee_of(total_pool: int) -> int {
    total_pool - fee_of(total_pool)
}

/// A winner's share: `floor(amount * pool_after_fee / winning_pool)`.
pub open spec fn winnings_of(amount: int, pool_after_fee: int, winning_pool: int) -> int {
    amount * pool_after_fee / winning_pool
}

/// The fee is never negative and never more than the pool, and fee and remainder make up
/// the pool.
pub proof fn lemma_fee_splits_pool(total_pool: int)
    requires
        total_pool >= 0,
    ensures
        0 <= fee_of(total_pool) <= total_pool,
        0 <= pool_after_fee_of(total_pool) <= total_pool,
        fee_of(total_pool) + pool_after_fee_of(total_pool) == total_pool,
{
}

/// A share times the winning pool is at most the stake times the pool to share: a share is
/// rounded down, never up.
pub proof fn lemma_share_rounds_down(amount: int, pool_after_fee: int, winning_pool: int)
    requires
        amount >= 0,
        pool_after_fee >= 0,
        winning_pool > 0,
    ensures
        0 <= winnings_of(amount, pool_after_fee, winning_pool),
        winnings_of(amount, pool_after_fee, winning_pool) * winning_pool <= amount
            * pool_after_fee,
{
    let product = amount * pool_after_fee;
    assert(product >= 0) by (nonlinear_arith)
        requires
            amount >= 0,
            pool_after_fee >= 0,
            product == amount * pool_after_fee,
    ;
    assert(0 <= product / winning_pool && (product / winning_pool) * winning_pool <= product)
        by (nonlinear_arith)
        requires
            product >= 0,
            winning_pool > 0,
    ;
}

/// The platform's fee on a pool.
pub fn platform_fee(total_pool: u64) -> (fee: u64)
    ensures
        fee == fee_of(total_pool as int),
        fee <= total_pool,
{
    let scaled: u128 = (total_pool as u128) * (PLATFORM_FEE_BPS as u128);
    let fee: u128 = scaled / (BPS_DENOMINATOR as u128);
    fee as u64
}

/// What is left of a pool for the winners once the fee is taken.
pub fn pool_after_fee(total_pool: u64) -> (rest: u64)
    ensures
        rest == pool_after_fee_of(total_pool as int),
        rest + fee_of(total_pool as int) == total_pool,
{
    total_pool - platform_fee(total_pool)
}

/// A winner's share of the pool, or `None` where the share does not fit an amount.
pub fn proportional_winnings(amount: u64, pool_after_fee: u64, winning_pool: u64) -> (share:
    Option<u64>)
    requires
        winning_pool > 0,
    ensures
        match share {
            Some(paid) => paid == winnings_of(
                amount as int,
                pool_after_fee as int,
                winning_pool as int,
            ),
            None => winnings_of(amount as int, pool_after_fee as int, winning_pool as int)
                > u64::MAX,
        },
{
    assert((amount as int) * (pool_after_fee as int) <= 0xffff_ffff_ffff_ffff
        * 0xffff_ffff_ffff_ffff) by (nonlinear_arith)
        requires
            0 <= amount <= 0xffff_ffff_ffff_ffff,
            0 <= pool_after_fee <= 0xffff_ffff_ffff_ffff,
    ;
    let product: u128 = (amount as u128) * (pool_after_fee as u128);
    let quotient: u128 = product / (winning_pool as u128);
    if quotient > u64::MAX as u128 {
        None
    } else {
        Some(quotient as u64)
    }
}

} // verus!
