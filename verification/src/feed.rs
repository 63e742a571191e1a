//! Reading a price and its time out of the bytes of a Pyth price account.

use vstd::prelude::*;

verus! {

/// What `pyth_sdk_solana::state::load_price_account` makes of the bytes of an account, read
/// as a price account with 32 price components: the pair of the aggregate price and the time
/// stamp of the account that it accepts, and `None` for bytes that it rejects. It accepts
/// bytes that are long enough for such an account and begin with the magic number, the
/// version and the account type of one.
pub uninterp spec fn price_account_reading(data: Seq<u8>) -> Option<(i64, i64)>;

/// Calls `pyth_sdk_solana::state::load_price_account` for an account with 32 price
/// components, on a copy of `data` that `bytemuck::pod_collect_to_vec` has aligned to eight
/// bytes, since the call panics on bytes that are not aligned for the account. The contract
/// says only that the result is the one that these bytes always give: the aggregate price and
/// the time stamp of the account, or `None` where the bytes are rejected, whatever the reason.
#[verifier::external_body]
pub(crate) fn load_price_reading(data: &[u8]) -> (reading: Option<(i64, i64)>)
    ensures
        reading == price_account_reading(data@),
{
    let words: Vec<u64> = bytemuck::pod_collect_to_vec(data);
    let aligned: &[u8] = &bytemuck::cast_slice(&words)[..data.len()];
    match pyth_sdk_solana::state::load_price_account::<32, ()>(aligned) {
        Ok(account) => Some((account.agg.price, account.timestamp)),
        Err(_) => None,
    }
}

} // verus!
