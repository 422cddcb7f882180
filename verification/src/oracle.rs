//! Reading the current unit price out of a price-oracle account.
//!
//! The oracle account's layout belongs to the external price-feed
//! program; what matters to the pool is only that the price read from it
//! is a function of the account bytes alone, named here and used by every
//! pricing contract.

use vstd::prelude::*;

verus! {

/// The current aggregate unit price carried by oracle account bytes:
/// `None` where the bytes do not decode as a price account. A pure
/// function of the bytes, the same in every process and on every
/// machine.
pub uninterp spec fn spec_oracle_price(data: Seq<u8>) -> Option<i64>;

/// Relies on `pyth_sdk_solana::state::load_price_account`, which accepts
/// the bytes only with the price magic, version and account type, and on
/// `PriceAccount::to_price_feed` with `PriceFeed::get_price_unchecked`,
/// which select the currently trading aggregate price, or the previous
/// trading price while the aggregate is not trading — in every case a
/// function of the bytes alone (the feed id labels the feed and does not
/// enter the price). The bytes are copied into a word-aligned buffer
/// first, since the loader casts them in place and would reject or fault
/// on a misaligned slice.
#[verifier::external_body]
pub(crate) fn read_oracle_price(data: &Vec<u8>) -> (r: Option<i64>)
    ensures
        r == spec_oracle_price(data@),
{
    let mut aligned: Vec<u64> = vec![0u64; (data.len() + 7) / 8];
    let buf = bytemuck::cast_slice_mut::<u64, u8>(aligned.as_mut_slice());
    buf[..data.len()].copy_from_slice(data.as_slice());
    match pyth_sdk_solana::state::load_price_account(&buf[..data.len()]) {
        Ok(account) => {
            let feed_id = solana_program::pubkey::Pubkey::new_from_array([0u8; 32]);
            Some(account.to_price_feed(&feed_id).get_price_unchecked().price)
        },
        Err(_) => None,
    }
}

} // verus!
