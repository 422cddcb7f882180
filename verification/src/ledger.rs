//! Decoding of the token ledger's account and mint records.
//!
//! Custody accounts and mints are records of the external token ledger
//! program. Their byte layouts are fixed: the acceptance conditions and the
//! fields the pool reads are stated here exactly, and the decoding itself is
//! done by the ledger's own library.

use vstd::prelude::*;
use vstd::bytes::spec_u64_from_le_bytes;
use solana_program::program_pack::Pack;
use crate::keys::Pubkey;

verus! {

/// What the pool reads out of a decoded token account: its owner and its
/// balance.
#[derive(Clone, Copy, Debug)]
pub struct TokenAccountInfo {
    /// Owner identity of the account.
    pub owner: Pubkey,
    /// Balance of the account.
    pub amount: u64,
}

/// What the pool reads out of a decoded mint: its mint authority and its
/// outstanding supply.
#[derive(Clone, Copy, Debug)]
pub struct MintInfo {
    /// The identity allowed to mint, if one is set.
    pub mint_authority: Option<Pubkey>,
    /// Outstanding supply of the mint.
    pub supply: u64,
}

/// A serialized optional key: a four-byte tag of 0 or 1 followed by the
/// 32 key bytes.
pub open spec fn spec_coption_key_ok(d: Seq<u8>) -> bool {
    (d[0] == 0 || d[0] == 1) && d[1] == 0 && d[2] == 0 && d[3] == 0
}

/// Whether 165 bytes decode as an initialized token account: the
/// optional delegate and close-authority tags and the optional native
/// tag must be valid, and the state byte must mark an initialized or
/// frozen account.
pub open spec fn spec_token_account_accepted(d: Seq<u8>) -> bool {
    d.len() == 165 && spec_coption_key_ok(d.subrange(72, 108)) && (d[108] == 1 || d[108] == 2)
        && spec_coption_key_ok(d.subrange(109, 121)) && spec_coption_key_ok(d.subrange(129, 165))
}

/// The owner stored in a serialized token account.
pub open spec fn spec_token_account_owner(d: Seq<u8>) -> Seq<u8> {
    d.subrange(32, 64)
}

/// The balance stored in a serialized token account.
pub open spec fn spec_token_account_amount(d: Seq<u8>) -> u64 {
    spec_u64_from_le_bytes(d.subrange(64, 72))
}

/// Whether 82 bytes decode as an initialized mint: both optional
/// authority tags must be valid and the initialized byte must be 1.
pub open spec fn spec_mint_accepted(d: Seq<u8>) -> bool {
    d.len() == 82 && spec_coption_key_ok(d.subrange(0, 36)) && d[45] == 1 && spec_coption_key_ok(
        d.subrange(46, 82),
    )
}

/// The mint authority stored in a serialized mint, if one is set.
pub open spec fn spec_mint_authority(d: Seq<u8>) -> Option<Seq<u8>> {
    if d[0] == 1 {
        Some(d.subrange(4, 36))
    } else {
        None
    }
}

/// The supply stored in a serialized mint.
pub open spec fn spec_mint_supply(d: Seq<u8>) -> u64 {
    spec_u64_from_le_bytes(d.subrange(36, 44))
}

/// Relies on `spl_token::state::Account::unpack`: accepts exactly 165
/// bytes whose optional-field tags are valid and whose state byte marks
/// an initialized account, and reads the owner at bytes 32..64 and the
/// little-endian balance at bytes 64..72.
#[verifier::external_body]
pub(crate) fn unpack_token_account_bytes(data: &Vec<u8>) -> (r: Option<TokenAccountInfo>)
    ensures
        match r {
            Some(info) => spec_token_account_accepted(data@) && info.owner@
                == spec_token_account_owner(data@) && info.amount == spec_token_account_amount(
                data@,
            ),
            None => !spec_token_account_accepted(data@),
        },
{
    match spl_token::state::Account::unpack(data.as_slice()) {
        Ok(account) => Some(
            TokenAccountInfo { owner: Pubkey { bytes: account.owner.to_bytes() }, amount: account.amount },
        ),
        Err(_) => None,
    }
}

/// Relies on `spl_token::state::Mint::unpack`: accepts exactly 82 bytes
/// whose optional-authority tags are valid and whose initialized byte is
/// 1, and reads the optional mint authority at bytes 0..36 and the
/// little-endian supply at bytes 36..44.
#[verifier::external_body]
pub(crate) fn unpack_mint_bytes(data: &Vec<u8>) -> (r: Option<MintInfo>)
    ensures
        match r {
            Some(info) => spec_mint_accepted(data@) && info.supply == spec_mint_supply(data@)
                && (match info.mint_authority {
                Some(k) => spec_mint_authority(data@) == Some(k@),
                None => spec_mint_authority(data@) is None,
            }),
            None => !spec_mint_accepted(data@),
        },
{
    match spl_token::state::Mint::unpack(data.as_slice()) {
        Ok(mint) => {
            let mint_authority = match mint.mint_authority {
                solana_program::program_option::COption::Some(key) => Some(Pubkey { bytes: key.to_bytes() }),
                solana_program::program_option::COption::None => None,
            };
            Some(MintInfo { mint_authority, supply: mint.supply })
        },
        Err(_) => None,
    }
}

} // verus!
