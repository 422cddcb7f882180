//! Derivation of the program-owned addresses the pool relies on.
//!
//! The pool record and the swap authority live at addresses derived
//! deterministically from a fixed seed prefix and the program id. The
//! derivation itself is a hash computation done by the runtime's key
//! library; its results are named here and every validator contract
//! speaks in terms of these names.

use vstd::prelude::*;
use crate::keys::{POOL_PREFIX, PROGRAM_ID};

verus! {

/// The address-and-bump search over the given seed and program id: what
/// `Pubkey::try_find_program_address` returns for them. Deterministic in
/// its arguments on every machine.
pub uninterp spec fn spec_try_find_pda(seed: Seq<u8>, program: Seq<u8>) -> Option<(Seq<u8>, u8)>;

/// The single-bump derivation over the given seed prefix, bump and
/// program id: what `Pubkey::create_program_address` returns for them,
/// `None` where the derivation lands on the curve. Deterministic in its
/// arguments on every machine.
pub uninterp spec fn spec_create_pda(prefix: Seq<u8>, bump: u8, program: Seq<u8>) -> Option<Seq<u8>>;

/// The derived address of the one pool record of this deployment.
pub open spec fn spec_pool_address() -> Option<(Seq<u8>, u8)> {
    spec_try_find_pda(POOL_PREFIX@, PROGRAM_ID@)
}

/// The bytes-and-bump view of an optional derived address pair.
pub open spec fn pda_pair_view(r: Option<([u8; 32], u8)>) -> Option<(Seq<u8>, u8)> {
    match r {
        Some((k, b)) => Some((k@, b)),
        None => None,
    }
}

/// The bytes view of an optional derived address.
pub open spec fn pda_key_view(r: Option<[u8; 32]>) -> Option<Seq<u8>> {
    match r {
        Some(k) => Some(k@),
        None => None,
    }
}

/// Relies on `Pubkey::try_find_program_address`: searches bump seeds from
/// high to low and returns the first off-curve derivation, a pure function
/// of the seed and program id.
#[verifier::external_body]
pub(crate) fn try_find_pda(seed: &[u8], program: &[u8; 32]) -> (r: Option<([u8; 32], u8)>)
    ensures
        pda_pair_view(r) == spec_try_find_pda(seed@, program@),
{
    let program_key = solana_program::pubkey::Pubkey::new_from_array(*program);
    solana_program::pubkey::Pubkey::try_find_program_address(&[seed], &program_key)
        .map(|(key, bump)| (key.to_bytes(), bump))
}

/// Relies on `Pubkey::create_program_address`: derives the address for one
/// seed prefix plus a bump byte, a pure function of the seeds and program
/// id; `None` where the seeds are over-long or the result is on the curve.
#[verifier::external_body]
pub(crate) fn create_pda(prefix: &[u8], bump: u8, program: &[u8; 32]) -> (r: Option<[u8; 32]>)
    ensures
        pda_key_view(r) == spec_create_pda(prefix@, bump, program@),
{
    let program_key = solana_program::pubkey::Pubkey::new_from_array(*program);
    let bump_seed = [bump];
    solana_program::pubkey::Pubkey::create_program_address(&[prefix, &bump_seed], &program_key)
        .ok()
        .map(|key| key.to_bytes())
}

} // verus!
