//! 32-byte account identities and the fixed identities the pool relies on.

use vstd::prelude::*;

verus! {

/// The number of bytes in an account identity.
pub const PUBKEY_BYTES: usize = 32;

/// A 32-byte account identity.
#[derive(Clone, Copy, Debug, PartialEq, Eq)]
pub struct Pubkey {
    /// The raw identity bytes.
    pub bytes: [u8; 32],
}

impl View for Pubkey {
    type V = Seq<u8>;

    open spec fn view(&self) -> Seq<u8> {
        self.bytes@
    }
}

impl Pubkey {
    /// Builds an identity from its raw bytes.
    pub fn new_from_array(bytes: [u8; 32]) -> (r: Pubkey)
        ensures
            r@ == bytes@,
    {
        Pubkey { bytes }
    }

    /// The raw bytes of the identity.
    pub fn to_bytes(&self) -> (r: [u8; 32])
        ensures
            r@ == self@,
    {
        self.bytes
    }
}

/// Compares two identities byte for byte.
pub fn cmp_pubkeys(a: &Pubkey, b: &Pubkey) -> (r: bool)
    ensures
        r == (a@ == b@),
{
    let mut i: usize = 0;
    while i < PUBKEY_BYTES
        invariant
            i <= 32,
            forall|j: int| 0 <= j < i ==> a.bytes[j] == b.bytes[j],
        decreases 32 - i,
    {
        if a.bytes[i] != b.bytes[i] {
            assert(a@[i as int] != b@[i as int]);
            return false;
        }
        i = i + 1;
    }
    proof {
        assert(a@ =~= b@);
    }
    true
}

/// This program's own deployed identity
/// (base58 `DYPr7THq2b8chVndfn6TKuEUxJdKYhfRNtzkM2Lzzm8s`).
pub const PROGRAM_ID: [u8; 32] = [
    186, 87, 20, 194, 173, 32, 170, 17, 128, 154, 161, 91, 138, 83, 118, 125, 153, 167, 89, 66,
    60, 114, 192, 171, 36, 238, 68, 131, 136, 191, 219, 144,
];

/// The token ledger program's identity
/// (base58 `TokenkegQfeZyiNwAJbNbGKPFXCWuBvf9Ss623VQ5DA`).
pub const TOKEN_PROGRAM_ID: [u8; 32] = [
    6, 221, 246, 225, 215, 101, 161, 147, 217, 203, 225, 70, 206, 235, 121, 172, 28, 180, 133,
    237, 95, 91, 55, 145, 58, 140, 245, 133, 126, 255, 0, 169,
];

/// The system program's identity (the all-zero key).
pub const SYSTEM_PROGRAM_ID: [u8; 32] = [
    0, 0, 0, 0, 0, 0, 0, 0, 0, 0, 0, 0, 0, 0, 0, 0, 0, 0, 0, 0, 0, 0, 0, 0, 0, 0, 0, 0, 0, 0, 0,
    0,
];

/// Seed prefix for deriving the pool record's address.
pub const POOL_PREFIX: [u8; 10] = [115, 119, 97, 112, 95, 115, 116, 97, 116, 101];

/// Seed prefix for deriving the swap authority's address.
pub const AUTHORITY_PREFIX: [u8; 14] = [
    115, 119, 97, 112, 95, 97, 117, 116, 104, 111, 114, 105, 116, 121,
];

} // verus!
