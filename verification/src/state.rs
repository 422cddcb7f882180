//! The persisted pool record, its byte layout, and the identity validators.

use vstd::prelude::*;
use vstd::bytes::{spec_u64_to_le_bytes, spec_u64_from_le_bytes, u64_to_le_bytes, u64_from_le_bytes};
use vstd::slice::{slice_index_get, slice_subrange};
use crate::error::{OpError, ZionError};
use crate::keys::{Pubkey, cmp_pubkeys, PROGRAM_ID, POOL_PREFIX};
use crate::pda::{spec_pool_address, try_find_pda};

verus! {

/// One tracked asset of the pool: the four identities the pool stores
/// for it.
#[derive(Clone, Copy, Debug, PartialEq, Eq)]
pub struct Token {
    /// Mint of the tracked asset.
    pub mint: Pubkey,
    /// Custody account holding the asset.
    pub vault: Pubkey,
    /// Custody account accruing fees for the asset.
    pub fee_vault: Pubkey,
    /// Price-feed reference for the asset.
    pub oracle: Pubkey,
}

/// The mathematical image of a [`Token`]: each identity as a byte
/// sequence.
pub struct TokenView {
    /// Mint identity bytes.
    pub mint: Seq<u8>,
    /// Vault identity bytes.
    pub vault: Seq<u8>,
    /// Fee-vault identity bytes.
    pub fee_vault: Seq<u8>,
    /// Oracle identity bytes.
    pub oracle: Seq<u8>,
}

impl View for Token {
    type V = TokenView;

    open spec fn view(&self) -> TokenView {
        TokenView {
            mint: self.mint@,
            vault: self.vault@,
            fee_vault: self.fee_vault@,
            oracle: self.oracle@,
        }
    }
}

impl TokenView {
    /// Every identity carries exactly 32 bytes.
    pub open spec fn wf(self) -> bool {
        self.mint.len() == 32 && self.vault.len() == 32 && self.fee_vault.len() == 32
            && self.oracle.len() == 32
    }
}

/// The number of bytes of a serialized [`Token`].
pub const TOKEN_LEN: usize = 128;

/// The persisted pool record.
#[derive(Clone, Copy, Debug, PartialEq, Eq)]
pub struct SwapState {
    /// Admin of the pool.
    pub admin: Pubkey,
    /// Bump of the pool record's derived address.
    pub bump: u8,
    /// Whether the pool is initialized.
    pub is_initialized: bool,
    /// Derived identity that owns the vaults and the liquidity mint.
    pub swap_authority: Pubkey,
    /// Bump of the swap authority's derived address.
    pub swap_authority_bump: u8,
    /// Mint of the liquidity tokens.
    pub swap_mint: Pubkey,
    /// First tracked asset.
    pub token_a: Token,
    /// Second tracked asset.
    pub token_b: Token,
    /// Reserved program-fee field; persisted, never applied.
    pub program_fee: u64,
    /// Reserved swap-fee field; persisted, never applied.
    pub swap_fee: u64,
}

/// The mathematical image of a [`SwapState`].
pub struct SwapStateView {
    /// Admin identity bytes.
    pub admin: Seq<u8>,
    /// Pool record address bump.
    pub bump: u8,
    /// Whether the pool is initialized.
    pub is_initialized: bool,
    /// Swap authority identity bytes.
    pub swap_authority: Seq<u8>,
    /// Swap authority address bump.
    pub swap_authority_bump: u8,
    /// Liquidity mint identity bytes.
    pub swap_mint: Seq<u8>,
    /// First tracked asset.
    pub token_a: TokenView,
    /// Second tracked asset.
    pub token_b: TokenView,
    /// Reserved program-fee field.
    pub program_fee: u64,
    /// Reserved swap-fee field.
    pub swap_fee: u64,
}

impl View for SwapState {
    type V = SwapStateView;

    open spec fn view(&self) -> SwapStateView {
        SwapStateView {
            admin: self.admin@,
            bump: self.bump,
            is_initialized: self.is_initialized,
            swap_authority: self.swap_authority@,
            swap_authority_bump: self.swap_authority_bump,
            swap_mint: self.swap_mint@,
            token_a: self.token_a@,
            token_b: self.token_b@,
            program_fee: self.program_fee,
            swap_fee: self.swap_fee,
        }
    }
}

impl SwapStateView {
    /// Every identity carries exactly 32 bytes.
    pub open spec fn wf(self) -> bool {
        self.admin.len() == 32 && self.swap_authority.len() == 32 && self.swap_mint.len() == 32
            && self.token_a.wf() && self.token_b.wf()
    }
}

/// The number of bytes of a serialized [`SwapState`].
pub const STATE_LEN: usize = 371;

/// The serialized form of a token slot: mint, vault, fee vault, oracle,
/// 32 bytes each.
pub open spec fn spec_pack_token(t: TokenView) -> Seq<u8> {
    t.mint + t.vault + t.fee_vault + t.oracle
}

/// Decodes a token slot from the first 128 bytes of `d`; the layout
/// admits every byte pattern.
pub open spec fn spec_unpack_token(d: Seq<u8>) -> TokenView {
    TokenView {
        mint: d.subrange(0, 32),
        vault: d.subrange(32, 64),
        fee_vault: d.subrange(64, 96),
        oracle: d.subrange(96, 128),
    }
}

/// The serialized form of the pool record: admin, record bump,
/// initialized flag, authority, authority bump, liquidity mint, the two
/// token slots, and the two reserved fee fields, little-endian.
pub open spec fn spec_pack_state(s: SwapStateView) -> Seq<u8> {
    s.admin + seq![s.bump] + seq![if s.is_initialized { 1u8 } else { 0u8 }] + s.swap_authority
        + seq![s.swap_authority_bump] + s.swap_mint + spec_pack_token(s.token_a)
        + spec_pack_token(s.token_b) + spec_u64_to_le_bytes(s.program_fee)
        + spec_u64_to_le_bytes(s.swap_fee)
}

/// Decodes a pool record from the first 371 bytes of `d`: fails on a
/// short buffer and on an initialized flag that is neither 0 nor 1.
pub open spec fn spec_unpack_state(d: Seq<u8>) -> Result<SwapStateView, OpError> {
    if d.len() < 371 {
        Err(OpError::InvalidAccountData)
    } else if d[33] != 0 && d[33] != 1 {
        Err(OpError::InvalidAccountData)
    } else {
        Ok(
            SwapStateView {
                admin: d.subrange(0, 32),
                bump: d[32],
                is_initialized: d[33] == 1,
                swap_authority: d.subrange(34, 66),
                swap_authority_bump: d[66],
                swap_mint: d.subrange(67, 99),
                token_a: spec_unpack_token(d.subrange(99, 227)),
                token_b: spec_unpack_token(d.subrange(227, 355)),
                program_fee: spec_u64_from_le_bytes(d.subrange(355, 363)),
                swap_fee: spec_u64_from_le_bytes(d.subrange(363, 371)),
            },
        )
    }
}

/// Copies 32 bytes at `offset` out of `input` as an identity.
pub(crate) fn read_key(input: &[u8], offset: usize) -> (r: Pubkey)
    requires
        offset + 32 <= input@.len(),
        input@.len() <= usize::MAX,
    ensures
        r@ == input@.subrange(offset as int, offset + 32),
{
    let mut bytes: [u8; 32] = [0; 32];
    let mut i: usize = 0;
    while i < 32
        invariant
            i <= 32,
            offset + 32 <= input@.len(),
            input@.len() <= usize::MAX,
            forall|j: int| 0 <= j < i ==> bytes@[j] == input@[offset + j],
        decreases 32 - i,
    {
        bytes[i] = *slice_index_get(input, offset + i);
        i = i + 1;
    }
    proof {
        assert(bytes@ =~= input@.subrange(offset as int, offset + 32));
    }
    Pubkey { bytes }
}

/// Appends the 32 bytes of an identity.
pub(crate) fn push_key(out: &mut Vec<u8>, key: &Pubkey)
    ensures
        final(out)@ == old(out)@ + key@,
{
    let mut i: usize = 0;
    while i < 32
        invariant
            i <= 32,
            out@ == old(out)@ + key@.subrange(0, i as int),
        decreases 32 - i,
    {
        out.push(key.bytes[i]);
        proof {
            assert(old(out)@ + key@.subrange(0, i as int) + seq![key@[i as int]] =~= old(out)@
                + key@.subrange(0, i + 1));
        }
        i = i + 1;
    }
    proof {
        assert(key@.subrange(0, 32) =~= key@);
    }
}

/// Appends a `u64` in little-endian order.
pub(crate) fn push_u64_le(out: &mut Vec<u8>, x: u64)
    ensures
        final(out)@ == old(out)@ + spec_u64_to_le_bytes(x),
{
    let mut bytes = u64_to_le_bytes(x);
    out.append(&mut bytes);
}

impl Token {
    /// Serializes this token slot onto the end of `output`.
    pub fn pack_into_vec(&self, output: &mut Vec<u8>)
        ensures
            final(output)@ == old(output)@ + spec_pack_token(self@),
    {
        push_key(output, &self.mint);
        push_key(output, &self.vault);
        push_key(output, &self.fee_vault);
        push_key(output, &self.oracle);
        proof {
            assert(output@ =~= old(output)@ + spec_pack_token(self@));
        }
    }

    /// Decodes a token slot from the first 128 bytes of `input`.
    pub fn unpack_from_slice(input: &[u8]) -> (r: Result<Token, OpError>)
        ensures
            match r {
                Ok(t) => input@.len() >= 128 && t@ == spec_unpack_token(input@.subrange(0, 128)),
                Err(e) => input@.len() < 128 && e == OpError::InvalidAccountData,
            },
    {
        if input.len() < TOKEN_LEN {
            return Err(OpError::InvalidAccountData);
        }
        let t = Token {
            mint: read_key(input, 0),
            vault: read_key(input, 32),
            fee_vault: read_key(input, 64),
            oracle: read_key(input, 96),
        };
        proof {
            let d = input@.subrange(0, 128);
            assert(d.subrange(0, 32) =~= input@.subrange(0, 32));
            assert(d.subrange(32, 64) =~= input@.subrange(32, 64));
            assert(d.subrange(64, 96) =~= input@.subrange(64, 96));
            assert(d.subrange(96, 128) =~= input@.subrange(96, 128));
        }
        Ok(t)
    }
}

impl SwapState {
    /// Serializes the record into `output`, replacing its contents with
    /// the exact 371-byte image.
    pub fn pack_into_slice(&self, output: &mut Vec<u8>)
        ensures
            final(output)@ == spec_pack_state(self@),
            final(output)@.len() == 371,
    {
        output.clear();
        push_key(output, &self.admin);
        output.push(self.bump);
        output.push(if self.is_initialized { 1 } else { 0 });
        push_key(output, &self.swap_authority);
        output.push(self.swap_authority_bump);
        push_key(output, &self.swap_mint);
        self.token_a.pack_into_vec(output);
        self.token_b.pack_into_vec(output);
        push_u64_le(output, self.program_fee);
        push_u64_le(output, self.swap_fee);
        proof {
            vstd::bytes::lemma_auto_spec_u64_to_from_le_bytes();
            assert(output@ =~= spec_pack_state(self@));
        }
    }

    /// Decodes a pool record from the first 371 bytes of `input`.
    pub fn unpack_from_slice(input: &[u8]) -> (r: Result<SwapState, OpError>)
        ensures
            match r {
                Ok(s) => spec_unpack_state(input@) == Ok::<SwapStateView, OpError>(s@),
                Err(e) => spec_unpack_state(input@) == Err::<SwapStateView, OpError>(e),
            },
    {
        if input.len() < STATE_LEN {
            return Err(OpError::InvalidAccountData);
        }
        let flag = *slice_index_get(input, 33);
        if flag != 0 && flag != 1 {
            return Err(OpError::InvalidAccountData);
        }
        let token_a = match Token::unpack_from_slice(slice_subrange(input, 99, 227)) {
            Ok(t) => t,
            Err(e) => {
                return Err(e);
            },
        };
        let token_b = match Token::unpack_from_slice(slice_subrange(input, 227, 355)) {
            Ok(t) => t,
            Err(e) => {
                return Err(e);
            },
        };
        let s = SwapState {
            admin: read_key(input, 0),
            bump: *slice_index_get(input, 32),
            is_initialized: flag == 1,
            swap_authority: read_key(input, 34),
            swap_authority_bump: *slice_index_get(input, 66),
            swap_mint: read_key(input, 67),
            token_a,
            token_b,
            program_fee: u64_from_le_bytes(slice_subrange(input, 355, 363)),
            swap_fee: u64_from_le_bytes(slice_subrange(input, 363, 371)),
        };
        proof {
            let d = input@;
            assert(d.subrange(99, 227).subrange(0, 128) =~= d.subrange(99, 227));
            assert(d.subrange(227, 355).subrange(0, 128) =~= d.subrange(227, 355));
        }
        Ok(s)
    }
}

/// Encoding a pool record and decoding it again reproduces every field.
pub proof fn lemma_state_round_trip(s: SwapStateView)
    requires
        s.wf(),
    ensures
        spec_unpack_state(spec_pack_state(s)) == Ok::<SwapStateView, OpError>(s),
{
    vstd::bytes::lemma_auto_spec_u64_to_from_le_bytes();
    let d = spec_pack_state(s);
    assert(d.len() == 371);
    assert(d.subrange(0, 32) =~= s.admin);
    assert(d[32] == s.bump);
    assert(d[33] == if s.is_initialized { 1u8 } else { 0u8 });
    assert(d.subrange(34, 66) =~= s.swap_authority);
    assert(d[66] == s.swap_authority_bump);
    assert(d.subrange(67, 99) =~= s.swap_mint);
    assert(d.subrange(99, 227) =~= spec_pack_token(s.token_a));
    assert(d.subrange(227, 355) =~= spec_pack_token(s.token_b));
    assert(d.subrange(355, 363) =~= spec_u64_to_le_bytes(s.program_fee));
    assert(d.subrange(363, 371) =~= spec_u64_to_le_bytes(s.swap_fee));
    lemma_token_round_trip(s.token_a);
    lemma_token_round_trip(s.token_b);
    let u = spec_unpack_state(d);
    assert(u is Ok);
}

/// Encoding a token slot and decoding it again reproduces every field.
pub proof fn lemma_token_round_trip(t: TokenView)
    requires
        t.wf(),
    ensures
        spec_unpack_token(spec_pack_token(t)) == t,
{
    let d = spec_pack_token(t);
    assert(d.subrange(0, 32) =~= t.mint);
    assert(d.subrange(32, 64) =~= t.vault);
    assert(d.subrange(64, 96) =~= t.fee_vault);
    assert(d.subrange(96, 128) =~= t.oracle);
}

/// Accepts exactly the derived pool-record address: the supplied key must
/// equal the address found for the fixed pool seed under this program.
pub open spec fn spec_validate_swap_state_key(key: Seq<u8>) -> Result<(), OpError> {
    match spec_pool_address() {
        Some(pair) => if key == pair.0 {
            Ok(())
        } else {
            Err(OpError::Custom(ZionError::InvalidSwapState))
        },
        None => Err(OpError::Custom(ZionError::InvalidSwapState)),
    }
}

/// Accepts exactly this program as the record's owner.
pub open spec fn spec_validate_swap_state_owner(owner: Seq<u8>) -> Result<(), OpError> {
    if owner == PROGRAM_ID@ {
        Ok(())
    } else {
        Err(OpError::Custom(ZionError::SwapStateWrongOwner))
    }
}

impl TokenView {
    /// First-failure check of the four supplied identities against this
    /// slot: mint, vault, fee vault, oracle, in that order.
    pub open spec fn spec_validate_accounts(
        self,
        mint: Seq<u8>,
        vault: Seq<u8>,
        fee_vault: Seq<u8>,
        oracle: Seq<u8>,
    ) -> Result<(), OpError> {
        if self.mint != mint {
            Err(OpError::Custom(ZionError::InvalidMint))
        } else if self.vault != vault {
            Err(OpError::Custom(ZionError::InvalidVault))
        } else if self.fee_vault != fee_vault {
            Err(OpError::Custom(ZionError::InvalidFeeVault))
        } else if self.oracle != oracle {
            Err(OpError::Custom(ZionError::InvalidOracle))
        } else {
            Ok(())
        }
    }
}

impl SwapStateView {
    /// Accepts exactly the stored swap authority.
    pub open spec fn spec_validate_swap_state_authority(self, authority: Seq<u8>) -> Result<
        (),
        OpError,
    > {
        if self.swap_authority == authority {
            Ok(())
        } else {
            Err(OpError::Custom(ZionError::InvalidSwapAuthority))
        }
    }

    /// Accepts exactly the stored liquidity mint.
    pub open spec fn spec_validate_swap_mint(self, swap_mint: Seq<u8>) -> Result<(), OpError> {
        if self.swap_mint == swap_mint {
            Ok(())
        } else {
            Err(OpError::Custom(ZionError::InvalidSwapMint))
        }
    }

    /// First-failure check of every supplied account identity against the
    /// record: authority, liquidity mint, then each token slot.
    pub open spec fn spec_validate_accounts(
        self,
        swap_authority: Seq<u8>,
        swap_mint: Seq<u8>,
        token_a_mint: Seq<u8>,
        token_a_vault: Seq<u8>,
        token_a_fee_vault: Seq<u8>,
        token_a_oracle: Seq<u8>,
        token_b_mint: Seq<u8>,
        token_b_vault: Seq<u8>,
        token_b_fee_vault: Seq<u8>,
        token_b_oracle: Seq<u8>,
    ) -> Result<(), OpError> {
        match self.spec_validate_swap_state_authority(swap_authority) {
            Err(e) => Err(e),
            Ok(_) => match self.spec_validate_swap_mint(swap_mint) {
                Err(e) => Err(e),
                Ok(_) => match self.token_a.spec_validate_accounts(
                    token_a_mint,
                    token_a_vault,
                    token_a_fee_vault,
                    token_a_oracle,
                ) {
                    Err(e) => Err(e),
                    Ok(_) => self.token_b.spec_validate_accounts(
                        token_b_mint,
                        token_b_vault,
                        token_b_fee_vault,
                        token_b_oracle,
                    ),
                },
            },
        }
    }

    /// Address check, owner check, then rejection of a record that is
    /// already initialized, first failure wins.
    pub open spec fn spec_validate(self, key: Seq<u8>, owner: Seq<u8>) -> Result<(), OpError> {
        match spec_validate_swap_state_key(key) {
            Err(e) => Err(e),
            Ok(_) => match spec_validate_swap_state_owner(owner) {
                Err(e) => Err(e),
                Ok(_) => if self.is_initialized {
                    Err(OpError::Custom(ZionError::PoolAlreadyInitialized))
                } else {
                    Ok(())
                },
            },
        }
    }
}

impl Token {
    /// Checks the supplied identities of one token slot against the
    /// record, first failure wins.
    pub fn validate_accounts(
        &self,
        mint: &Pubkey,
        vault: &Pubkey,
        fee_vault: &Pubkey,
        oracle: &Pubkey,
    ) -> (r: Result<(), OpError>)
        ensures
            r == self@.spec_validate_accounts(mint@, vault@, fee_vault@, oracle@),
    {
        if !cmp_pubkeys(&self.mint, mint) {
            return Err(OpError::Custom(ZionError::InvalidMint));
        }
        if !cmp_pubkeys(&self.vault, vault) {
            return Err(OpError::Custom(ZionError::InvalidVault));
        }
        if !cmp_pubkeys(&self.fee_vault, fee_vault) {
            return Err(OpError::Custom(ZionError::InvalidFeeVault));
        }
        if !cmp_pubkeys(&self.oracle, oracle) {
            return Err(OpError::Custom(ZionError::InvalidOracle));
        }
        Ok(())
    }
}

impl SwapState {
    /// Checks that the supplied key is the derived pool-record address.
    pub fn validate_swap_state_key(swap_state_key: &Pubkey) -> (r: Result<(), OpError>)
        ensures
            r == spec_validate_swap_state_key(swap_state_key@),
    {
        let seed = POOL_PREFIX;
        match try_find_pda(seed.as_slice(), &PROGRAM_ID) {
            Some((key, _bump)) => {
                let derived = Pubkey::new_from_array(key);
                if cmp_pubkeys(swap_state_key, &derived) {
                    Ok(())
                } else {
                    Err(OpError::Custom(ZionError::InvalidSwapState))
                }
            },
            None => Err(OpError::Custom(ZionError::InvalidSwapState)),
        }
    }

    /// Checks that the record is owned by this program.
    pub fn validate_swap_state_owner(&self, swap_state_owner: &Pubkey) -> (r: Result<(), OpError>)
        ensures
            r == spec_validate_swap_state_owner(swap_state_owner@),
    {
        let program = Pubkey::new_from_array(PROGRAM_ID);
        if !cmp_pubkeys(swap_state_owner, &program) {
            return Err(OpError::Custom(ZionError::SwapStateWrongOwner));
        }
        Ok(())
    }

    /// Checks the record's address and owner, and that the pool is not
    /// yet initialized.
    pub fn validate(&self, swap_state_key: &Pubkey, swap_state_owner: &Pubkey) -> (r: Result<
        (),
        OpError,
    >)
        ensures
            r == self@.spec_validate(swap_state_key@, swap_state_owner@),
    {
        match SwapState::validate_swap_state_key(swap_state_key) {
            Err(e) => {
                return Err(e);
            },
            Ok(_) => {},
        }
        match self.validate_swap_state_owner(swap_state_owner) {
            Err(e) => {
                return Err(e);
            },
            Ok(_) => {},
        }
        if self.is_initialized {
            return Err(OpError::Custom(ZionError::PoolAlreadyInitialized));
        }
        Ok(())
    }

    /// Checks the supplied authority against the stored one.
    pub fn validate_swap_state_authority(&self, swap_authority: &Pubkey) -> (r: Result<
        (),
        OpError,
    >)
        ensures
            r == self@.spec_validate_swap_state_authority(swap_authority@),
    {
        if !cmp_pubkeys(&self.swap_authority, swap_authority) {
            return Err(OpError::Custom(ZionError::InvalidSwapAuthority));
        }
        Ok(())
    }

    /// Checks the supplied liquidity mint against the stored one.
    pub fn validate_swap_mint(&self, swap_mint: &Pubkey) -> (r: Result<(), OpError>)
        ensures
            r == self@.spec_validate_swap_mint(swap_mint@),
    {
        if !cmp_pubkeys(&self.swap_mint, swap_mint) {
            return Err(OpError::Custom(ZionError::InvalidSwapMint));
        }
        Ok(())
    }

    /// Checks every supplied account identity against the record, first
    /// failure wins.
    pub fn validate_accounts(
        &self,
        swap_authority: &Pubkey,
        swap_mint: &Pubkey,
        token_a_mint: &Pubkey,
        token_a_vault: &Pubkey,
        token_a_fee_vault: &Pubkey,
        token_a_oracle: &Pubkey,
        token_b_mint: &Pubkey,
        token_b_vault: &Pubkey,
        token_b_fee_vault: &Pubkey,
        token_b_oracle: &Pubkey,
    ) -> (r: Result<(), OpError>)
        ensures
            r == self@.spec_validate_accounts(
                swap_authority@,
                swap_mint@,
                token_a_mint@,
                token_a_vault@,
                token_a_fee_vault@,
                token_a_oracle@,
                token_b_mint@,
                token_b_vault@,
                token_b_fee_vault@,
                token_b_oracle@,
            ),
    {
        match self.validate_swap_state_authority(swap_authority) {
            Err(e) => {
                return Err(e);
            },
            Ok(_) => {},
        }
        match self.validate_swap_mint(swap_mint) {
            Err(e) => {
                return Err(e);
            },
            Ok(_) => {},
        }
        match self.token_a.validate_accounts(
            token_a_mint,
            token_a_vault,
            token_a_fee_vault,
            token_a_oracle,
        ) {
            Err(e) => {
                return Err(e);
            },
            Ok(_) => {},
        }
        self.token_b.validate_accounts(
            token_b_mint,
            token_b_vault,
            token_b_fee_vault,
            token_b_oracle,
        )
    }
}

} // verus!
