//! The closed error taxonomy of the pool program.

use vstd::prelude::*;

verus! {

/// Errors that may be returned by the pool program. The order of the variants
/// fixes each error's numeric code.
#[derive(Clone, Copy, Debug, PartialEq, Eq, Structural)]
pub enum ZionError {
    /// The instruction bytes do not decode.
    InvalidInstruction,
    /// An account is not owned by the token ledger program.
    IncorrectTokenProgramId,
    /// The account data does not decode as a token account.
    ExpectedTokenAccount,
    /// The account data does not decode as a mint.
    ExpectedMint,
    /// The pool is already initialized.
    PoolAlreadyInitialized,
    /// The pool is not initialized.
    PoolNotInitialized,
    /// The owner of the pool record is incorrect.
    SwapStateWrongOwner,
    /// The swap authority is invalid.
    InvalidSwapAuthority,
    /// The token ledger program id is invalid.
    InvalidTokenProgramKey,
    /// The system program id is invalid.
    InvalidSystemProgramKey,
    /// The account is not owned by the token ledger program.
    NotOwnedByTokenProgram,
    /// The two asset mints of the pool are identical.
    IdenticalMints,
    /// A supply that must be zero is not.
    InvalidSupply,
    /// The token amount is invalid.
    InvalidTokenAmount,
    /// Zero tokens were provided.
    ZeroTokens,
    /// An authority is invalid.
    InvalidAuthority,
    /// An owner is invalid.
    InvalidOwner,
    /// The pool record address is invalid.
    InvalidSwapState,
    /// The mint is not initialized.
    MintNotInitialized,
    /// The pool record is initialized.
    SwapStateInitialized,
    /// An asset mint does not match the record.
    InvalidMint,
    /// A vault does not match the record.
    InvalidVault,
    /// A fee vault does not match the record.
    InvalidFeeVault,
    /// The liquidity mint does not match the record.
    InvalidSwapMint,
    /// An oracle does not match the record.
    InvalidOracle,
    /// The two assets have different decimals.
    DecimalsDifferent,
    /// The caller must be the pool admin.
    MustBeAdmin,
    /// A required signer flag is missing.
    InvalidSigner,
    /// The caller holds too few liquidity tokens.
    InsufficientSwapTokens,
}

/// The numeric code of each error, fixed by the variant order.
pub open spec fn spec_error_code(e: ZionError) -> u32 {
    match e {
        ZionError::InvalidInstruction => 0,
        ZionError::IncorrectTokenProgramId => 1,
        ZionError::ExpectedTokenAccount => 2,
        ZionError::ExpectedMint => 3,
        ZionError::PoolAlreadyInitialized => 4,
        ZionError::PoolNotInitialized => 5,
        ZionError::SwapStateWrongOwner => 6,
        ZionError::InvalidSwapAuthority => 7,
        ZionError::InvalidTokenProgramKey => 8,
        ZionError::InvalidSystemProgramKey => 9,
        ZionError::NotOwnedByTokenProgram => 10,
        ZionError::IdenticalMints => 11,
        ZionError::InvalidSupply => 12,
        ZionError::InvalidTokenAmount => 13,
        ZionError::ZeroTokens => 14,
        ZionError::InvalidAuthority => 15,
        ZionError::InvalidOwner => 16,
        ZionError::InvalidSwapState => 17,
        ZionError::MintNotInitialized => 18,
        ZionError::SwapStateInitialized => 19,
        ZionError::InvalidMint => 20,
        ZionError::InvalidVault => 21,
        ZionError::InvalidFeeVault => 22,
        ZionError::InvalidSwapMint => 23,
        ZionError::InvalidOracle => 24,
        ZionError::DecimalsDifferent => 25,
        ZionError::MustBeAdmin => 26,
        ZionError::InvalidSigner => 27,
        ZionError::InsufficientSwapTokens => 28,
    }
}

impl ZionError {
    /// The numeric code under which this error is surfaced to callers.
    pub fn code(&self) -> (r: u32)
        ensures
            r == spec_error_code(*self),
    {
        match self {
            ZionError::InvalidInstruction => 0,
            ZionError::IncorrectTokenProgramId => 1,
            ZionError::ExpectedTokenAccount => 2,
            ZionError::ExpectedMint => 3,
            ZionError::PoolAlreadyInitialized => 4,
            ZionError::PoolNotInitialized => 5,
            ZionError::SwapStateWrongOwner => 6,
            ZionError::InvalidSwapAuthority => 7,
            ZionError::InvalidTokenProgramKey => 8,
            ZionError::InvalidSystemProgramKey => 9,
            ZionError::NotOwnedByTokenProgram => 10,
            ZionError::IdenticalMints => 11,
            ZionError::InvalidSupply => 12,
            ZionError::InvalidTokenAmount => 13,
            ZionError::ZeroTokens => 14,
            ZionError::InvalidAuthority => 15,
            ZionError::InvalidOwner => 16,
            ZionError::InvalidSwapState => 17,
            ZionError::MintNotInitialized => 18,
            ZionError::SwapStateInitialized => 19,
            ZionError::InvalidMint => 20,
            ZionError::InvalidVault => 21,
            ZionError::InvalidFeeVault => 22,
            ZionError::InvalidSwapMint => 23,
            ZionError::InvalidOracle => 24,
            ZionError::DecimalsDifferent => 25,
            ZionError::MustBeAdmin => 26,
            ZionError::InvalidSigner => 27,
            ZionError::InsufficientSwapTokens => 28,
        }
    }
}

/// Every way an operation can end short of success. `Custom` carries the
/// program's own taxonomy; the other variants mirror the hosting runtime's
/// account-level failures. `Fatal` marks an unrecoverable invariant breach
/// (a malformed or negative oracle price, or an arithmetic-contract
/// violation): the embedding program must abort the whole invocation on it
/// rather than surface it as a user error.
#[derive(Clone, Copy, Debug, PartialEq, Eq, Structural)]
pub enum OpError {
    /// A tagged error of the pool program itself.
    Custom(ZionError),
    /// Fewer accounts were supplied than the operation expects.
    NotEnoughAccountKeys,
    /// The record account already holds data.
    AccountAlreadyInitialized,
    /// Account data does not decode.
    InvalidAccountData,
    /// Unrecoverable invariant breach; abort the invocation.
    Fatal,
}

} // verus!
