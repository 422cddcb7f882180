//! The instruction state machine: validation, pricing, and the value
//! transfers each operation owes, computed as a plan before any value
//! moves. The embedding program converts the runtime's accounts into
//! [`AccountView`]s, calls one entry here, and then performs the
//! transfers, mints, burns and account creations the returned plan
//! directs — or aborts on [`OpError::Fatal`].

use vstd::prelude::*;
use crate::error::{OpError, ZionError};
use crate::keys::{Pubkey, cmp_pubkeys, PROGRAM_ID, TOKEN_PROGRAM_ID, SYSTEM_PROGRAM_ID, AUTHORITY_PREFIX};
use crate::ledger::{
    TokenAccountInfo, MintInfo, spec_token_account_accepted, spec_token_account_owner,
    spec_token_account_amount, spec_mint_accepted, spec_mint_authority, spec_mint_supply,
    unpack_token_account_bytes, unpack_mint_bytes,
};
use crate::oracle::{spec_oracle_price, read_oracle_price};
use crate::pda::{spec_create_pda, create_pda};
use crate::state::{SwapState, SwapStateView, Token, spec_validate_swap_state_key, spec_unpack_state};

verus! {

/// Everything the pool reads of one supplied account: its identity, its
/// owner, its signer flag, its balance and its data bytes.
#[derive(Clone, Debug)]
pub struct AccountView {
    /// The account's address.
    pub key: Pubkey,
    /// The program that owns the account.
    pub owner: Pubkey,
    /// Whether the account signed the invocation.
    pub is_signer: bool,
    /// The account's balance in native units.
    pub lamports: u64,
    /// The account's data.
    pub data: Vec<u8>,
}

/// What Initialize asks the embedding program to do: create the two
/// derived accounts and persist this record at the pool address.
#[derive(Clone, Copy, Debug, PartialEq, Eq)]
pub struct InitializePlan {
    /// The record to persist, already marked initialized.
    pub record: SwapState,
}

/// What a deposit asks the embedding program to do: move the two asset
/// amounts into the vaults, then mint liquidity tokens to the caller.
#[derive(Clone, Copy, Debug, PartialEq, Eq, Structural)]
pub struct DepositPlan {
    /// Units of the first asset to move into its vault.
    pub transfer_a: u64,
    /// Units of the second asset to move into its vault.
    pub transfer_b: u64,
    /// Liquidity tokens to mint to the caller.
    pub mint_amount: u64,
}

/// What Withdraw asks the embedding program to do: move the two asset
/// amounts out of the vaults (authority-signed), then burn the cost from
/// the caller.
#[derive(Clone, Copy, Debug, PartialEq, Eq, Structural)]
pub struct WithdrawPlan {
    /// Units of the first asset to move out of its vault.
    pub transfer_a: u64,
    /// Units of the second asset to move out of its vault.
    pub transfer_b: u64,
    /// Liquidity tokens to burn from the caller.
    pub burn_amount: u64,
}

/// What Swap asks the embedding program to do: move the input into the
/// source vault (caller-signed) and the payout out of the destination
/// vault (authority-signed).
#[derive(Clone, Copy, Debug, PartialEq, Eq, Structural)]
pub struct SwapPlan {
    /// Units of the source asset the caller hands in.
    pub transfer_in: u64,
    /// Units of the destination asset paid out to the caller.
    pub transfer_out: u64,
}

/// What ClosePool asks the embedding program to do: leave the admin with
/// this balance, empty the pool record's balance and zero its data.
#[derive(Clone, Copy, Debug, PartialEq, Eq, Structural)]
pub struct ClosePoolPlan {
    /// The admin's balance after reclaiming the record's rent.
    pub admin_lamports: u64,
}

/// The plan one processed instruction produces.
#[derive(Clone, Copy, Debug)]
pub enum Plan {
    /// Plan of an Initialize.
    Initialize(InitializePlan),
    /// Plan of an AdminDeposit.
    AdminDeposit(DepositPlan),
    /// Plan of a Deposit.
    Deposit(DepositPlan),
    /// Plan of a Withdraw.
    Withdraw(WithdrawPlan),
    /// Plan of a Swap.
    Swap(SwapPlan),
    /// Plan of a ClosePool.
    ClosePool(ClosePoolPlan),
}

/// Decoding one supplied account as a token-ledger account: it must be
/// owned by the ledger program and its data must decode; the owner and
/// balance are what the pool reads.
pub open spec fn spec_unpack_token_account(a: AccountView) -> Result<(Seq<u8>, u64), OpError> {
    if a.owner@ != TOKEN_PROGRAM_ID@ {
        Err(OpError::Custom(ZionError::IncorrectTokenProgramId))
    } else if !spec_token_account_accepted(a.data@) {
        Err(OpError::Custom(ZionError::ExpectedTokenAccount))
    } else {
        Ok((spec_token_account_owner(a.data@), spec_token_account_amount(a.data@)))
    }
}

/// Decoding one supplied account as a token-ledger mint: it must be
/// owned by the ledger program and its data must decode; the optional
/// mint authority and the supply are what the pool reads.
pub open spec fn spec_unpack_mint(a: AccountView) -> Result<(Option<Seq<u8>>, u64), OpError> {
    if a.owner@ != TOKEN_PROGRAM_ID@ {
        Err(OpError::Custom(ZionError::IncorrectTokenProgramId))
    } else if !spec_mint_accepted(a.data@) {
        Err(OpError::Custom(ZionError::ExpectedMint))
    } else {
        Ok((spec_mint_authority(a.data@), spec_mint_supply(a.data@)))
    }
}

/// Reading one supplied account as a price oracle: bytes that do not
/// decode, and a negative price, are unrecoverable.
pub open spec fn spec_read_price(a: AccountView) -> Result<u64, OpError> {
    match spec_oracle_price(a.data@) {
        None => Err(OpError::Fatal),
        Some(p) => if p < 0 {
            Err(OpError::Fatal)
        } else {
            Ok(p as u64)
        },
    }
}

/// The authority check of Initialize: the supplied authority must equal
/// the derivation of the fixed authority seed with the given bump.
pub open spec fn spec_validate_swap_authority_key(key: Seq<u8>, bump: u8) -> Result<(), OpError> {
    match spec_create_pda(AUTHORITY_PREFIX@, bump, PROGRAM_ID@) {
        Some(derived) => if key == derived {
            Ok(())
        } else {
            Err(OpError::Custom(ZionError::InvalidSwapAuthority))
        },
        None => Err(OpError::Custom(ZionError::InvalidSwapAuthority)),
    }
}

/// The mint-and-vault ownership check of Initialize over one token
/// slot: the mint authority and then every listed account owner must
/// equal the expected authority.
pub open spec fn spec_validate_mint_and_token_accounts(
    owners: Seq<Pubkey>,
    mint_authority: Seq<u8>,
    expected_authority: Seq<u8>,
) -> Result<(), OpError> {
    if mint_authority != expected_authority {
        Err(OpError::Custom(ZionError::InvalidSwapAuthority))
    } else if exists|i: int| 0 <= i < owners.len() && (#[trigger] owners[i])@ != expected_authority {
        Err(OpError::Custom(ZionError::InvalidOwner))
    } else {
        Ok(())
    }
}

/// The processor: one associated function per operation, each computing
/// a plan or the operation's first failure.
pub struct Processor {}

impl Processor {
    /// Decodes a supplied account as a token-ledger account.
    pub fn unpack_token_account(account: &AccountView) -> (r: Result<TokenAccountInfo, OpError>)
        ensures
            match r {
                Ok(info) => spec_unpack_token_account(*account) == Ok::<(Seq<u8>, u64), OpError>(
                    (info.owner@, info.amount),
                ),
                Err(e) => spec_unpack_token_account(*account) == Err::<(Seq<u8>, u64), OpError>(e),
            },
    {
        let ledger = Pubkey::new_from_array(TOKEN_PROGRAM_ID);
        if !cmp_pubkeys(&account.owner, &ledger) {
            return Err(OpError::Custom(ZionError::IncorrectTokenProgramId));
        }
        match unpack_token_account_bytes(&account.data) {
            Some(info) => Ok(info),
            None => Err(OpError::Custom(ZionError::ExpectedTokenAccount)),
        }
    }

    /// Decodes a supplied account as a token-ledger mint.
    pub fn unpack_mint(account: &AccountView) -> (r: Result<MintInfo, OpError>)
        ensures
            match r {
                Ok(info) => spec_unpack_mint(*account) == Ok::<(Option<Seq<u8>>, u64), OpError>(
                    (
                        match info.mint_authority {
                            Some(k) => Some(k@),
                            None => None,
                        },
                        info.supply,
                    ),
                ),
                Err(e) => spec_unpack_mint(*account) == Err::<(Option<Seq<u8>>, u64), OpError>(e),
            },
    {
        let ledger = Pubkey::new_from_array(TOKEN_PROGRAM_ID);
        if !cmp_pubkeys(&account.owner, &ledger) {
            return Err(OpError::Custom(ZionError::IncorrectTokenProgramId));
        }
        match unpack_mint_bytes(&account.data) {
            Some(info) => Ok(info),
            None => Err(OpError::Custom(ZionError::ExpectedMint)),
        }
    }

    /// Reads a supplied account as a price oracle.
    pub fn read_price(account: &AccountView) -> (r: Result<u64, OpError>)
        ensures
            r == spec_read_price(*account),
    {
        match read_oracle_price(&account.data) {
            None => Err(OpError::Fatal),
            Some(price) => if price < 0 {
                Err(OpError::Fatal)
            } else {
                Ok(price as u64)
            },
        }
    }

    /// Checks the supplied authority against a fresh derivation from the
    /// fixed authority seed and the given bump.
    pub fn validate_swap_authority_key(swap_authority: &Pubkey, swap_authority_bump: u8) -> (r:
        Result<(), OpError>)
        ensures
            r == spec_validate_swap_authority_key(swap_authority@, swap_authority_bump),
    {
        let prefix = AUTHORITY_PREFIX;
        match create_pda(prefix.as_slice(), swap_authority_bump, &PROGRAM_ID) {
            Some(derived) => {
                let derived_key = Pubkey::new_from_array(derived);
                if cmp_pubkeys(swap_authority, &derived_key) {
                    Ok(())
                } else {
                    Err(OpError::Custom(ZionError::InvalidSwapAuthority))
                }
            },
            None => Err(OpError::Custom(ZionError::InvalidSwapAuthority)),
        }
    }

    /// Checks the mint authority and every listed account owner of one
    /// token slot against the expected authority.
    pub fn validate_mint_and_token_accounts(
        token_account_owners: &[Pubkey],
        mint_authority: &Pubkey,
        expected_authority: &Pubkey,
    ) -> (r: Result<(), OpError>)
        ensures
            r == spec_validate_mint_and_token_accounts(
                token_account_owners@,
                mint_authority@,
                expected_authority@,
            ),
    {
        if !cmp_pubkeys(mint_authority, expected_authority) {
            return Err(OpError::Custom(ZionError::InvalidSwapAuthority));
        }
        let mut i: usize = 0;
        while i < token_account_owners.len()
            invariant
                i <= token_account_owners.len(),
                mint_authority@ == expected_authority@,
                forall|j: int| 0 <= j < i ==> (#[trigger] token_account_owners@[j])@
                    == expected_authority@,
            decreases token_account_owners.len() - i,
        {
            let owner = vstd::slice::slice_index_get(token_account_owners, i);
            if !cmp_pubkeys(owner, expected_authority) {
                proof {
                    assert((token_account_owners@[i as int])@ != expected_authority@);
                }
                return Err(OpError::Custom(ZionError::InvalidOwner));
            }
            i = i + 1;
        }
        Ok(())
    }

    /// Rejects a record account that already holds data.
    pub fn assert_uninitialized(account: &AccountView) -> (r: Result<(), OpError>)
        ensures
            r == if account.data@.len() == 0 {
                Ok::<(), OpError>(())
            } else {
                Err::<(), OpError>(OpError::AccountAlreadyInitialized)
            },
    {
        if account.data.len() != 0 {
            return Err(OpError::AccountAlreadyInitialized);
        }
        Ok(())
    }
}

/// What ClosePool decides, over the supplied accounts (admin, pool
/// record, authority): the record address must be the derived one, the
/// record must decode, the caller must be the recorded admin and a
/// signer, the authority must match, and the rent reclamation must not
/// overflow the admin's balance.
pub open spec fn spec_process_close_pool(accounts: Seq<AccountView>) -> Result<
    ClosePoolPlan,
    OpError,
> {
    if accounts.len() < 3 {
        Err(OpError::NotEnoughAccountKeys)
    } else {
        let admin = accounts[0];
        let record_account = accounts[1];
        let authority = accounts[2];
        match spec_validate_swap_state_key(record_account.key@) {
            Err(e) => Err(e),
            Ok(_) => match spec_unpack_state(record_account.data@) {
                Err(e) => Err(e),
                Ok(record) => if record.admin != admin.key@ {
                    Err(OpError::Custom(ZionError::MustBeAdmin))
                } else if !admin.is_signer {
                    Err(OpError::Custom(ZionError::InvalidSigner))
                } else {
                    match record.spec_validate_swap_state_authority(authority.key@) {
                        Err(e) => Err(e),
                        Ok(_) => if admin.lamports + record_account.lamports <= u64::MAX {
                            Ok(
                                ClosePoolPlan {
                                    admin_lamports: (admin.lamports + record_account.lamports) as u64,
                                },
                            )
                        } else {
                            Err(OpError::Fatal)
                        },
                    }
                },
            },
        }
    }
}

/// The liquidity tokens owed for one side of an AdminDeposit: the raw
/// market value of the deposit; zero for an empty side; `None` marks a
/// value past 64 bits, an arithmetic-contract violation.
pub open spec fn spec_admin_side_tokens(deposit: u64, price: u64) -> Option<u64> {
    if deposit > 0 {
        if deposit * price <= u64::MAX {
            Some((deposit * price) as u64)
        } else {
            None
        }
    } else {
        Some(0u64)
    }
}

/// The two sides of a deposit combined into one mint or burn amount; an
/// unrepresentable side or sum is an arithmetic-contract violation.
pub open spec fn spec_combine_sides(a: Option<u64>, b: Option<u64>) -> Result<u64, OpError> {
    match (a, b) {
        (Some(x), Some(y)) => if x + y <= u64::MAX {
            Ok((x + y) as u64)
        } else {
            Err(OpError::Fatal)
        },
        _ => Err(OpError::Fatal),
    }
}

/// What AdminDeposit decides, over the supplied accounts (admin,
/// authority, liquidity mint, pool record, admin liquidity wallet, then
/// mint / admin wallet / vault / oracle of each asset, then the ledger
/// program): the caller must be the recorded admin and a signer, every
/// identity is checked against the record, the two oracle prices are
/// read, and the mint amount is the summed raw market value of both
/// sides.
pub open spec fn spec_process_admin_deposit(
    accounts: Seq<AccountView>,
    token_a_deposit: u64,
    token_b_deposit: u64,
) -> Result<DepositPlan, OpError> {
    if accounts.len() < 14 {
        Err(OpError::NotEnoughAccountKeys)
    } else {
        let admin = accounts[0];
        let authority = accounts[1];
        let swap_mint = accounts[2];
        let record_account = accounts[3];
        let a_mint = accounts[5];
        let a_vault = accounts[7];
        let a_oracle = accounts[8];
        let b_mint = accounts[9];
        let b_vault = accounts[11];
        let b_oracle = accounts[12];
        let token_program = accounts[13];
        if token_program.key@ != TOKEN_PROGRAM_ID@ {
            Err(OpError::Custom(ZionError::InvalidTokenProgramKey))
        } else {
            match spec_validate_swap_state_key(record_account.key@) {
                Err(e) => Err(e),
                Ok(_) => match spec_unpack_state(record_account.data@) {
                    Err(e) => Err(e),
                    Ok(record) => if !admin.is_signer {
                        Err(OpError::Custom(ZionError::InvalidSigner))
                    } else if record.admin != admin.key@ {
                        Err(OpError::Custom(ZionError::MustBeAdmin))
                    } else {
                        match record.spec_validate_swap_state_authority(authority.key@) {
                            Err(e) => Err(e),
                            Ok(_) => if a_mint.key@ != record.token_a.mint {
                                Err(OpError::Custom(ZionError::InvalidMint))
                            } else if b_mint.key@ != record.token_b.mint {
                                Err(OpError::Custom(ZionError::InvalidMint))
                            } else if swap_mint.key@ != record.swap_mint {
                                Err(OpError::Custom(ZionError::InvalidMint))
                            } else if a_oracle.key@ != record.token_a.oracle {
                                Err(OpError::Custom(ZionError::InvalidOracle))
                            } else if b_oracle.key@ != record.token_b.oracle {
                                Err(OpError::Custom(ZionError::InvalidOracle))
                            } else if a_vault.key@ != record.token_a.vault {
                                Err(OpError::Custom(ZionError::InvalidVault))
                            } else if b_vault.key@ != record.token_b.vault {
                                Err(OpError::Custom(ZionError::InvalidVault))
                            } else {
                                match spec_read_price(a_oracle) {
                                    Err(e) => Err(e),
                                    Ok(price_a) => match spec_read_price(b_oracle) {
                                        Err(e) => Err(e),
                                        Ok(price_b) => match spec_combine_sides(
                                            spec_admin_side_tokens(token_a_deposit, price_a),
                                            spec_admin_side_tokens(token_b_deposit, price_b),
                                        ) {
                                            Err(e) => Err(e),
                                            Ok(mint_amount) => Ok(
                                                DepositPlan {
                                                    transfer_a: token_a_deposit,
                                                    transfer_b: token_b_deposit,
                                                    mint_amount,
                                                },
                                            ),
                                        },
                                    },
                                }
                            },
                        }
                    },
                },
            }
        }
    }
}


/// The liquidity tokens owed for one side of a Deposit or the cost of
/// one side of a Withdraw: the protocol-relative pricing of the amount;
/// zero for an empty side; `None` marks an arithmetic-contract
/// violation.
pub open spec fn spec_side_tokens(
    deposit: u64,
    this_amount: u64,
    this_price: u64,
    this_fee: u64,
    other_amount: u64,
    other_price: u64,
    other_fee: u64,
    supply: u64,
) -> Option<u64> {
    if deposit > 0 {
        crate::pricing::spec_calculate_swap_tokens(
            deposit,
            this_amount,
            this_price,
            this_fee,
            other_amount,
            other_price,
            other_fee,
            supply,
        )
    } else {
        Some(0u64)
    }
}

/// The validation every user operation (Deposit, Withdraw) shares, over
/// its fixed account order (user, pool record, authority, liquidity
/// mint, user liquidity wallet, then user wallet / vault / fee vault /
/// oracle of each asset, then the ledger program): ledger program and
/// signer checks, record address and decode, every identity against the
/// record, and the decoding of the four custody accounts and the
/// liquidity mint. Returns the record with the two vault balances, the
/// two fee-vault balances and the liquidity supply.
pub open spec fn spec_user_op_context(accounts: Seq<AccountView>) -> Result<
    (SwapStateView, u64, u64, u64, u64, u64),
    OpError,
> {
    if accounts.len() < 14 {
        Err(OpError::NotEnoughAccountKeys)
    } else {
        let user = accounts[0];
        let record_account = accounts[1];
        let authority = accounts[2];
        let swap_mint = accounts[3];
        let a_vault = accounts[6];
        let a_fee_vault = accounts[7];
        let a_oracle = accounts[8];
        let b_vault = accounts[10];
        let b_fee_vault = accounts[11];
        let b_oracle = accounts[12];
        let token_program = accounts[13];
        if token_program.key@ != TOKEN_PROGRAM_ID@ {
            Err(OpError::Custom(ZionError::InvalidTokenProgramKey))
        } else if !user.is_signer {
            Err(OpError::Custom(ZionError::InvalidSigner))
        } else {
            match spec_validate_swap_state_key(record_account.key@) {
                Err(e) => Err(e),
                Ok(_) => match spec_unpack_state(record_account.data@) {
                    Err(e) => Err(e),
                    Ok(record) => match record.spec_validate_accounts(
                        authority.key@,
                        swap_mint.key@,
                        record.token_a.mint,
                        a_vault.key@,
                        a_fee_vault.key@,
                        a_oracle.key@,
                        record.token_b.mint,
                        b_vault.key@,
                        b_fee_vault.key@,
                        b_oracle.key@,
                    ) {
                        Err(e) => Err(e),
                        Ok(_) => match spec_unpack_token_account(a_vault) {
                            Err(e) => Err(e),
                            Ok(a_vault_decoded) => match spec_unpack_token_account(a_fee_vault) {
                                Err(e) => Err(e),
                                Ok(a_fee_decoded) => match spec_unpack_token_account(b_vault) {
                                    Err(e) => Err(e),
                                    Ok(b_vault_decoded) => match spec_unpack_token_account(
                                        b_fee_vault,
                                    ) {
                                        Err(e) => Err(e),
                                        Ok(b_fee_decoded) => match spec_unpack_mint(swap_mint) {
                                            Err(e) => Err(e),
                                            Ok(mint_decoded) => Ok(
                                                (
                                                    record,
                                                    a_vault_decoded.1,
                                                    a_fee_decoded.1,
                                                    b_vault_decoded.1,
                                                    b_fee_decoded.1,
                                                    mint_decoded.1,
                                                ),
                                            ),
                                        },
                                    },
                                },
                            },
                        },
                    },
                },
            }
        }
    }
}

/// What Deposit decides: the shared user-operation validation, the two
/// oracle prices, and a mint amount priced by the protocol-relative
/// rule, each side against the opposite vault.
pub open spec fn spec_process_deposit(
    accounts: Seq<AccountView>,
    token_a_deposit: u64,
    token_b_deposit: u64,
) -> Result<DepositPlan, OpError> {
    match spec_user_op_context(accounts) {
        Err(e) => Err(e),
        Ok(context) => {
            let (record, a_amount, a_fee, b_amount, b_fee, supply) = context;
            match spec_read_price(accounts[8]) {
                Err(e) => Err(e),
                Ok(price_a) => match spec_read_price(accounts[12]) {
                    Err(e) => Err(e),
                    Ok(price_b) => match spec_combine_sides(
                        spec_side_tokens(
                            token_a_deposit,
                            a_amount,
                            price_a,
                            a_fee,
                            b_amount,
                            price_b,
                            b_fee,
                            supply,
                        ),
                        spec_side_tokens(
                            token_b_deposit,
                            b_amount,
                            price_b,
                            b_fee,
                            a_amount,
                            price_a,
                            a_fee,
                            supply,
                        ),
                    ) {
                        Err(e) => Err(e),
                        Ok(mint_amount) => Ok(
                            DepositPlan {
                                transfer_a: token_a_deposit,
                                transfer_b: token_b_deposit,
                                mint_amount,
                            },
                        ),
                    },
                },
            }
        },
    }
}

/// What Withdraw decides: the shared user-operation validation, the
/// caller's liquidity balance, the two oracle prices, and the cost of
/// the requested amounts under the protocol-relative rule — paid out
/// only while the cost stays strictly below the caller's balance.
pub open spec fn spec_process_withdraw(
    accounts: Seq<AccountView>,
    token_a_withdraw: u64,
    token_b_withdraw: u64,
) -> Result<WithdrawPlan, OpError> {
    match spec_user_op_context(accounts) {
        Err(e) => Err(e),
        Ok(context) => {
            let (record, a_amount, a_fee, b_amount, b_fee, supply) = context;
            match spec_unpack_token_account(accounts[4]) {
                Err(e) => Err(e),
                Ok(user_wallet) => match spec_read_price(accounts[8]) {
                    Err(e) => Err(e),
                    Ok(price_a) => match spec_read_price(accounts[12]) {
                        Err(e) => Err(e),
                        Ok(price_b) => match spec_combine_sides(
                            spec_side_tokens(
                                token_a_withdraw,
                                a_amount,
                                price_a,
                                a_fee,
                                b_amount,
                                price_b,
                                b_fee,
                                supply,
                            ),
                            spec_side_tokens(
                                token_b_withdraw,
                                b_amount,
                                price_b,
                                b_fee,
                                a_amount,
                                price_a,
                                a_fee,
                                supply,
                            ),
                        ) {
                            Err(e) => Err(e),
                            Ok(burn_amount) => if burn_amount < user_wallet.1 {
                                Ok(
                                    WithdrawPlan {
                                        transfer_a: token_a_withdraw,
                                        transfer_b: token_b_withdraw,
                                        burn_amount,
                                    },
                                )
                            } else {
                                Err(OpError::Custom(ZionError::InsufficientSwapTokens))
                            },
                        },
                    },
                },
            }
        },
    }
}


/// What Swap decides, over the supplied accounts (user, pool record,
/// authority, then user wallet / vault / fee vault / oracle of the
/// source and of the destination, then the ledger program): the
/// destination vault must be funded, the two oracles must differ, the
/// vaults must pair with one recorded token slot, and the payout is the
/// swap rule over the two vault balances and prices.
pub open spec fn spec_process_swap(accounts: Seq<AccountView>, amount: u64) -> Result<
    SwapPlan,
    OpError,
> {
    if accounts.len() < 12 {
        Err(OpError::NotEnoughAccountKeys)
    } else {
        let user = accounts[0];
        let record_account = accounts[1];
        let authority = accounts[2];
        let source_vault = accounts[4];
        let source_fee_vault = accounts[5];
        let source_oracle = accounts[6];
        let destination_vault = accounts[8];
        let destination_fee_vault = accounts[9];
        let destination_oracle = accounts[10];
        let token_program = accounts[11];
        if token_program.key@ != TOKEN_PROGRAM_ID@ {
            Err(OpError::Custom(ZionError::InvalidTokenProgramKey))
        } else if !user.is_signer {
            Err(OpError::Custom(ZionError::InvalidSigner))
        } else {
            match spec_validate_swap_state_key(record_account.key@) {
                Err(e) => Err(e),
                Ok(_) => match spec_unpack_state(record_account.data@) {
                    Err(e) => Err(e),
                    Ok(record) => match record.spec_validate_swap_state_authority(authority.key@) {
                        Err(e) => Err(e),
                        Ok(_) => match spec_unpack_token_account(source_vault) {
                            Err(e) => Err(e),
                            Ok(source_decoded) => match spec_unpack_token_account(
                                destination_vault,
                            ) {
                                Err(e) => Err(e),
                                Ok(destination_decoded) => if destination_decoded.1 == 0 {
                                    Err(OpError::Custom(ZionError::InvalidSupply))
                                } else {
                                    match spec_oracle_price(source_oracle.data@) {
                                        None => Err(OpError::Fatal),
                                        Some(source_price_raw) => match spec_oracle_price(
                                            destination_oracle.data@,
                                        ) {
                                            None => Err(OpError::Fatal),
                                            Some(destination_price_raw) => if destination_oracle.key@
                                                == source_oracle.key@ {
                                                Err(OpError::Custom(ZionError::InvalidOracle))
                                            } else {
                                                match spec_match_swap_vaults(
                                                    record,
                                                    source_vault.key@,
                                                    source_fee_vault.key@,
                                                    destination_vault.key@,
                                                    destination_fee_vault.key@,
                                                ) {
                                                    Err(e) => Err(e),
                                                    Ok(_) => if source_price_raw < 0 {
                                                        Err(OpError::Fatal)
                                                    } else if destination_price_raw < 0 {
                                                        Err(OpError::Fatal)
                                                    } else {
                                                        match crate::pricing::spec_calculate_tokens_to_swap(
                                                            source_decoded.1,
                                                            source_price_raw as u64,
                                                            destination_price_raw as u64,
                                                            destination_decoded.1,
                                                            amount,
                                                        ) {
                                                            None => Err(OpError::Fatal),
                                                            Some(m) => Ok(
                                                                SwapPlan {
                                                                    transfer_in: amount,
                                                                    transfer_out: m,
                                                                },
                                                            ),
                                                        }
                                                    },
                                                }
                                            },
                                        },
                                    }
                                },
                            },
                        },
                    },
                },
            }
        }
    }
}

/// The vault pairing of Swap: the supplied source vault selects one
/// recorded token slot, and then both vaults and both fee vaults must
/// match that orientation, first failure wins.
pub open spec fn spec_match_swap_vaults(
    record: SwapStateView,
    source_vault: Seq<u8>,
    source_fee_vault: Seq<u8>,
    destination_vault: Seq<u8>,
    destination_fee_vault: Seq<u8>,
) -> Result<(), OpError> {
    if source_vault == record.token_a.vault {
        if destination_vault != record.token_b.vault {
            Err(OpError::Custom(ZionError::InvalidVault))
        } else if source_fee_vault != record.token_a.fee_vault {
            Err(OpError::Custom(ZionError::InvalidVault))
        } else if destination_fee_vault != record.token_b.fee_vault {
            Err(OpError::Custom(ZionError::InvalidVault))
        } else {
            Ok(())
        }
    } else {
        if destination_vault != record.token_a.vault {
            Err(OpError::Custom(ZionError::InvalidVault))
        } else if source_vault != record.token_b.vault {
            Err(OpError::Custom(ZionError::InvalidVault))
        } else if destination_fee_vault != record.token_a.fee_vault {
            Err(OpError::Custom(ZionError::InvalidVault))
        } else if source_fee_vault != record.token_b.fee_vault {
            Err(OpError::Custom(ZionError::InvalidVault))
        } else {
            Ok(())
        }
    }
}

/// What Initialize decides, over the record handed in the instruction
/// and the supplied accounts (admin, authority, liquidity mint, pool
/// record, then mint / vault / fee vault / oracle of each asset, then
/// the ledger program, the rent reference and the system program): both
/// program identities, the admin signature, fresh derivations of the
/// record and authority addresses, an empty record account, a zero-
/// supply liquidity mint whose authority is the derived one, both asset
/// mints and custody owners under that authority, and distinct asset
/// mints. The record persisted is rebuilt from the supplied accounts.
pub open spec fn spec_process_initialize(
    swap_state: SwapStateView,
    accounts: Seq<AccountView>,
) -> Result<SwapStateView, OpError> {
    if accounts.len() < 15 {
        Err(OpError::NotEnoughAccountKeys)
    } else {
        let admin = accounts[0];
        let authority = accounts[1];
        let swap_mint = accounts[2];
        let record_account = accounts[3];
        let a_mint = accounts[4];
        let a_vault = accounts[5];
        let a_fee_vault = accounts[6];
        let a_oracle = accounts[7];
        let b_mint = accounts[8];
        let b_vault = accounts[9];
        let b_fee_vault = accounts[10];
        let b_oracle = accounts[11];
        let token_program = accounts[12];
        let system_program = accounts[14];
        if token_program.key@ != TOKEN_PROGRAM_ID@ {
            Err(OpError::Custom(ZionError::InvalidTokenProgramKey))
        } else if system_program.key@ != SYSTEM_PROGRAM_ID@ {
            Err(OpError::Custom(ZionError::InvalidSystemProgramKey))
        } else if !admin.is_signer {
            Err(OpError::Custom(ZionError::InvalidSigner))
        } else {
            match spec_validate_swap_state_key(record_account.key@) {
                Err(e) => Err(e),
                Ok(_) => if record_account.data@.len() != 0 {
                    Err(OpError::AccountAlreadyInitialized)
                } else {
                    match spec_validate_swap_authority_key(
                        authority.key@,
                        swap_state.swap_authority_bump,
                    ) {
                        Err(e) => Err(e),
                        Ok(_) => match spec_unpack_mint(swap_mint) {
                            Err(e) => Err(e),
                            Ok(swap_mint_decoded) => if swap_mint_decoded.0 != Some(
                                swap_state.swap_authority,
                            ) {
                                Err(OpError::Custom(ZionError::InvalidAuthority))
                            } else if swap_mint_decoded.1 != 0 {
                                Err(OpError::Custom(ZionError::InvalidSupply))
                            } else {
                                match spec_initialize_token_side(
                                    swap_state.swap_authority,
                                    a_mint,
                                    a_vault,
                                    a_fee_vault,
                                ) {
                                    Err(e) => Err(e),
                                    Ok(_) => match spec_initialize_token_side(
                                        swap_state.swap_authority,
                                        b_mint,
                                        b_vault,
                                        b_fee_vault,
                                    ) {
                                        Err(e) => Err(e),
                                        Ok(_) => if a_mint.key@ == b_mint.key@ {
                                            Err(OpError::Custom(ZionError::IdenticalMints))
                                        } else {
                                            Ok(
                                                SwapStateView {
                                                    admin: admin.key@,
                                                    bump: swap_state.bump,
                                                    is_initialized: true,
                                                    swap_authority: swap_state.swap_authority,
                                                    swap_authority_bump: swap_state.swap_authority_bump,
                                                    swap_mint: swap_mint.key@,
                                                    token_a: crate::state::TokenView {
                                                        mint: a_mint.key@,
                                                        vault: a_vault.key@,
                                                        fee_vault: a_fee_vault.key@,
                                                        oracle: a_oracle.key@,
                                                    },
                                                    token_b: crate::state::TokenView {
                                                        mint: b_mint.key@,
                                                        vault: b_vault.key@,
                                                        fee_vault: b_fee_vault.key@,
                                                        oracle: b_oracle.key@,
                                                    },
                                                    program_fee: swap_state.program_fee,
                                                    swap_fee: swap_state.swap_fee,
                                                },
                                            )
                                        },
                                    },
                                }
                            },
                        },
                    }
                },
            }
        }
    }
}

/// The per-asset validation of Initialize: the mint must decode and
/// carry an authority, the vault and fee vault must decode, and the
/// mint authority and both custody owners must equal the expected
/// authority, first failure wins.
pub open spec fn spec_initialize_token_side(
    expected_authority: Seq<u8>,
    mint: AccountView,
    vault: AccountView,
    fee_vault: AccountView,
) -> Result<(), OpError> {
    match spec_unpack_mint(mint) {
        Err(e) => Err(e),
        Ok(mint_decoded) => match mint_decoded.0 {
            None => Err(OpError::Custom(ZionError::InvalidAuthority)),
            Some(mint_authority) => match spec_unpack_token_account(vault) {
                Err(e) => Err(e),
                Ok(vault_decoded) => match spec_unpack_token_account(fee_vault) {
                    Err(e) => Err(e),
                    Ok(fee_decoded) => if mint_authority != expected_authority {
                        Err(OpError::Custom(ZionError::InvalidSwapAuthority))
                    } else if vault_decoded.0 != expected_authority {
                        Err(OpError::Custom(ZionError::InvalidOwner))
                    } else if fee_decoded.0 != expected_authority {
                        Err(OpError::Custom(ZionError::InvalidOwner))
                    } else {
                        Ok(())
                    },
                },
            },
        },
    }
}

/// Withdraw pays out only against a strictly larger liquidity balance:
/// whenever it succeeds, the burned cost lies strictly below the
/// caller's balance — so a cost that reaches the balance, even exactly,
/// can never pass.
pub proof fn lemma_withdraw_strict_balance(
    accounts: Seq<AccountView>,
    token_a_withdraw: u64,
    token_b_withdraw: u64,
)
    ensures
        match spec_process_withdraw(accounts, token_a_withdraw, token_b_withdraw) {
            Ok(plan) => match spec_unpack_token_account(accounts[4]) {
                Ok(user_wallet) => plan.burn_amount < user_wallet.1,
                Err(_) => false,
            },
            Err(_) => true,
        },
{
}

/// Withdraw fails with the insufficient-liquidity error exactly when
/// everything else is in order but the computed cost reaches the
/// caller's balance.
pub proof fn lemma_withdraw_insufficient(
    accounts: Seq<AccountView>,
    token_a_withdraw: u64,
    token_b_withdraw: u64,
)
    requires
        spec_user_op_context(accounts) is Ok,
        spec_unpack_token_account(accounts[4]) is Ok,
        spec_read_price(accounts[8]) is Ok,
        spec_read_price(accounts[12]) is Ok,
    ensures
        ({
            let context = match spec_user_op_context(accounts) {
                Ok(c) => c,
                Err(_) => arbitrary(),
            };
            let balance = match spec_unpack_token_account(accounts[4]) {
                Ok(w) => w.1,
                Err(_) => arbitrary(),
            };
            let price_a = match spec_read_price(accounts[8]) {
                Ok(p) => p,
                Err(_) => arbitrary(),
            };
            let price_b = match spec_read_price(accounts[12]) {
                Ok(p) => p,
                Err(_) => arbitrary(),
            };
            match spec_combine_sides(
                spec_side_tokens(
                    token_a_withdraw,
                    context.1,
                    price_a,
                    context.2,
                    context.3,
                    price_b,
                    context.4,
                    context.5,
                ),
                spec_side_tokens(
                    token_b_withdraw,
                    context.3,
                    price_b,
                    context.4,
                    context.1,
                    price_a,
                    context.2,
                    context.5,
                ),
            ) {
                Ok(cost) => cost >= balance ==> spec_process_withdraw(
                    accounts,
                    token_a_withdraw,
                    token_b_withdraw,
                ) == Err::<WithdrawPlan, OpError>(
                    OpError::Custom(ZionError::InsufficientSwapTokens),
                ),
                Err(_) => true,
            }
        }),
{
}

/// A closed pool stays closed: once the record account's data has been
/// zeroed, the recorded admin is the all-zero identity, so no caller
/// under a real key can pass the admin check and close again.
pub proof fn lemma_closed_pool_stays_closed(accounts: Seq<AccountView>)
    requires
        accounts.len() >= 3,
        accounts[1].data@ =~= Seq::new(371, |i: int| 0u8),
        accounts[0].key@ != Seq::new(32, |i: int| 0u8),
    ensures
        !(spec_process_close_pool(accounts) is Ok),
{
    let zeroed = accounts[1].data@;
    match spec_validate_swap_state_key(accounts[1].key@) {
        Err(_) => {},
        Ok(_) => {
            assert(zeroed[33] == 0);
            match spec_unpack_state(zeroed) {
                Err(_) => {
                    assert(false);
                },
                Ok(record) => {
                    assert(record.admin =~= Seq::new(32, |i: int| 0u8));
                    assert(record.admin != accounts[0].key@);
                },
            }
        },
    }
}

/// Initialize cannot succeed with a liquidity mint of nonzero supply,
/// with a liquidity-mint or asset-mint authority other than the
/// recorded swap authority, or with two identical asset mints.
pub proof fn lemma_initialize_rejections(swap_state: SwapStateView, accounts: Seq<AccountView>)
    requires
        accounts.len() >= 15,
    ensures
        (match spec_unpack_mint(accounts[2]) {
            Ok(decoded) => decoded.1 != 0,
            Err(_) => false,
        }) ==> !(spec_process_initialize(swap_state, accounts) is Ok),
        (match spec_unpack_mint(accounts[2]) {
            Ok(decoded) => decoded.0 != Some(swap_state.swap_authority),
            Err(_) => false,
        }) ==> !(spec_process_initialize(swap_state, accounts) is Ok),
        (match spec_unpack_mint(accounts[4]) {
            Ok(decoded) => decoded.0 != Some(swap_state.swap_authority),
            Err(_) => false,
        }) ==> !(spec_process_initialize(swap_state, accounts) is Ok),
        (match spec_unpack_mint(accounts[8]) {
            Ok(decoded) => decoded.0 != Some(swap_state.swap_authority),
            Err(_) => false,
        }) ==> !(spec_process_initialize(swap_state, accounts) is Ok),
        accounts[4].key@ == accounts[8].key@ ==> !(spec_process_initialize(swap_state, accounts)
            is Ok),
{
}

/// The mathematical image of a [`Plan`].
pub enum PlanView {
    /// Plan of an Initialize: the record to persist.
    Initialize(SwapStateView),
    /// Plan of an AdminDeposit.
    AdminDeposit(DepositPlan),
    /// Plan of a Deposit.
    Deposit(DepositPlan),
    /// Plan of a Withdraw.
    Withdraw(WithdrawPlan),
    /// Plan of a Swap.
    Swap(SwapPlan),
    /// Plan of a ClosePool.
    ClosePool(ClosePoolPlan),
}

impl View for Plan {
    type V = PlanView;

    open spec fn view(&self) -> PlanView {
        match *self {
            Plan::Initialize(p) => PlanView::Initialize(p.record@),
            Plan::AdminDeposit(p) => PlanView::AdminDeposit(p),
            Plan::Deposit(p) => PlanView::Deposit(p),
            Plan::Withdraw(p) => PlanView::Withdraw(p),
            Plan::Swap(p) => PlanView::Swap(p),
            Plan::ClosePool(p) => PlanView::ClosePool(p),
        }
    }
}

/// What one whole invocation decides: the instruction is decoded and
/// dispatched, and the operation's plan or first failure comes back.
pub open spec fn spec_process(accounts: Seq<AccountView>, input: Seq<u8>) -> Result<
    PlanView,
    OpError,
> {
    match crate::instructions::spec_unpack_instruction(input) {
        Err(e) => Err(e),
        Ok(instruction) => match instruction {
            crate::instructions::InstructionView::Initialize(s) => match spec_process_initialize(
                s,
                accounts,
            ) {
                Ok(record) => Ok(PlanView::Initialize(record)),
                Err(e) => Err(e),
            },
            crate::instructions::InstructionView::AdminDeposit(a, b) => match (
            spec_process_admin_deposit(accounts, a, b)) {
                Ok(p) => Ok(PlanView::AdminDeposit(p)),
                Err(e) => Err(e),
            },
            crate::instructions::InstructionView::Deposit(a, b) => match spec_process_deposit(
                accounts,
                a,
                b,
            ) {
                Ok(p) => Ok(PlanView::Deposit(p)),
                Err(e) => Err(e),
            },
            crate::instructions::InstructionView::Withdraw(a, b) => match spec_process_withdraw(
                accounts,
                a,
                b,
            ) {
                Ok(p) => Ok(PlanView::Withdraw(p)),
                Err(e) => Err(e),
            },
            crate::instructions::InstructionView::Swap(a) => match spec_process_swap(accounts, a) {
                Ok(p) => Ok(PlanView::Swap(p)),
                Err(e) => Err(e),
            },
            crate::instructions::InstructionView::ClosePool => match spec_process_close_pool(
                accounts,
            ) {
                Ok(p) => Ok(PlanView::ClosePool(p)),
                Err(e) => Err(e),
            },
        },
    }
}

impl Processor {
    /// Processes a ClosePool: reclaims the record's rent to the admin
    /// and directs the embedding program to zero the record.
    pub fn process_close_pool(accounts: &Vec<AccountView>) -> (r: Result<ClosePoolPlan, OpError>)
        ensures
            r == spec_process_close_pool(accounts@),
    {
        if accounts.len() < 3 {
            return Err(OpError::NotEnoughAccountKeys);
        }
        let admin_info = &accounts[0];
        let swap_state_info = &accounts[1];
        let swap_authority_info = &accounts[2];
        match SwapState::validate_swap_state_key(&swap_state_info.key) {
            Err(e) => {
                return Err(e);
            },
            Ok(_) => {},
        }
        let swap_state = match SwapState::unpack_from_slice(swap_state_info.data.as_slice()) {
            Ok(s) => s,
            Err(e) => {
                return Err(e);
            },
        };
        if !cmp_pubkeys(&swap_state.admin, &admin_info.key) {
            return Err(OpError::Custom(ZionError::MustBeAdmin));
        }
        if !admin_info.is_signer {
            return Err(OpError::Custom(ZionError::InvalidSigner));
        }
        match swap_state.validate_swap_state_authority(&swap_authority_info.key) {
            Err(e) => {
                return Err(e);
            },
            Ok(_) => {},
        }
        match admin_info.lamports.checked_add(swap_state_info.lamports) {
            Some(admin_lamports) => Ok(ClosePoolPlan { admin_lamports }),
            None => Err(OpError::Fatal),
        }
    }

    /// Processes an AdminDeposit: the privileged seeding operation —
    /// only the recorded admin may call it — pricing both sides at raw
    /// oracle market value with no scarcity premium.
    pub fn process_admin_deposit(
        accounts: &Vec<AccountView>,
        token_a_deposit: u64,
        token_b_deposit: u64,
    ) -> (r: Result<DepositPlan, OpError>)
        ensures
            r == spec_process_admin_deposit(accounts@, token_a_deposit, token_b_deposit),
    {
        if accounts.len() < 14 {
            return Err(OpError::NotEnoughAccountKeys);
        }
        let admin_info = &accounts[0];
        let swap_authority_info = &accounts[1];
        let swap_mint_info = &accounts[2];
        let swap_state_info = &accounts[3];
        let token_a_mint_info = &accounts[5];
        let token_a_vault_info = &accounts[7];
        let token_a_oracle_info = &accounts[8];
        let token_b_mint_info = &accounts[9];
        let token_b_vault_info = &accounts[11];
        let token_b_oracle_info = &accounts[12];
        let token_program_info = &accounts[13];
        let ledger = Pubkey::new_from_array(TOKEN_PROGRAM_ID);
        if !cmp_pubkeys(&token_program_info.key, &ledger) {
            return Err(OpError::Custom(ZionError::InvalidTokenProgramKey));
        }
        match SwapState::validate_swap_state_key(&swap_state_info.key) {
            Err(e) => {
                return Err(e);
            },
            Ok(_) => {},
        }
        let swap_state = match SwapState::unpack_from_slice(swap_state_info.data.as_slice()) {
            Ok(s) => s,
            Err(e) => {
                return Err(e);
            },
        };
        if !admin_info.is_signer {
            return Err(OpError::Custom(ZionError::InvalidSigner));
        }
        if !cmp_pubkeys(&swap_state.admin, &admin_info.key) {
            return Err(OpError::Custom(ZionError::MustBeAdmin));
        }
        match swap_state.validate_swap_state_authority(&swap_authority_info.key) {
            Err(e) => {
                return Err(e);
            },
            Ok(_) => {},
        }
        if !cmp_pubkeys(&token_a_mint_info.key, &swap_state.token_a.mint) {
            return Err(OpError::Custom(ZionError::InvalidMint));
        }
        if !cmp_pubkeys(&token_b_mint_info.key, &swap_state.token_b.mint) {
            return Err(OpError::Custom(ZionError::InvalidMint));
        }
        if !cmp_pubkeys(&swap_mint_info.key, &swap_state.swap_mint) {
            return Err(OpError::Custom(ZionError::InvalidMint));
        }
        if !cmp_pubkeys(&token_a_oracle_info.key, &swap_state.token_a.oracle) {
            return Err(OpError::Custom(ZionError::InvalidOracle));
        }
        if !cmp_pubkeys(&token_b_oracle_info.key, &swap_state.token_b.oracle) {
            return Err(OpError::Custom(ZionError::InvalidOracle));
        }
        if !cmp_pubkeys(&token_a_vault_info.key, &swap_state.token_a.vault) {
            return Err(OpError::Custom(ZionError::InvalidVault));
        }
        if !cmp_pubkeys(&token_b_vault_info.key, &swap_state.token_b.vault) {
            return Err(OpError::Custom(ZionError::InvalidVault));
        }
        let token_a_price = match Processor::read_price(token_a_oracle_info) {
            Ok(p) => p,
            Err(e) => {
                return Err(e);
            },
        };
        let token_b_price = match Processor::read_price(token_b_oracle_info) {
            Ok(p) => p,
            Err(e) => {
                return Err(e);
            },
        };
        let token_a_swap_tokens = match Processor::admin_side_tokens(
            &swap_state.token_a,
            token_a_deposit,
            token_a_price,
        ) {
            Some(v) => v,
            None => {
                return Err(OpError::Fatal);
            },
        };
        let token_b_swap_tokens = match Processor::admin_side_tokens(
            &swap_state.token_b,
            token_b_deposit,
            token_b_price,
        ) {
            Some(v) => v,
            None => {
                return Err(OpError::Fatal);
            },
        };
        match token_a_swap_tokens.checked_add(token_b_swap_tokens) {
            Some(mint_amount) => Ok(
                DepositPlan {
                    transfer_a: token_a_deposit,
                    transfer_b: token_b_deposit,
                    mint_amount,
                },
            ),
            None => Err(OpError::Fatal),
        }
    }

    /// The validation and decoding every user operation shares.
    fn user_op_context(accounts: &Vec<AccountView>) -> (r: Result<
        (SwapState, u64, u64, u64, u64, u64),
        OpError,
    >)
        ensures
            match r {
                Ok(context) => spec_user_op_context(accounts@) == Ok::<
                    (SwapStateView, u64, u64, u64, u64, u64),
                    OpError,
                >(
                    (
                        context.0@,
                        context.1,
                        context.2,
                        context.3,
                        context.4,
                        context.5,
                    ),
                ),
                Err(e) => spec_user_op_context(accounts@) == Err::<
                    (SwapStateView, u64, u64, u64, u64, u64),
                    OpError,
                >(e),
            },
    {
        if accounts.len() < 14 {
            return Err(OpError::NotEnoughAccountKeys);
        }
        let user = &accounts[0];
        let swap_state_info = &accounts[1];
        let swap_authority_info = &accounts[2];
        let swap_mint_info = &accounts[3];
        let token_a_vault_info = &accounts[6];
        let token_a_fee_vault_info = &accounts[7];
        let token_a_oracle_info = &accounts[8];
        let token_b_vault_info = &accounts[10];
        let token_b_fee_vault_info = &accounts[11];
        let token_b_oracle_info = &accounts[12];
        let token_program_info = &accounts[13];
        let ledger = Pubkey::new_from_array(TOKEN_PROGRAM_ID);
        if !cmp_pubkeys(&token_program_info.key, &ledger) {
            return Err(OpError::Custom(ZionError::InvalidTokenProgramKey));
        }
        if !user.is_signer {
            return Err(OpError::Custom(ZionError::InvalidSigner));
        }
        match SwapState::validate_swap_state_key(&swap_state_info.key) {
            Err(e) => {
                return Err(e);
            },
            Ok(_) => {},
        }
        let swap_state = match SwapState::unpack_from_slice(swap_state_info.data.as_slice()) {
            Ok(s) => s,
            Err(e) => {
                return Err(e);
            },
        };
        let token_a_mint = swap_state.token_a.mint;
        let token_b_mint = swap_state.token_b.mint;
        match swap_state.validate_accounts(
            &swap_authority_info.key,
            &swap_mint_info.key,
            &token_a_mint,
            &token_a_vault_info.key,
            &token_a_fee_vault_info.key,
            &token_a_oracle_info.key,
            &token_b_mint,
            &token_b_vault_info.key,
            &token_b_fee_vault_info.key,
            &token_b_oracle_info.key,
        ) {
            Err(e) => {
                return Err(e);
            },
            Ok(_) => {},
        }
        let token_a_vault = match Processor::unpack_token_account(token_a_vault_info) {
            Ok(v) => v,
            Err(e) => {
                return Err(e);
            },
        };
        let token_a_fee_vault = match Processor::unpack_token_account(token_a_fee_vault_info) {
            Ok(v) => v,
            Err(e) => {
                return Err(e);
            },
        };
        let token_b_vault = match Processor::unpack_token_account(token_b_vault_info) {
            Ok(v) => v,
            Err(e) => {
                return Err(e);
            },
        };
        let token_b_fee_vault = match Processor::unpack_token_account(token_b_fee_vault_info) {
            Ok(v) => v,
            Err(e) => {
                return Err(e);
            },
        };
        let swap_mint = match Processor::unpack_mint(swap_mint_info) {
            Ok(v) => v,
            Err(e) => {
                return Err(e);
            },
        };
        Ok(
            (
                swap_state,
                token_a_vault.amount,
                token_a_fee_vault.amount,
                token_b_vault.amount,
                token_b_fee_vault.amount,
                swap_mint.supply,
            ),
        )
    }

    /// Prices one side of a Deposit or Withdraw under the
    /// protocol-relative rule; an arithmetic-contract violation is
    /// unrecoverable.
    fn side_tokens(
        state: &SwapState,
        deposit: u64,
        this_amount: u64,
        this_price: u64,
        this_fee: u64,
        other_amount: u64,
        other_price: u64,
        other_fee: u64,
        supply: u64,
    ) -> (r: Result<u64, OpError>)
        ensures
            match (r, spec_side_tokens(
                deposit,
                this_amount,
                this_price,
                this_fee,
                other_amount,
                other_price,
                other_fee,
                supply,
            )) {
                (Ok(v), Some(m)) => v == m,
                (Err(e), None) => e == OpError::Fatal,
                _ => false,
            },
    {
        if deposit > 0 {
            match state.calculate_swap_tokens(
                deposit,
                this_amount,
                this_price,
                this_fee,
                other_amount,
                other_price,
                other_fee,
                supply,
            ) {
                Some(v) => Ok(v),
                None => Err(OpError::Fatal),
            }
        } else {
            Ok(0)
        }
    }

    /// Processes a Deposit: validates every identity against the record
    /// and prices both sides under the protocol-relative rule.
    pub fn process_deposit(
        accounts: &Vec<AccountView>,
        token_a_deposit: u64,
        token_b_deposit: u64,
    ) -> (r: Result<DepositPlan, OpError>)
        ensures
            r == spec_process_deposit(accounts@, token_a_deposit, token_b_deposit),
    {
        let context = match Processor::user_op_context(accounts) {
            Ok(c) => c,
            Err(e) => {
                return Err(e);
            },
        };
        let (swap_state, a_amount, a_fee, b_amount, b_fee, supply) = context;
        let price_a = match Processor::read_price(&accounts[8]) {
            Ok(p) => p,
            Err(e) => {
                return Err(e);
            },
        };
        let price_b = match Processor::read_price(&accounts[12]) {
            Ok(p) => p,
            Err(e) => {
                return Err(e);
            },
        };
        let token_a_swap_tokens = match Processor::side_tokens(
            &swap_state,
            token_a_deposit,
            a_amount,
            price_a,
            a_fee,
            b_amount,
            price_b,
            b_fee,
            supply,
        ) {
            Ok(v) => v,
            Err(e) => {
                return Err(e);
            },
        };
        let token_b_swap_tokens = match Processor::side_tokens(
            &swap_state,
            token_b_deposit,
            b_amount,
            price_b,
            b_fee,
            a_amount,
            price_a,
            a_fee,
            supply,
        ) {
            Ok(v) => v,
            Err(e) => {
                return Err(e);
            },
        };
        match token_a_swap_tokens.checked_add(token_b_swap_tokens) {
            Some(mint_amount) => Ok(
                DepositPlan {
                    transfer_a: token_a_deposit,
                    transfer_b: token_b_deposit,
                    mint_amount,
                },
            ),
            None => Err(OpError::Fatal),
        }
    }

    /// Processes a Withdraw: validates every identity against the
    /// record, prices the requested amounts under the protocol-relative
    /// rule, and pays out only while the cost stays strictly below the
    /// caller's liquidity balance.
    pub fn process_withdraw(
        accounts: &Vec<AccountView>,
        token_a_withdraw: u64,
        token_b_withdraw: u64,
    ) -> (r: Result<WithdrawPlan, OpError>)
        ensures
            r == spec_process_withdraw(accounts@, token_a_withdraw, token_b_withdraw),
    {
        let context = match Processor::user_op_context(accounts) {
            Ok(c) => c,
            Err(e) => {
                return Err(e);
            },
        };
        let (swap_state, a_amount, a_fee, b_amount, b_fee, supply) = context;
        let swap_token_user = match Processor::unpack_token_account(&accounts[4]) {
            Ok(v) => v,
            Err(e) => {
                return Err(e);
            },
        };
        let price_a = match Processor::read_price(&accounts[8]) {
            Ok(p) => p,
            Err(e) => {
                return Err(e);
            },
        };
        let price_b = match Processor::read_price(&accounts[12]) {
            Ok(p) => p,
            Err(e) => {
                return Err(e);
            },
        };
        let token_a_swap_tokens = match Processor::side_tokens(
            &swap_state,
            token_a_withdraw,
            a_amount,
            price_a,
            a_fee,
            b_amount,
            price_b,
            b_fee,
            supply,
        ) {
            Ok(v) => v,
            Err(e) => {
                return Err(e);
            },
        };
        let token_b_swap_tokens = match Processor::side_tokens(
            &swap_state,
            token_b_withdraw,
            b_amount,
            price_b,
            b_fee,
            a_amount,
            price_a,
            a_fee,
            supply,
        ) {
            Ok(v) => v,
            Err(e) => {
                return Err(e);
            },
        };
        let burn_amount = match token_a_swap_tokens.checked_add(token_b_swap_tokens) {
            Some(total) => total,
            None => {
                return Err(OpError::Fatal);
            },
        };
        if burn_amount < swap_token_user.amount {
            Ok(
                WithdrawPlan {
                    transfer_a: token_a_withdraw,
                    transfer_b: token_b_withdraw,
                    burn_amount,
                },
            )
        } else {
            Err(OpError::Custom(ZionError::InsufficientSwapTokens))
        }
    }

    /// Processes a Swap: validates the pairing of the supplied vaults
    /// with the record and computes the payout under the swap rule.
    pub fn process_swap(accounts: &Vec<AccountView>, amount: u64) -> (r: Result<SwapPlan, OpError>)
        ensures
            r == spec_process_swap(accounts@, amount),
    {
        if accounts.len() < 12 {
            return Err(OpError::NotEnoughAccountKeys);
        }
        let user = &accounts[0];
        let swap_state_info = &accounts[1];
        let swap_authority_info = &accounts[2];
        let source_vault_info = &accounts[4];
        let source_fee_vault_info = &accounts[5];
        let source_oracle_info = &accounts[6];
        let destination_vault_info = &accounts[8];
        let destination_fee_vault_info = &accounts[9];
        let destination_oracle_info = &accounts[10];
        let token_program_info = &accounts[11];
        let ledger = Pubkey::new_from_array(TOKEN_PROGRAM_ID);
        if !cmp_pubkeys(&token_program_info.key, &ledger) {
            return Err(OpError::Custom(ZionError::InvalidTokenProgramKey));
        }
        if !user.is_signer {
            return Err(OpError::Custom(ZionError::InvalidSigner));
        }
        match SwapState::validate_swap_state_key(&swap_state_info.key) {
            Err(e) => {
                return Err(e);
            },
            Ok(_) => {},
        }
        let swap_state = match SwapState::unpack_from_slice(swap_state_info.data.as_slice()) {
            Ok(s) => s,
            Err(e) => {
                return Err(e);
            },
        };
        match swap_state.validate_swap_state_authority(&swap_authority_info.key) {
            Err(e) => {
                return Err(e);
            },
            Ok(_) => {},
        }
        let source_vault_data = match Processor::unpack_token_account(source_vault_info) {
            Ok(v) => v,
            Err(e) => {
                return Err(e);
            },
        };
        let destination_vault_data = match Processor::unpack_token_account(destination_vault_info) {
            Ok(v) => v,
            Err(e) => {
                return Err(e);
            },
        };
        if destination_vault_data.amount == 0 {
            return Err(OpError::Custom(ZionError::InvalidSupply));
        }
        let source_price_raw = match read_oracle_price(&source_oracle_info.data) {
            Some(p) => p,
            None => {
                return Err(OpError::Fatal);
            },
        };
        let destination_price_raw = match read_oracle_price(&destination_oracle_info.data) {
            Some(p) => p,
            None => {
                return Err(OpError::Fatal);
            },
        };
        if cmp_pubkeys(&destination_oracle_info.key, &source_oracle_info.key) {
            return Err(OpError::Custom(ZionError::InvalidOracle));
        }
        let source_is_token_a = cmp_pubkeys(&source_vault_info.key, &swap_state.token_a.vault);
        if source_is_token_a {
            if !cmp_pubkeys(&destination_vault_info.key, &swap_state.token_b.vault) {
                return Err(OpError::Custom(ZionError::InvalidVault));
            }
            if !cmp_pubkeys(&source_fee_vault_info.key, &swap_state.token_a.fee_vault) {
                return Err(OpError::Custom(ZionError::InvalidVault));
            }
            if !cmp_pubkeys(&destination_fee_vault_info.key, &swap_state.token_b.fee_vault) {
                return Err(OpError::Custom(ZionError::InvalidVault));
            }
        } else {
            if !cmp_pubkeys(&destination_vault_info.key, &swap_state.token_a.vault) {
                return Err(OpError::Custom(ZionError::InvalidVault));
            }
            if !cmp_pubkeys(&source_vault_info.key, &swap_state.token_b.vault) {
                return Err(OpError::Custom(ZionError::InvalidVault));
            }
            if !cmp_pubkeys(&destination_fee_vault_info.key, &swap_state.token_a.fee_vault) {
                return Err(OpError::Custom(ZionError::InvalidVault));
            }
            if !cmp_pubkeys(&source_fee_vault_info.key, &swap_state.token_b.fee_vault) {
                return Err(OpError::Custom(ZionError::InvalidVault));
            }
        }
        if source_price_raw < 0 {
            return Err(OpError::Fatal);
        }
        if destination_price_raw < 0 {
            return Err(OpError::Fatal);
        }
        let (source_token, destination_token) = if source_is_token_a {
            (swap_state.token_a, swap_state.token_b)
        } else {
            (swap_state.token_b, swap_state.token_a)
        };
        let destination_amount = match SwapState::calculate_tokens_to_swap(
            source_token,
            source_vault_data.amount,
            source_price_raw as u64,
            destination_token,
            destination_price_raw as u64,
            destination_vault_data.amount,
            amount,
        ) {
            Some(v) => v,
            None => {
                return Err(OpError::Fatal);
            },
        };
        Ok(SwapPlan { transfer_in: amount, transfer_out: destination_amount })
    }

    /// Processes an Initialize: validates both program identities, the
    /// fresh derivations, the empty record, the zero-supply liquidity
    /// mint and both asset sides, and rebuilds the record to persist
    /// from the supplied accounts.
    pub fn process_initialize(swap_state: SwapState, accounts: &Vec<AccountView>) -> (r: Result<
        InitializePlan,
        OpError,
    >)
        ensures
            match r {
                Ok(plan) => spec_process_initialize(swap_state@, accounts@) == Ok::<
                    SwapStateView,
                    OpError,
                >(plan.record@),
                Err(e) => spec_process_initialize(swap_state@, accounts@) == Err::<
                    SwapStateView,
                    OpError,
                >(e),
            },
    {
        if accounts.len() < 15 {
            return Err(OpError::NotEnoughAccountKeys);
        }
        let admin_info = &accounts[0];
        let swap_authority_info = &accounts[1];
        let swap_mint_info = &accounts[2];
        let swap_state_info = &accounts[3];
        let token_a_mint_info = &accounts[4];
        let token_a_vault_info = &accounts[5];
        let token_a_fee_vault_info = &accounts[6];
        let token_a_oracle_info = &accounts[7];
        let token_b_mint_info = &accounts[8];
        let token_b_vault_info = &accounts[9];
        let token_b_fee_vault_info = &accounts[10];
        let token_b_oracle_info = &accounts[11];
        let token_program_info = &accounts[12];
        let system_program_info = &accounts[14];
        let ledger = Pubkey::new_from_array(TOKEN_PROGRAM_ID);
        if !cmp_pubkeys(&token_program_info.key, &ledger) {
            return Err(OpError::Custom(ZionError::InvalidTokenProgramKey));
        }
        let system = Pubkey::new_from_array(SYSTEM_PROGRAM_ID);
        if !cmp_pubkeys(&system_program_info.key, &system) {
            return Err(OpError::Custom(ZionError::InvalidSystemProgramKey));
        }
        if !admin_info.is_signer {
            return Err(OpError::Custom(ZionError::InvalidSigner));
        }
        match SwapState::validate_swap_state_key(&swap_state_info.key) {
            Err(e) => {
                return Err(e);
            },
            Ok(_) => {},
        }
        match Processor::assert_uninitialized(swap_state_info) {
            Err(e) => {
                return Err(e);
            },
            Ok(_) => {},
        }
        match Processor::validate_swap_authority_key(
            &swap_authority_info.key,
            swap_state.swap_authority_bump,
        ) {
            Err(e) => {
                return Err(e);
            },
            Ok(_) => {},
        }
        let swap_mint = match Processor::unpack_mint(swap_mint_info) {
            Ok(m) => m,
            Err(e) => {
                return Err(e);
            },
        };
        let authority_matches = match &swap_mint.mint_authority {
            Some(k) => cmp_pubkeys(k, &swap_state.swap_authority),
            None => false,
        };
        if !authority_matches {
            return Err(OpError::Custom(ZionError::InvalidAuthority));
        }
        if swap_mint.supply != 0 {
            return Err(OpError::Custom(ZionError::InvalidSupply));
        }
        match Processor::initialize_token_side(
            &swap_state.swap_authority,
            token_a_mint_info,
            token_a_vault_info,
            token_a_fee_vault_info,
        ) {
            Err(e) => {
                return Err(e);
            },
            Ok(_) => {},
        }
        match Processor::initialize_token_side(
            &swap_state.swap_authority,
            token_b_mint_info,
            token_b_vault_info,
            token_b_fee_vault_info,
        ) {
            Err(e) => {
                return Err(e);
            },
            Ok(_) => {},
        }
        if cmp_pubkeys(&token_a_mint_info.key, &token_b_mint_info.key) {
            return Err(OpError::Custom(ZionError::IdenticalMints));
        }
        let record = SwapState {
            admin: admin_info.key,
            bump: swap_state.bump,
            is_initialized: true,
            swap_authority: swap_state.swap_authority,
            swap_authority_bump: swap_state.swap_authority_bump,
            swap_mint: swap_mint_info.key,
            token_a: Token {
                mint: token_a_mint_info.key,
                vault: token_a_vault_info.key,
                fee_vault: token_a_fee_vault_info.key,
                oracle: token_a_oracle_info.key,
            },
            token_b: Token {
                mint: token_b_mint_info.key,
                vault: token_b_vault_info.key,
                fee_vault: token_b_fee_vault_info.key,
                oracle: token_b_oracle_info.key,
            },
            program_fee: swap_state.program_fee,
            swap_fee: swap_state.swap_fee,
        };
        Ok(InitializePlan { record })
    }

    /// Validates one asset side of an Initialize: the mint's authority
    /// and both custody owners must be the expected authority.
    fn initialize_token_side(
        expected_authority: &Pubkey,
        mint_info: &AccountView,
        vault_info: &AccountView,
        fee_vault_info: &AccountView,
    ) -> (r: Result<(), OpError>)
        ensures
            r == spec_initialize_token_side(
                expected_authority@,
                *mint_info,
                *vault_info,
                *fee_vault_info,
            ),
    {
        let mint = match Processor::unpack_mint(mint_info) {
            Ok(m) => m,
            Err(e) => {
                return Err(e);
            },
        };
        let mint_authority = match mint.mint_authority {
            Some(k) => k,
            None => {
                return Err(OpError::Custom(ZionError::InvalidAuthority));
            },
        };
        let vault = match Processor::unpack_token_account(vault_info) {
            Ok(v) => v,
            Err(e) => {
                return Err(e);
            },
        };
        let fee_vault = match Processor::unpack_token_account(fee_vault_info) {
            Ok(v) => v,
            Err(e) => {
                return Err(e);
            },
        };
        let owners = vec![vault.owner, fee_vault.owner];
        let r = Processor::validate_mint_and_token_accounts(
            owners.as_slice(),
            &mint_authority,
            expected_authority,
        );
        proof {
            assert(owners@[0] == vault.owner && owners@[1] == fee_vault.owner);
            if vault.owner@ == expected_authority@ && fee_vault.owner@ == expected_authority@ {
                assert(forall|i: int|
                    0 <= i < owners@.len() ==> (#[trigger] owners@[i])@ == expected_authority@)
                    by {
                    assert(owners@.len() == 2);
                };
            } else {
                if vault.owner@ != expected_authority@ {
                    assert((owners@[0])@ != expected_authority@);
                } else {
                    assert((owners@[1])@ != expected_authority@);
                }
            }
        }
        r
    }

    /// Processes one decoded instruction: dispatches to the operation's
    /// processor and returns its plan or first failure.
    pub fn process(program_id: &Pubkey, accounts: &Vec<AccountView>, input: &[u8]) -> (r: Result<
        Plan,
        OpError,
    >)
        ensures
            match r {
                Ok(plan) => spec_process(accounts@, input@) == Ok::<PlanView, OpError>(plan@),
                Err(e) => spec_process(accounts@, input@) == Err::<PlanView, OpError>(e),
            },
    {
        let instruction = match crate::instructions::ZionInstruction::unpack(input) {
            Ok(i) => i,
            Err(e) => {
                return Err(e);
            },
        };
        match instruction {
            crate::instructions::ZionInstruction::Initialize(init) => {
                match Processor::process_initialize(init.swap_state, accounts) {
                    Ok(plan) => Ok(Plan::Initialize(plan)),
                    Err(e) => Err(e),
                }
            },
            crate::instructions::ZionInstruction::AdminDeposit(args) => {
                match Processor::process_admin_deposit(
                    accounts,
                    args.token_a_deposit,
                    args.token_b_deposit,
                ) {
                    Ok(plan) => Ok(Plan::AdminDeposit(plan)),
                    Err(e) => Err(e),
                }
            },
            crate::instructions::ZionInstruction::Deposit(args) => {
                match Processor::process_deposit(
                    accounts,
                    args.token_a_deposit,
                    args.token_b_deposit,
                ) {
                    Ok(plan) => Ok(Plan::Deposit(plan)),
                    Err(e) => Err(e),
                }
            },
            crate::instructions::ZionInstruction::Withdraw(args) => {
                match Processor::process_withdraw(
                    accounts,
                    args.token_a_withdraw,
                    args.token_b_withdraw,
                ) {
                    Ok(plan) => Ok(Plan::Withdraw(plan)),
                    Err(e) => Err(e),
                }
            },
            crate::instructions::ZionInstruction::Swap(args) => {
                match Processor::process_swap(accounts, args.amount) {
                    Ok(plan) => Ok(Plan::Swap(plan)),
                    Err(e) => Err(e),
                }
            },
            crate::instructions::ZionInstruction::ClosePool() => {
                match Processor::process_close_pool(accounts) {
                    Ok(plan) => Ok(Plan::ClosePool(plan)),
                    Err(e) => Err(e),
                }
            },
        }
    }

    /// Prices one side of an AdminDeposit at raw oracle market value; a
    /// value past 64 bits is an arithmetic-contract violation.
    fn admin_side_tokens(token: &Token, deposit: u64, price: u64) -> (r: Option<u64>)
        ensures
            r == spec_admin_side_tokens(deposit, price),
    {
        if deposit > 0 {
            let value = token.get_market_value(deposit, price);
            proof {
                crate::pricing::lemma_market_value_exact(deposit, price);
                assert((((deposit * price) as int) * (crate::math::PRECISE_ONE as int) <= (
                u64::MAX as int) * (crate::math::PRECISE_ONE as int)) == (deposit * price
                    <= u64::MAX)) by (nonlinear_arith)
                    requires
                        crate::math::PRECISE_ONE >= 1,
                ;
            }
            let limit_pn = crate::math::pn_new(u64::MAX as u128);
            if !crate::math::pn_lte(&value, &limit_pn) {
                return None;
            }
            proof {
                crate::pricing::lemma_result_in_range(crate::math::pn_value(value));
                crate::pricing::lemma_unit_div_exact(
                    (deposit * price) as nat,
                    crate::math::ROUNDING_CORRECTION as nat,
                );
            }
            let imprecise = crate::math::pn_to_imprecise(&value);
            Some(imprecise as u64)
        } else {
            Some(0)
        }
    }
}

} // verus!
