use bank_of_zion::error::{OpError, ZionError};
use bank_of_zion::instructions::{AdminDeposit, Deposit, Swap, Withdraw, ZionInstruction};
use bank_of_zion::keys::{Pubkey, AUTHORITY_PREFIX, POOL_PREFIX, PROGRAM_ID, TOKEN_PROGRAM_ID};
use bank_of_zion::processor::{AccountView, Processor};
use bank_of_zion::state::{SwapState, Token};
use solana_program::program_option::COption;
use solana_program::program_pack::Pack;
use std::str::FromStr;

fn key(n: u8) -> Pubkey {
    Pubkey { bytes: [n; 32] }
}

fn sol_key(k: &Pubkey) -> solana_program::pubkey::Pubkey {
    solana_program::pubkey::Pubkey::new_from_array(k.bytes)
}

fn program_key() -> solana_program::pubkey::Pubkey {
    solana_program::pubkey::Pubkey::new_from_array(PROGRAM_ID)
}

fn pool_address() -> (Pubkey, u8) {
    let (k, bump) =
        solana_program::pubkey::Pubkey::find_program_address(&[b"swap_state"], &program_key());
    (Pubkey { bytes: k.to_bytes() }, bump)
}

fn authority_address() -> (Pubkey, u8) {
    let (k, bump) =
        solana_program::pubkey::Pubkey::find_program_address(&[b"swap_authority"], &program_key());
    (Pubkey { bytes: k.to_bytes() }, bump)
}

fn token_account_data(owner: &Pubkey, amount: u64) -> Vec<u8> {
    let account = spl_token::state::Account {
        mint: sol_key(&key(200)),
        owner: sol_key(owner),
        amount,
        delegate: COption::None,
        state: spl_token::state::AccountState::Initialized,
        is_native: COption::None,
        delegated_amount: 0,
        close_authority: COption::None,
    };
    let mut buf = vec![0u8; 165];
    spl_token::state::Account::pack(account, &mut buf).unwrap();
    buf
}

fn mint_data(mint_authority: Option<&Pubkey>, supply: u64) -> Vec<u8> {
    let mint = spl_token::state::Mint {
        mint_authority: match mint_authority {
            Some(k) => COption::Some(sol_key(k)),
            None => COption::None,
        },
        supply,
        decimals: 0,
        is_initialized: true,
        freeze_authority: COption::None,
    };
    let mut buf = vec![0u8; 82];
    spl_token::state::Mint::pack(mint, &mut buf).unwrap();
    buf
}

fn oracle_data(price: i64) -> Vec<u8> {
    let mut account = pyth_sdk_solana::state::PriceAccount::default();
    account.magic = pyth_sdk_solana::state::MAGIC;
    account.ver = pyth_sdk_solana::state::VERSION_2;
    account.atype = pyth_sdk_solana::state::AccountType::Price as u32;
    account.agg.status = pyth_sdk_solana::state::PriceStatus::Trading;
    account.agg.price = price;
    account.prev_price = price + 7;
    bytemuck::bytes_of(&account).to_vec()
}

fn account(k: Pubkey, owner: [u8; 32], signer: bool, lamports: u64, data: Vec<u8>) -> AccountView {
    AccountView { key: k, owner: Pubkey { bytes: owner }, is_signer: signer, lamports, data }
}

fn sample_token(base: u8) -> Token {
    Token {
        mint: key(base),
        vault: key(base + 1),
        fee_vault: key(base + 2),
        oracle: key(base + 3),
    }
}

fn sample_state() -> SwapState {
    let (authority, authority_bump) = authority_address();
    let (_, pool_bump) = pool_address();
    SwapState {
        admin: key(9),
        bump: pool_bump,
        is_initialized: true,
        swap_authority: authority,
        swap_authority_bump: authority_bump,
        swap_mint: key(10),
        token_a: sample_token(20),
        token_b: sample_token(30),
        program_fee: 100,
        swap_fee: 100,
    }
}

fn pack_state(state: &SwapState) -> Vec<u8> {
    let mut buf = Vec::new();
    state.pack_into_slice(&mut buf);
    buf
}

// ---- fixed identities ----

#[test]
fn known_program_identities_match_their_sources() {
    assert_eq!(spl_token::id().to_bytes(), TOKEN_PROGRAM_ID);
    assert_eq!(solana_program::system_program::id().to_bytes(), [0u8; 32]);
    let parsed =
        solana_program::pubkey::Pubkey::from_str("DYPr7THq2b8chVndfn6TKuEUxJdKYhfRNtzkM2Lzzm8s")
            .unwrap();
    assert_eq!(parsed.to_bytes(), PROGRAM_ID);
    assert_eq!(&POOL_PREFIX, b"swap_state");
    assert_eq!(&AUTHORITY_PREFIX, b"swap_authority");
}

#[test]
fn error_codes_follow_variant_order() {
    assert_eq!(ZionError::InvalidInstruction.code(), 0);
    assert_eq!(ZionError::PoolAlreadyInitialized.code(), 4);
    assert_eq!(ZionError::InsufficientSwapTokens.code(), 28);
}

// ---- pricing ----

/// assume both tokens have the same price
#[test]
fn test_calc_swap_token() {
    let token_a = Token {
        mint: key(101),
        vault: key(102),
        fee_vault: key(103),
        oracle: key(104),
    };
    let token_a_price = 1;

    let token_b = Token {
        mint: key(105),
        vault: key(106),
        fee_vault: key(107),
        oracle: key(108),
    };
    let token_b_price = 1;

    let swap_state = SwapState {
        admin: key(109),
        bump: 0,
        is_initialized: true,
        swap_authority: key(110),
        swap_authority_bump: 0,
        swap_mint: key(111),
        token_a,
        token_b,
        program_fee: 100,
        swap_fee: 100,
    };

    let user_a_deposit_token_a = 10000000;
    let user_b_deposit_token_b = 10000000;
    let user_c_deposit_token_a = 10000000;

    let mut vault_a_supply: u64 = 100000000;
    let mut vault_b_supply: u64 = 100000000;
    let mut fee_vault_a: u64 = 0;
    let fee_vault_b: u64 = 0;
    let mut swap_supply: u64 = 200000000;

    let user_a_swap_tokens = swap_state
        .calculate_swap_tokens(
            user_a_deposit_token_a,
            vault_a_supply,
            token_a_price,
            fee_vault_a,
            vault_b_supply,
            token_b_price,
            fee_vault_b,
            swap_supply,
        )
        .unwrap();

    //provides 10% of total protocol value, receives 10% of swap tokens
    assert!(user_a_swap_tokens == 10000000);
    swap_supply += user_a_swap_tokens;

    vault_a_supply += user_a_deposit_token_a;

    let user_b_swap_tokens = swap_state
        .calculate_swap_tokens(
            user_b_deposit_token_b,
            vault_b_supply,
            token_b_price,
            fee_vault_b,
            vault_a_supply,
            token_b_price,
            fee_vault_a,
            swap_supply,
        )
        .unwrap();

    //token b is now in demand thus value of token b has increased
    //user b receives more swap tokens than user a due to this
    assert!(user_b_swap_tokens == 11000000);

    swap_supply += user_b_swap_tokens;
    vault_b_supply += user_b_deposit_token_b;

    //a bunch of swaps are done and there are now tokens in the fee vault
    fee_vault_a += 100000000;

    let user_c_swap_tokens = swap_state
        .calculate_swap_tokens(
            user_c_deposit_token_a,
            vault_a_supply,
            token_a_price,
            fee_vault_a,
            vault_b_supply,
            token_b_price,
            fee_vault_b,
            swap_supply,
        )
        .unwrap();

    //user c's deposit now accounts for a smaller share of the protocol value
    assert!(user_c_swap_tokens == 6906250);
    let _ = swap_supply;
}

/// assume both tokens have the same price
#[test]
fn test_calc_tokens_to_swap() {
    let token_a = Token {
        mint: key(101),
        vault: key(102),
        fee_vault: key(103),
        oracle: key(104),
    };
    let token_a_price = 1;

    let token_b = Token {
        mint: key(105),
        vault: key(106),
        fee_vault: key(107),
        oracle: key(108),
    };
    let token_b_price = 1;

    let swap_state = SwapState {
        admin: key(109),
        bump: 0,
        is_initialized: true,
        swap_authority: key(110),
        swap_authority_bump: 0,
        swap_mint: key(111),
        token_a,
        token_b,
        program_fee: 100,
        swap_fee: 100,
    };

    let source_tokens: u64 = 1000000;
    let destination_tokens = SwapState::calculate_tokens_to_swap(
        swap_state.token_a,
        10000000,
        token_a_price,
        swap_state.token_b,
        token_b_price,
        10000000,
        source_tokens,
    )
    .unwrap();
    assert!(destination_tokens == 1000000);

    let destination_tokens = SwapState::calculate_tokens_to_swap(
        swap_state.token_a,
        10000000,
        token_a_price,
        swap_state.token_b,
        token_b_price, //this should cause the source token to be half the price, due to -50% premium
        5000000,
        1000000,
    )
    .unwrap();

    //local market price for source token is -50% so you should get 50% back in destination tokens
    assert!(destination_tokens == source_tokens / 2);
}

#[test]
fn smallest_deposits_floor_their_share() {
    let state = sample_state();
    // one unit deposited against one unit on each side of a two-unit
    // supply buys exactly half of it: one token, with nothing to floor
    let minted = state.calculate_swap_tokens(1, 1, 1, 0, 1, 1, 0, 2).unwrap();
    assert_eq!(minted, 1);
    // against a one-unit supply the same share is half a token, and the
    // result floors to zero rather than rounding up
    let minted = state.calculate_swap_tokens(1, 1, 1, 0, 1, 1, 0, 1).unwrap();
    assert_eq!(minted, 0);
    // and against empty vaults the premium floor keeps the result finite
    let minted = state.calculate_swap_tokens(1, 0, 1, 0, 0, 1, 0, 1).unwrap();
    assert_eq!(minted, 1);
}

#[test]
fn premium_utilities_follow_the_fixed_point_rule() {
    let state = sample_state();
    // equal values give a premium of exactly one
    let value_a = state.token_a.get_market_value(10, 3);
    let value_b = state.token_b.get_market_value(10, 3);
    let premium = SwapState::get_price_premium(value_a, value_b).unwrap();
    assert_eq!(premium.to_imprecise().unwrap(), 1);
    // an empty side is floored to one unit before dividing
    let empty = state.token_a.get_market_value(0, 1);
    let five = state.token_b.get_market_value(5, 1);
    let premium = SwapState::get_price_premium(empty, five).unwrap();
    assert_eq!(premium.to_imprecise().unwrap(), 5);
    // the protocol price scales the oracle price by the premium
    let effective = Token::get_protocol_price(4, premium).unwrap();
    assert_eq!(effective.to_imprecise().unwrap(), 20);
}

#[test]
fn small_premiums_are_not_quantized_away() {
    let state = sample_state();
    // a third of the input survives the one-third premium exactly
    let payout = SwapState::calculate_tokens_to_swap(
        state.token_a,
        3,
        1,
        state.token_b,
        1,
        1,
        3,
    )
    .unwrap();
    assert_eq!(payout, 1);
}

#[test]
fn swap_payout_scales_with_price() {
    let state = sample_state();
    // equal values: price doubled on the source side doubles the payout
    let payout = SwapState::calculate_tokens_to_swap(
        state.token_a,
        10_000_000,
        2,
        state.token_b,
        1,
        20_000_000,
        1_000_000,
    )
    .unwrap();
    assert_eq!(payout, 2_000_000);
    // a zero destination price is an arithmetic violation
    assert_eq!(
        SwapState::calculate_tokens_to_swap(state.token_a, 10, 1, state.token_b, 0, 10, 1),
        None
    );
}

#[test]
fn oversized_results_are_arithmetic_violations() {
    let state = sample_state();
    // an empty opposite side and a huge supply push the result past
    // sixty-four bits: the pricing refuses rather than wraps
    assert_eq!(
        state.calculate_swap_tokens(1 << 32, 1, 1, 0, 0, 1, 0, 1 << 32),
        None
    );
    // one unit less still fits and is exact
    let minted = state
        .calculate_swap_tokens((1 << 32) - 1, 1, 1, 0, 0, 1, 0, 1 << 32)
        .unwrap();
    assert_eq!(minted, u64::MAX - ((1 << 32) - 1));
}

// ---- record codec ----

#[test]
fn state_round_trips_bit_for_bit() {
    let state = sample_state();
    let buf = pack_state(&state);
    assert_eq!(buf.len(), 371);
    let back = SwapState::unpack_from_slice(&buf).unwrap();
    assert_eq!(back, state);
}

#[test]
fn state_decode_rejects_short_and_malformed() {
    let state = sample_state();
    let mut buf = pack_state(&state);
    assert_eq!(
        SwapState::unpack_from_slice(&buf[..370]),
        Err(OpError::InvalidAccountData)
    );
    buf[33] = 2;
    assert_eq!(
        SwapState::unpack_from_slice(&buf),
        Err(OpError::InvalidAccountData)
    );
    buf[33] = 0;
    let back = SwapState::unpack_from_slice(&buf).unwrap();
    assert!(!back.is_initialized);
}

#[test]
fn token_slot_round_trips() {
    let token = sample_token(50);
    let mut buf = Vec::new();
    token.pack_into_vec(&mut buf);
    assert_eq!(buf.len(), 128);
    let back = Token::unpack_from_slice(&buf).unwrap();
    assert_eq!(back, token);
    assert_eq!(
        Token::unpack_from_slice(&buf[..100]),
        Err(OpError::InvalidAccountData)
    );
}

// ---- instruction codec ----

#[test]
fn instructions_round_trip() {
    let cases = vec![
        ZionInstruction::AdminDeposit(AdminDeposit { token_a_deposit: 7, token_b_deposit: 9 }),
        ZionInstruction::Deposit(Deposit { token_a_deposit: 1, token_b_deposit: u64::MAX }),
        ZionInstruction::Withdraw(Withdraw { token_a_withdraw: 0, token_b_withdraw: 3 }),
        ZionInstruction::Swap(Swap { amount: 123456789 }),
        ZionInstruction::ClosePool(),
    ];
    for case in cases {
        let bytes = case.pack();
        let back = ZionInstruction::unpack(&bytes).unwrap();
        match (&case, &back) {
            (ZionInstruction::AdminDeposit(a), ZionInstruction::AdminDeposit(b)) => {
                assert_eq!(a, b)
            }
            (ZionInstruction::Deposit(a), ZionInstruction::Deposit(b)) => assert_eq!(a, b),
            (ZionInstruction::Withdraw(a), ZionInstruction::Withdraw(b)) => assert_eq!(a, b),
            (ZionInstruction::Swap(a), ZionInstruction::Swap(b)) => assert_eq!(a, b),
            (ZionInstruction::ClosePool(), ZionInstruction::ClosePool()) => {}
            _ => panic!("instruction changed shape over the round trip"),
        }
    }
}

#[test]
fn initialize_instruction_round_trips() {
    let state = sample_state();
    let instruction =
        ZionInstruction::Initialize(bank_of_zion::instructions::Initialize { swap_state: state });
    let bytes = instruction.pack();
    assert_eq!(bytes.len(), 372);
    assert_eq!(bytes[0], 0);
    match ZionInstruction::unpack(&bytes).unwrap() {
        ZionInstruction::Initialize(init) => assert_eq!(init.swap_state, state),
        _ => panic!("initialize decoded as another instruction"),
    }
}

#[test]
fn instruction_decode_rejects_bad_input() {
    assert_eq!(
        ZionInstruction::unpack(&[5]).unwrap_err(),
        OpError::Custom(ZionError::InvalidInstruction)
    );
    assert_eq!(
        ZionInstruction::unpack(&[1, 0, 0]).unwrap_err(),
        OpError::Custom(ZionError::InvalidInstruction)
    );
    assert_eq!(
        ZionInstruction::unpack(&[4, 1, 2, 3]).unwrap_err(),
        OpError::Custom(ZionError::InvalidInstruction)
    );
    assert_eq!(
        ZionInstruction::unpack(&[0, 1, 2, 3]).unwrap_err(),
        OpError::InvalidAccountData
    );
}

// ---- validators and derived addresses ----

#[test]
fn pool_address_validation_uses_the_real_derivation() {
    let (pool_key, _) = pool_address();
    assert_eq!(SwapState::validate_swap_state_key(&pool_key), Ok(()));
    assert_eq!(
        SwapState::validate_swap_state_key(&key(1)),
        Err(OpError::Custom(ZionError::InvalidSwapState))
    );
}

#[test]
fn authority_validation_uses_the_real_derivation() {
    let (authority, bump) = authority_address();
    assert_eq!(
        Processor::validate_swap_authority_key(&authority, bump),
        Ok(())
    );
    assert_eq!(
        Processor::validate_swap_authority_key(&key(2), bump),
        Err(OpError::Custom(ZionError::InvalidSwapAuthority))
    );
}

#[test]
fn validators_check_each_field_in_order() {
    let state = sample_state();
    assert_eq!(
        state.validate_swap_state_owner(&Pubkey { bytes: PROGRAM_ID }),
        Ok(())
    );
    assert_eq!(
        state.validate_swap_state_owner(&key(1)),
        Err(OpError::Custom(ZionError::SwapStateWrongOwner))
    );
    let t = state.token_a;
    assert_eq!(
        t.validate_accounts(&t.mint, &t.vault, &t.fee_vault, &t.oracle),
        Ok(())
    );
    assert_eq!(
        t.validate_accounts(&key(1), &t.vault, &t.fee_vault, &t.oracle),
        Err(OpError::Custom(ZionError::InvalidMint))
    );
    assert_eq!(
        t.validate_accounts(&t.mint, &key(1), &t.fee_vault, &t.oracle),
        Err(OpError::Custom(ZionError::InvalidVault))
    );
    assert_eq!(
        t.validate_accounts(&t.mint, &t.vault, &key(1), &t.oracle),
        Err(OpError::Custom(ZionError::InvalidFeeVault))
    );
    assert_eq!(
        t.validate_accounts(&t.mint, &t.vault, &t.fee_vault, &key(1)),
        Err(OpError::Custom(ZionError::InvalidOracle))
    );
    assert_eq!(
        state.validate_swap_mint(&state.swap_mint),
        Ok(())
    );
    assert_eq!(
        state.validate_swap_mint(&key(1)),
        Err(OpError::Custom(ZionError::InvalidSwapMint))
    );
    let (pool_key, _) = pool_address();
    assert_eq!(
        state.validate(&pool_key, &Pubkey { bytes: PROGRAM_ID }),
        Err(OpError::Custom(ZionError::PoolAlreadyInitialized))
    );
}

// ---- oracle ----

#[test]
fn oracle_price_is_read_from_the_account_bytes() {
    let state = sample_state();
    let accounts = deposit_accounts(&state, 100_000_000, 0, 100_000_000, 0, 200_000_000, 3, 3);
    // both oracles priced 3: the protocol value triples while the premium
    // stays one, so the same deposit buys a third of the price-1 share
    let plan = Processor::process_deposit(&accounts, 10_000_000, 0).unwrap();
    assert_eq!(plan.mint_amount, 3_333_333);
}

#[test]
fn oracle_uses_previous_price_while_not_trading() {
    let state = sample_state();
    let mut accounts = swap_accounts(&state, 10_000_000, 10_000_000);
    // a non-trading aggregate of 100 with a previous trading price of 1:
    // the previous price must be the one used, keeping the sides equal
    let mut oracle = pyth_sdk_solana::state::PriceAccount::default();
    oracle.magic = pyth_sdk_solana::state::MAGIC;
    oracle.ver = pyth_sdk_solana::state::VERSION_2;
    oracle.atype = pyth_sdk_solana::state::AccountType::Price as u32;
    oracle.agg.status = pyth_sdk_solana::state::PriceStatus::Unknown;
    oracle.agg.price = 100;
    oracle.prev_price = 1;
    accounts[6].data = bytemuck::bytes_of(&oracle).to_vec();
    let plan = Processor::process_swap(&accounts, 1_000_000).unwrap();
    assert_eq!(plan.transfer_out, 1_000_000);
}

#[test]
fn oracle_rejects_malformed_and_negative() {
    let state = sample_state();
    let mut accounts = deposit_accounts(&state, 1, 0, 1, 0, 1, 1, 1);
    accounts[8].data[0] = 0; // break the magic of oracle A
    assert_eq!(
        Processor::process_deposit(&accounts, 1, 0),
        Err(OpError::Fatal)
    );
    let mut accounts = deposit_accounts(&state, 1, 0, 1, 0, 1, 1, 1);
    accounts[8].data = oracle_data(-5);
    assert_eq!(
        Processor::process_deposit(&accounts, 1, 0),
        Err(OpError::Fatal)
    );
}

// ---- processor scenarios ----

fn deposit_accounts(
    state: &SwapState,
    vault_a: u64,
    fee_a: u64,
    vault_b: u64,
    fee_b: u64,
    supply: u64,
    price_a: i64,
    price_b: i64,
) -> Vec<AccountView> {
    let (pool_key, _) = pool_address();
    let user = key(60);
    vec![
        account(user, [0; 32], true, 0, Vec::new()),
        account(pool_key, PROGRAM_ID, false, 1, pack_state(state)),
        account(state.swap_authority, PROGRAM_ID, false, 0, Vec::new()),
        account(state.swap_mint, TOKEN_PROGRAM_ID, false, 0, mint_data(Some(&state.swap_authority), supply)),
        account(key(61), TOKEN_PROGRAM_ID, false, 0, token_account_data(&user, 0)),
        account(key(62), TOKEN_PROGRAM_ID, false, 0, token_account_data(&user, 0)),
        account(state.token_a.vault, TOKEN_PROGRAM_ID, false, 0, token_account_data(&state.swap_authority, vault_a)),
        account(state.token_a.fee_vault, TOKEN_PROGRAM_ID, false, 0, token_account_data(&state.swap_authority, fee_a)),
        account(state.token_a.oracle, [0; 32], false, 0, oracle_data(price_a)),
        account(key(63), TOKEN_PROGRAM_ID, false, 0, token_account_data(&user, 0)),
        account(state.token_b.vault, TOKEN_PROGRAM_ID, false, 0, token_account_data(&state.swap_authority, vault_b)),
        account(state.token_b.fee_vault, TOKEN_PROGRAM_ID, false, 0, token_account_data(&state.swap_authority, fee_b)),
        account(state.token_b.oracle, [0; 32], false, 0, oracle_data(price_b)),
        account(Pubkey { bytes: TOKEN_PROGRAM_ID }, [0; 32], false, 0, Vec::new()),
    ]
}

fn withdraw_accounts(state: &SwapState, user_swap_balance: u64) -> Vec<AccountView> {
    let mut accounts =
        deposit_accounts(state, 100_000_000, 0, 100_000_000, 0, 200_000_000, 1, 1);
    let user = key(60);
    accounts[4] = account(
        key(61),
        TOKEN_PROGRAM_ID,
        false,
        0,
        token_account_data(&user, user_swap_balance),
    );
    accounts
}

#[test]
fn deposit_chain_matches_the_reference_scenario() {
    let state = sample_state();
    // equal prices, equal vaults: 10M buys 10M of the 200M supply
    let accounts = deposit_accounts(&state, 100_000_000, 0, 100_000_000, 0, 200_000_000, 1, 1);
    let plan = Processor::process_deposit(&accounts, 10_000_000, 0).unwrap();
    assert_eq!(plan.transfer_a, 10_000_000);
    assert_eq!(plan.transfer_b, 0);
    assert_eq!(plan.mint_amount, 10_000_000);
    // side B now scarcer after the first deposit: same amount buys more
    let accounts = deposit_accounts(&state, 110_000_000, 0, 100_000_000, 0, 210_000_000, 1, 1);
    let plan = Processor::process_deposit(&accounts, 0, 10_000_000).unwrap();
    assert_eq!(plan.mint_amount, 11_000_000);
    // accrued fees dilute the share a later deposit buys
    let accounts =
        deposit_accounts(&state, 110_000_000, 100_000_000, 110_000_000, 0, 221_000_000, 1, 1);
    let plan = Processor::process_deposit(&accounts, 10_000_000, 0).unwrap();
    assert_eq!(plan.mint_amount, 6_906_250);
}

#[test]
fn deposit_rejects_wrong_accounts() {
    let state = sample_state();
    let mut accounts = deposit_accounts(&state, 1, 0, 1, 0, 1, 1, 1);
    accounts[0].is_signer = false;
    assert_eq!(
        Processor::process_deposit(&accounts, 1, 0),
        Err(OpError::Custom(ZionError::InvalidSigner))
    );
    let mut accounts = deposit_accounts(&state, 1, 0, 1, 0, 1, 1, 1);
    accounts[2] = account(key(90), PROGRAM_ID, false, 0, Vec::new());
    assert_eq!(
        Processor::process_deposit(&accounts, 1, 0),
        Err(OpError::Custom(ZionError::InvalidSwapAuthority))
    );
    let mut accounts = deposit_accounts(&state, 1, 0, 1, 0, 1, 1, 1);
    accounts[6].key = key(90);
    assert_eq!(
        Processor::process_deposit(&accounts, 1, 0),
        Err(OpError::Custom(ZionError::InvalidVault))
    );
    let mut accounts = deposit_accounts(&state, 1, 0, 1, 0, 1, 1, 1);
    accounts[7].key = key(90);
    assert_eq!(
        Processor::process_deposit(&accounts, 1, 0),
        Err(OpError::Custom(ZionError::InvalidFeeVault))
    );
    let mut accounts = deposit_accounts(&state, 1, 0, 1, 0, 1, 1, 1);
    accounts[6].owner = key(90);
    assert_eq!(
        Processor::process_deposit(&accounts, 1, 0),
        Err(OpError::Custom(ZionError::IncorrectTokenProgramId))
    );
    let mut accounts = deposit_accounts(&state, 1, 0, 1, 0, 1, 1, 1);
    accounts[6].data[109] = 9; // corrupt the vault account data
    assert_eq!(
        Processor::process_deposit(&accounts, 1, 0),
        Err(OpError::Custom(ZionError::ExpectedTokenAccount))
    );
    let mut accounts = deposit_accounts(&state, 1, 0, 1, 0, 1, 1, 1);
    accounts[13].key = key(90);
    assert_eq!(
        Processor::process_deposit(&accounts, 1, 0),
        Err(OpError::Custom(ZionError::InvalidTokenProgramKey))
    );
    let accounts = Vec::new();
    assert_eq!(
        Processor::process_deposit(&accounts, 1, 0),
        Err(OpError::NotEnoughAccountKeys)
    );
}

#[test]
fn deposit_rejects_a_corrupt_liquidity_mint() {
    let state = sample_state();
    let mut accounts = deposit_accounts(&state, 1, 0, 1, 0, 1, 1, 1);
    accounts[3].data[45] = 0; // mark the liquidity mint uninitialized
    assert_eq!(
        Processor::process_deposit(&accounts, 1, 0),
        Err(OpError::Custom(ZionError::ExpectedMint))
    );
}

#[test]
fn initialize_rejects_a_wrong_system_program() {
    let arg = sample_state();
    let mut accounts = initialize_accounts(&arg, 0, &arg.swap_authority);
    accounts[14].key = key(90);
    assert_eq!(
        Processor::process_initialize(arg, &accounts),
        Err(OpError::Custom(ZionError::InvalidSystemProgramKey))
    );
}

#[test]
fn withdraw_requires_strictly_more_than_the_cost() {
    let state = sample_state();
    // withdrawing 10M costs exactly 10M liquidity tokens here
    let accounts = withdraw_accounts(&state, 10_000_000);
    assert_eq!(
        Processor::process_withdraw(&accounts, 10_000_000, 0),
        Err(OpError::Custom(ZionError::InsufficientSwapTokens))
    );
    let accounts = withdraw_accounts(&state, 9_999_999);
    assert_eq!(
        Processor::process_withdraw(&accounts, 10_000_000, 0),
        Err(OpError::Custom(ZionError::InsufficientSwapTokens))
    );
    let accounts = withdraw_accounts(&state, 10_000_001);
    let plan = Processor::process_withdraw(&accounts, 10_000_000, 0).unwrap();
    assert_eq!(plan.transfer_a, 10_000_000);
    assert_eq!(plan.transfer_b, 0);
    assert_eq!(plan.burn_amount, 10_000_000);
}

fn swap_accounts(state: &SwapState, source_supply: u64, destination_supply: u64) -> Vec<AccountView> {
    let (pool_key, _) = pool_address();
    let user = key(60);
    vec![
        account(user, [0; 32], true, 0, Vec::new()),
        account(pool_key, PROGRAM_ID, false, 1, pack_state(state)),
        account(state.swap_authority, PROGRAM_ID, false, 0, Vec::new()),
        account(key(61), TOKEN_PROGRAM_ID, false, 0, token_account_data(&user, 0)),
        account(state.token_a.vault, TOKEN_PROGRAM_ID, false, 0, token_account_data(&state.swap_authority, source_supply)),
        account(state.token_a.fee_vault, TOKEN_PROGRAM_ID, false, 0, token_account_data(&state.swap_authority, 0)),
        account(state.token_a.oracle, [0; 32], false, 0, oracle_data(1)),
        account(key(62), TOKEN_PROGRAM_ID, false, 0, token_account_data(&user, 0)),
        account(state.token_b.vault, TOKEN_PROGRAM_ID, false, 0, token_account_data(&state.swap_authority, destination_supply)),
        account(state.token_b.fee_vault, TOKEN_PROGRAM_ID, false, 0, token_account_data(&state.swap_authority, 0)),
        account(state.token_b.oracle, [0; 32], false, 0, oracle_data(1)),
        account(Pubkey { bytes: TOKEN_PROGRAM_ID }, [0; 32], false, 0, Vec::new()),
    ]
}

#[test]
fn swap_of_equal_sides_returns_the_input() {
    let state = sample_state();
    let accounts = swap_accounts(&state, 10_000_000, 10_000_000);
    let plan = Processor::process_swap(&accounts, 1_000_000).unwrap();
    assert_eq!(plan.transfer_in, 1_000_000);
    assert_eq!(plan.transfer_out, 1_000_000);
}

#[test]
fn swap_halves_when_the_destination_halves() {
    let state = sample_state();
    let accounts = swap_accounts(&state, 10_000_000, 5_000_000);
    let plan = Processor::process_swap(&accounts, 1_000_000).unwrap();
    assert_eq!(plan.transfer_out, 500_000);
}

#[test]
fn swap_rejects_empty_destination_and_same_oracle() {
    let state = sample_state();
    let accounts = swap_accounts(&state, 10, 0);
    assert_eq!(
        Processor::process_swap(&accounts, 1),
        Err(OpError::Custom(ZionError::InvalidSupply))
    );
    let mut accounts = swap_accounts(&state, 10, 10);
    accounts[10].key = state.token_a.oracle;
    assert_eq!(
        Processor::process_swap(&accounts, 1),
        Err(OpError::Custom(ZionError::InvalidOracle))
    );
    let mut accounts = swap_accounts(&state, 10, 10);
    accounts[8].key = key(90);
    assert_eq!(
        Processor::process_swap(&accounts, 1),
        Err(OpError::Custom(ZionError::InvalidVault))
    );
}

// ---- initialize ----

fn initialize_accounts(arg: &SwapState, swap_mint_supply: u64, swap_mint_authority: &Pubkey) -> Vec<AccountView> {
    let (pool_key, _) = pool_address();
    let admin = key(9);
    vec![
        account(admin, [0; 32], true, 10, Vec::new()),
        account(arg.swap_authority, [0; 32], false, 0, Vec::new()),
        account(arg.swap_mint, TOKEN_PROGRAM_ID, false, 0, mint_data(Some(swap_mint_authority), swap_mint_supply)),
        account(pool_key, [0; 32], false, 0, Vec::new()),
        account(arg.token_a.mint, TOKEN_PROGRAM_ID, false, 0, mint_data(Some(&arg.swap_authority), 5)),
        account(arg.token_a.vault, TOKEN_PROGRAM_ID, false, 0, token_account_data(&arg.swap_authority, 0)),
        account(arg.token_a.fee_vault, TOKEN_PROGRAM_ID, false, 0, token_account_data(&arg.swap_authority, 0)),
        account(arg.token_a.oracle, [0; 32], false, 0, oracle_data(1)),
        account(arg.token_b.mint, TOKEN_PROGRAM_ID, false, 0, mint_data(Some(&arg.swap_authority), 5)),
        account(arg.token_b.vault, TOKEN_PROGRAM_ID, false, 0, token_account_data(&arg.swap_authority, 0)),
        account(arg.token_b.fee_vault, TOKEN_PROGRAM_ID, false, 0, token_account_data(&arg.swap_authority, 0)),
        account(arg.token_b.oracle, [0; 32], false, 0, oracle_data(1)),
        account(Pubkey { bytes: TOKEN_PROGRAM_ID }, [0; 32], false, 0, Vec::new()),
        account(key(70), [0; 32], false, 0, Vec::new()),
        account(Pubkey { bytes: [0; 32] }, [0; 32], false, 0, Vec::new()),
    ]
}

#[test]
fn initialize_succeeds_and_rebuilds_the_record() {
    let arg = sample_state();
    let accounts = initialize_accounts(&arg, 0, &arg.swap_authority);
    let plan = Processor::process_initialize(arg, &accounts).unwrap();
    assert!(plan.record.is_initialized);
    assert_eq!(plan.record.admin, key(9));
    assert_eq!(plan.record.swap_authority, arg.swap_authority);
    assert_eq!(plan.record.token_a.vault, arg.token_a.vault);
    assert_eq!(plan.record.token_b.oracle, arg.token_b.oracle);
}

#[test]
fn initialize_rejects_nonzero_supply() {
    let arg = sample_state();
    let accounts = initialize_accounts(&arg, 1, &arg.swap_authority);
    assert_eq!(
        Processor::process_initialize(arg, &accounts),
        Err(OpError::Custom(ZionError::InvalidSupply))
    );
}

#[test]
fn initialize_rejects_foreign_mint_authority() {
    let arg = sample_state();
    let accounts = initialize_accounts(&arg, 0, &key(90));
    assert_eq!(
        Processor::process_initialize(arg, &accounts),
        Err(OpError::Custom(ZionError::InvalidAuthority))
    );
    // an asset mint under a foreign authority is rejected too
    let mut accounts = initialize_accounts(&arg, 0, &arg.swap_authority);
    accounts[4].data = mint_data(Some(&key(90)), 5);
    assert_eq!(
        Processor::process_initialize(arg, &accounts),
        Err(OpError::Custom(ZionError::InvalidSwapAuthority))
    );
    // a vault owned by someone else is rejected
    let mut accounts = initialize_accounts(&arg, 0, &arg.swap_authority);
    accounts[5].data = token_account_data(&key(90), 0);
    assert_eq!(
        Processor::process_initialize(arg, &accounts),
        Err(OpError::Custom(ZionError::InvalidOwner))
    );
}

#[test]
fn initialize_rejects_identical_mints() {
    let mut arg = sample_state();
    arg.token_b.mint = arg.token_a.mint;
    let accounts = initialize_accounts(&arg, 0, &arg.swap_authority);
    assert_eq!(
        Processor::process_initialize(arg, &accounts),
        Err(OpError::Custom(ZionError::IdenticalMints))
    );
}

#[test]
fn initialize_rejects_occupied_record() {
    let arg = sample_state();
    let mut accounts = initialize_accounts(&arg, 0, &arg.swap_authority);
    accounts[3].data = vec![0u8; 371];
    assert_eq!(
        Processor::process_initialize(arg, &accounts),
        Err(OpError::AccountAlreadyInitialized)
    );
}

// ---- close pool ----

fn close_accounts(state: &SwapState, record_data: Vec<u8>) -> Vec<AccountView> {
    let (pool_key, _) = pool_address();
    vec![
        account(state.admin, [0; 32], true, 5, Vec::new()),
        account(pool_key, PROGRAM_ID, false, 100, record_data),
        account(state.swap_authority, PROGRAM_ID, false, 0, Vec::new()),
    ]
}

#[test]
fn close_pool_succeeds_once_then_fails() {
    let state = sample_state();
    let accounts = close_accounts(&state, pack_state(&state));
    let plan = Processor::process_close_pool(&accounts).unwrap();
    assert_eq!(plan.admin_lamports, 105);
    // after closing, the record is zeroed: the admin no longer matches
    let accounts = close_accounts(&state, vec![0u8; 371]);
    assert_eq!(
        Processor::process_close_pool(&accounts),
        Err(OpError::Custom(ZionError::MustBeAdmin))
    );
    // and once the account is reclaimed wholly, nothing decodes at all
    let accounts = close_accounts(&state, Vec::new());
    assert_eq!(
        Processor::process_close_pool(&accounts),
        Err(OpError::InvalidAccountData)
    );
}

#[test]
fn close_pool_requires_admin_and_signer() {
    let state = sample_state();
    let mut accounts = close_accounts(&state, pack_state(&state));
    accounts[0].key = key(90);
    assert_eq!(
        Processor::process_close_pool(&accounts),
        Err(OpError::Custom(ZionError::MustBeAdmin))
    );
    let mut accounts = close_accounts(&state, pack_state(&state));
    accounts[0].is_signer = false;
    assert_eq!(
        Processor::process_close_pool(&accounts),
        Err(OpError::Custom(ZionError::InvalidSigner))
    );
}

// ---- dispatch ----

#[test]
fn dispatch_routes_each_instruction() {
    let state = sample_state();
    let program = Pubkey { bytes: PROGRAM_ID };
    let deposit = ZionInstruction::Deposit(Deposit {
        token_a_deposit: 10_000_000,
        token_b_deposit: 0,
    });
    let accounts = deposit_accounts(&state, 100_000_000, 0, 100_000_000, 0, 200_000_000, 1, 1);
    match Processor::process(&program, &accounts, &deposit.pack()).unwrap() {
        bank_of_zion::processor::Plan::Deposit(plan) => assert_eq!(plan.mint_amount, 10_000_000),
        _ => panic!("deposit dispatched to another operation"),
    }
    let close_accounts = close_accounts(&state, pack_state(&state));
    match Processor::process(&program, &close_accounts, &[]).unwrap() {
        bank_of_zion::processor::Plan::ClosePool(plan) => assert_eq!(plan.admin_lamports, 105),
        _ => panic!("an empty payload must close the pool"),
    }
    assert_eq!(
        Processor::process(&program, &accounts, &[9]).unwrap_err(),
        OpError::Custom(ZionError::InvalidInstruction)
    );
}

// ---- admin deposit ----

fn admin_deposit_accounts(state: &SwapState, price_a: i64, price_b: i64) -> Vec<AccountView> {
    let (pool_key, _) = pool_address();
    let admin = key(9);
    vec![
        account(admin, [0; 32], true, 0, Vec::new()),
        account(state.swap_authority, PROGRAM_ID, false, 0, Vec::new()),
        account(state.swap_mint, TOKEN_PROGRAM_ID, false, 0, mint_data(Some(&state.swap_authority), 0)),
        account(pool_key, PROGRAM_ID, false, 1, pack_state(state)),
        account(key(61), TOKEN_PROGRAM_ID, false, 0, token_account_data(&admin, 0)),
        account(state.token_a.mint, TOKEN_PROGRAM_ID, false, 0, mint_data(Some(&state.swap_authority), 5)),
        account(key(62), TOKEN_PROGRAM_ID, false, 0, token_account_data(&admin, 0)),
        account(state.token_a.vault, TOKEN_PROGRAM_ID, false, 0, token_account_data(&state.swap_authority, 0)),
        account(state.token_a.oracle, [0; 32], false, 0, oracle_data(price_a)),
        account(state.token_b.mint, TOKEN_PROGRAM_ID, false, 0, mint_data(Some(&state.swap_authority), 5)),
        account(key(63), TOKEN_PROGRAM_ID, false, 0, token_account_data(&admin, 0)),
        account(state.token_b.vault, TOKEN_PROGRAM_ID, false, 0, token_account_data(&state.swap_authority, 0)),
        account(state.token_b.oracle, [0; 32], false, 0, oracle_data(price_b)),
        account(Pubkey { bytes: TOKEN_PROGRAM_ID }, [0; 32], false, 0, Vec::new()),
    ]
}

#[test]
fn admin_deposit_mints_raw_market_value() {
    let state = sample_state();
    let accounts = admin_deposit_accounts(&state, 2, 3);
    let plan = Processor::process_admin_deposit(&accounts, 1_000, 2_000).unwrap();
    assert_eq!(plan.transfer_a, 1_000);
    assert_eq!(plan.transfer_b, 2_000);
    // 1000 at price 2 plus 2000 at price 3
    assert_eq!(plan.mint_amount, 8_000);
}

#[test]
fn admin_deposit_rejects_values_past_sixty_four_bits() {
    let state = sample_state();
    let accounts = admin_deposit_accounts(&state, 3, 1);
    assert_eq!(
        Processor::process_admin_deposit(&accounts, u64::MAX, 0),
        Err(OpError::Fatal)
    );
}

#[test]
fn admin_deposit_requires_the_recorded_admin() {
    let state = sample_state();
    let mut accounts = admin_deposit_accounts(&state, 1, 1);
    accounts[0].key = key(90);
    assert_eq!(
        Processor::process_admin_deposit(&accounts, 1, 1),
        Err(OpError::Custom(ZionError::MustBeAdmin))
    );
}

#[test]
fn admin_deposit_requires_the_admin_signature() {
    let state = sample_state();
    let mut accounts = admin_deposit_accounts(&state, 1, 1);
    accounts[0].is_signer = false;
    assert_eq!(
        Processor::process_admin_deposit(&accounts, 1, 1),
        Err(OpError::Custom(ZionError::InvalidSigner))
    );
    let mut accounts = admin_deposit_accounts(&state, 1, 1);
    accounts[5].key = key(90);
    assert_eq!(
        Processor::process_admin_deposit(&accounts, 1, 1),
        Err(OpError::Custom(ZionError::InvalidMint))
    );
}
