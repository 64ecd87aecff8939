use liquidity_bank::bank::{
    apply_sol_deposit, check_user_deposit_address, process_create_bank,
    process_create_bank_for_native_solana, process_create_user_spl_deposit, process_deposit,
    process_deposit_sol, process_deposit_spl_tokens, process_initialize_market, update_is_paused,
    DepositRoute, UserDepositAccount,
};
use liquidity_bank::error::BankErrorCodes;
use liquidity_bank::key::Pubkey;
use liquidity_bank::program::{
    change_is_paused, create_bank_for_native_sol, create_bank_for_token, deposit_native_sol,
    initialize_market,
};
use liquidity_bank::state::{Bank, Currency, Market, UserDeposit};

fn key(b: u8) -> Pubkey {
    Pubkey::new_from_array([b; 32])
}

fn market() -> Market {
    process_initialize_market(key(1), key(2), 250, 255).unwrap()
}

fn bank(total: u64, limit: u64) -> Bank {
    Bank {
        market: key(10),
        mint: key(11),
        vault: key(12),
        total_deposits: total,
        total_borrows: 0,
        deposit_limit: limit,
        bump: 3,
        vault_bump: 4,
    }
}

fn fresh_deposit() -> UserDeposit {
    UserDeposit { user: Pubkey::default(), mint: Pubkey::default(), amount: 0, bump: 0 }
}

fn expected_user_deposit(market_key: &Pubkey, user: &Pubkey, program_id: &Pubkey) -> (Pubkey, u8) {
    let (address, bump) = anchor_lang::prelude::Pubkey::find_program_address(
        &[b"user_deposit", &market_key.to_bytes(), &user.to_bytes()],
        &anchor_lang::prelude::Pubkey::new_from_array(program_id.to_bytes()),
    );
    (Pubkey::new_from_array(address.to_bytes()), bump)
}

#[test]
fn initialize_market_sets_fields() {
    let m = market();
    assert_eq!(
        m,
        Market {
            admin: key(1),
            fee_receiver: key(2),
            reserves_count: 0,
            protocol_fee_bps: 250,
            is_paused: false,
            version: 1,
            bump: 255,
        }
    );
    assert!(process_initialize_market(key(1), key(2), 10_000, 0).is_ok());
    assert_eq!(
        process_initialize_market(key(1), key(2), 10_001, 0),
        Err(BankErrorCodes::InvalidProtocolFee)
    );
    assert_eq!(initialize_market(key(1), key(2), 250, 255), Ok(m));
}

#[test]
fn only_admin_pauses() {
    let mut m = market();
    assert_eq!(update_is_paused(&mut m, key(9), true), Err(BankErrorCodes::Unauthorized));
    assert!(!m.is_paused);
    update_is_paused(&mut m, key(1), true).unwrap();
    assert!(m.is_paused);
    change_is_paused(&mut m, key(1), false).unwrap();
    assert_eq!(m, market());
    assert_eq!(change_is_paused(&mut m, key(3), true), Err(BankErrorCodes::Unauthorized));
}

#[test]
fn create_bank_needs_admin() {
    let m = market();
    let b = process_create_bank(&m, key(10), key(1), key(11), key(12), 3, 4).unwrap();
    assert_eq!(b, bank(0, 0));
    assert_eq!(
        process_create_bank(&m, key(10), key(5), key(11), key(12), 3, 4),
        Err(BankErrorCodes::Unauthorized)
    );
    assert_eq!(create_bank_for_token(&m, key(10), key(1), key(11), key(12), 3, 4), Ok(bank(0, 0)));
    assert_eq!(create_bank_for_native_sol(&m, key(10), key(1), key(11), key(12), 3, 4), Ok(bank(0, 0)));
}

#[test]
fn native_bank_uses_native_mint() {
    let m = market();
    let b = process_create_bank_for_native_solana(&m, key(10), key(1), key(20), 9).unwrap();
    let native = anchor_spl::token::spl_token::native_mint::ID.to_bytes();
    assert_eq!(b.mint.to_bytes(), native);
    assert_eq!(
        b.mint.to_bytes(),
        [6, 155, 136, 87, 254, 171, 129, 132, 251, 104, 127, 99, 70, 24, 192, 53, 218, 196, 57, 220, 26, 235, 59, 85, 152, 160, 240, 0, 0, 0, 0, 1]
    );
    assert_eq!(b.vault, key(20));
    assert_eq!((b.bump, b.vault_bump), (9, 9));
    assert_eq!(
        process_create_bank_for_native_solana(&m, key(10), key(4), key(20), 9),
        Err(BankErrorCodes::Unauthorized)
    );
}

#[test]
fn user_spl_deposit_starts_empty() {
    assert_eq!(
        process_create_user_spl_deposit(key(5), key(11), 200),
        UserDeposit { user: key(5), mint: key(11), amount: 0, bump: 200 }
    );
}

#[test]
fn deposit_routes_and_limits() {
    let mut m = market();
    let mut b = bank(100, 0);
    assert_eq!(process_deposit(&m, &mut b, 0, Currency::Sol, false, false, false), Err(BankErrorCodes::InvalidAmount));
    assert_eq!(process_deposit(&m, &mut b, 50, Currency::Sol, false, false, false), Ok(DepositRoute::SystemTransfer));
    assert_eq!(b.total_deposits, 150);
    assert_eq!(process_deposit(&m, &mut b, 5, Currency::USDC, false, true, true), Err(BankErrorCodes::MissingTokenAccount));
    assert_eq!(process_deposit(&m, &mut b, 5, Currency::USDC, true, false, true), Err(BankErrorCodes::MissingBankVault));
    assert_eq!(process_deposit(&m, &mut b, 5, Currency::USDC, true, true, false), Err(BankErrorCodes::MissingTokenProgram));
    assert_eq!(b.total_deposits, 150);
    assert_eq!(process_deposit(&m, &mut b, 5, Currency::USDC, true, true, true), Ok(DepositRoute::TokenTransfer));
    assert_eq!(b.total_deposits, 155);

    let mut limited = bank(90, 100);
    assert_eq!(process_deposit(&m, &mut limited, 11, Currency::Sol, false, false, false), Err(BankErrorCodes::DepositLimitExceeded));
    assert_eq!(process_deposit(&m, &mut limited, 10, Currency::Sol, false, false, false), Ok(DepositRoute::SystemTransfer));
    assert_eq!(limited.total_deposits, 100);

    let mut full = bank(u64::MAX, 0);
    assert_eq!(process_deposit(&m, &mut full, 1, Currency::Sol, false, false, false), Err(BankErrorCodes::MathOverflow));
    // At the largest limit the capped total passes the limit check and the addition overflows.
    let mut capped = bank(u64::MAX, u64::MAX);
    assert_eq!(process_deposit(&m, &mut capped, 1, Currency::Sol, false, false, false), Err(BankErrorCodes::MathOverflow));
    update_is_paused(&mut m, key(1), true).unwrap();
    let mut open_bank = bank(0, 0);
    assert_eq!(process_deposit(&m, &mut open_bank, 5, Currency::Sol, false, false, false), Err(BankErrorCodes::MarketPaused));
    assert_eq!(process_deposit(&m, &mut open_bank, 0, Currency::Sol, false, false, false), Err(BankErrorCodes::InvalidAmount));
    assert_eq!(open_bank, bank(0, 0));
}

#[test]
fn user_deposit_address_check() {
    assert_eq!(
        check_user_deposit_address(Some((key(7), 250)), key(7), true),
        Ok(UserDepositAccount { bump: 250, needs_creation: true })
    );
    assert_eq!(check_user_deposit_address(Some((key(7), 250)), key(8), false), Err(BankErrorCodes::Unauthorized));
    assert_eq!(check_user_deposit_address(None, key(7), false), Err(BankErrorCodes::Unauthorized));
}

#[test]
fn apply_sol_deposit_initializes_then_adds() {
    let mut b = bank(0, 0);
    let mut d = fresh_deposit();
    apply_sol_deposit(&mut b, &mut d, key(5), 77, 40).unwrap();
    assert_eq!(d, UserDeposit { user: key(5), mint: key(11), amount: 40, bump: 77 });
    apply_sol_deposit(&mut b, &mut d, key(5), 99, 2).unwrap();
    assert_eq!(d.amount, 42);
    assert_eq!(d.bump, 77);
    assert_eq!(b.total_deposits, 42);
    let mut big = UserDeposit { user: key(5), mint: key(11), amount: u64::MAX, bump: 1 };
    assert_eq!(apply_sol_deposit(&mut b, &mut big, key(5), 1, 1), Err(BankErrorCodes::MathOverflow));
    assert_eq!(b.total_deposits, 42);
    let mut fullbank = bank(u64::MAX, 0);
    let mut d2 = fresh_deposit();
    assert_eq!(apply_sol_deposit(&mut fullbank, &mut d2, key(5), 1, 1), Err(BankErrorCodes::MathOverflow));
    assert_eq!(d2, fresh_deposit());
}

#[test]
fn sol_deposit_finds_the_user_deposit_address() {
    let m = market();
    let market_key = key(30);
    let user = key(31);
    let program_id = key(32);
    let (address, bump) = expected_user_deposit(&market_key, &user, &program_id);
    assert_ne!(address, program_id);
    let mut b = bank(0, 0);
    let mut d = fresh_deposit();
    let account = process_deposit_sol(&m, market_key, &mut b, user, program_id, address, true, &mut d, 500).unwrap();
    assert_eq!(account, UserDepositAccount { bump, needs_creation: true });
    assert_eq!(d, UserDeposit { user, mint: key(11), amount: 500, bump });
    assert_eq!(b.total_deposits, 500);
    let again = deposit_native_sol(&m, market_key, &mut b, user, program_id, address, false, &mut d, 25).unwrap();
    assert_eq!(again, UserDepositAccount { bump, needs_creation: false });
    assert_eq!((d.amount, b.total_deposits), (525, 525));
}

#[test]
fn sol_deposit_refusals() {
    let mut m = market();
    let market_key = key(30);
    let user = key(31);
    let program_id = key(32);
    let (address, _) = expected_user_deposit(&market_key, &user, &program_id);
    let mut b = bank(0, 0);
    let mut d = fresh_deposit();
    assert_eq!(
        process_deposit_sol(&m, market_key, &mut b, user, program_id, address, true, &mut d, 0),
        Err(BankErrorCodes::InvalidAmount)
    );
    assert_eq!(
        process_deposit_sol(&m, market_key, &mut b, user, program_id, key(33), true, &mut d, 10),
        Err(BankErrorCodes::Unauthorized)
    );
    assert_eq!(
        process_deposit_sol(&m, market_key, &mut b, user, program_id, program_id, true, &mut d, 10),
        Err(BankErrorCodes::Unauthorized)
    );
    update_is_paused(&mut m, key(1), true).unwrap();
    assert_eq!(
        process_deposit_sol(&m, market_key, &mut b, user, program_id, address, true, &mut d, 10),
        Err(BankErrorCodes::MarketPaused)
    );
    assert_eq!((b, d), (bank(0, 0), fresh_deposit()));
}

#[test]
fn spl_deposit_checks_accounts_and_pause() {
    let mut m = market();
    let bank_key = key(40);
    let user = key(41);
    let mut b = bank(10, 0);
    let mut d = UserDeposit { user, mint: key(11), amount: 4, bump: 2 };
    assert_eq!(
        process_deposit_spl_tokens(&m, &mut b, bank_key, &mut d, user, key(42), bank_key, 5),
        Err(BankErrorCodes::SPLBankCheckError)
    );
    assert_eq!(
        process_deposit_spl_tokens(&m, &mut b, bank_key, &mut d, user, user, key(43), 5),
        Err(BankErrorCodes::SPLBankCheckError)
    );
    assert_eq!(
        process_deposit_spl_tokens(&m, &mut b, bank_key, &mut d, user, user, bank_key, 0),
        Err(BankErrorCodes::InvalidAmount)
    );
    process_deposit_spl_tokens(&m, &mut b, bank_key, &mut d, user, user, bank_key, 5).unwrap();
    assert_eq!((b.total_deposits, d.amount), (15, 9));
    update_is_paused(&mut m, key(1), true).unwrap();
    assert_eq!(
        process_deposit_spl_tokens(&m, &mut b, bank_key, &mut d, user, user, bank_key, 5),
        Err(BankErrorCodes::MarketPaused)
    );
    let mut open = market();
    let mut full = bank(u64::MAX, 0);
    assert_eq!(
        process_deposit_spl_tokens(&mut open, &mut full, bank_key, &mut d, user, user, bank_key, 1),
        Err(BankErrorCodes::MathOverflow)
    );
    let mut rich = UserDeposit { user, mint: key(11), amount: u64::MAX, bump: 2 };
    let mut b2 = bank(0, 0);
    assert_eq!(
        process_deposit_spl_tokens(&open, &mut b2, bank_key, &mut rich, user, user, bank_key, 1),
        Err(BankErrorCodes::MathOverflow)
    );
    assert_eq!(b2, bank(0, 0));
}

#[test]
fn deposits_track_bank_total() {
    let m = market();
    let bank_key = key(40);
    let user = key(41);
    let mut b = bank(1000, 0);
    let mut d = UserDeposit { user, mint: key(11), amount: 300, bump: 2 };
    let gap = b.total_deposits - d.amount;
    process_deposit_spl_tokens(&m, &mut b, bank_key, &mut d, user, user, bank_key, 77).unwrap();
    apply_sol_deposit(&mut b, &mut d, user, 2, 23).unwrap();
    assert_eq!(b.total_deposits - d.amount, gap);
}

#[test]
fn default_key_is_zero() {
    let k = Pubkey::default();
    assert_eq!(k.to_bytes(), [0u8; 32]);
    assert!(k.is_zero());
    assert!(!key(1).is_zero());
    assert!(key(1).same_as(&key(1)));
    assert!(!key(1).same_as(&key(2)));
    assert_eq!(key(3).to_vec(), vec![3u8; 32]);
}
