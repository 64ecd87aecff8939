//! The entry points of the deposit bank program.

use vstd::prelude::*;

use crate::bank::{
    create_bank_outcome, deposit_sol_outcome, initialize_market_outcome, pause_outcome,
    process_create_bank, process_deposit_sol, process_initialize_market, update_is_paused,
    UserDepositAccount,
};
use crate::error::BankErrorCodes;
use crate::key::Pubkey;
use crate::state::{Bank, Market, UserDeposit};

verus! {

/// Entry point: creates the global market (see `process_initialize_market`).
pub fn initialize_market(admin: Pubkey, fee_receiver: Pubkey, protocol_fee_bps: u16, bump: u8) -> (market: Result<Market, BankErrorCodes>)
    ensures
        market == initialize_market_outcome(admin, fee_receiver, protocol_fee_bps, bump),
{
    process_initialize_market(admin, fee_receiver, protocol_fee_bps, bump)
}

/// Entry point: deposits native SOL (see `process_deposit_sol`).
pub fn deposit_native_sol(
    market: &Market,
    market_key: Pubkey,
    bank: &mut Bank,
    user: Pubkey,
    program_id: Pubkey,
    user_deposit_key: Pubkey,
    user_deposit_data_is_empty: bool,
    user_deposit: &mut UserDeposit,
    amount: u64,
) -> (res: Result<UserDepositAccount, BankErrorCodes>)
    ensures
        match deposit_sol_outcome(
            *market,
            market_key,
            *old(bank),
            user,
            program_id,
            user_deposit_key,
            user_deposit_data_is_empty,
            *old(user_deposit),
            amount,
        ) {
            Ok((b, d, account)) => res == Ok::<UserDepositAccount, BankErrorCodes>(account)
                && *final(bank) == b && *final(user_deposit) == d,
            Err(e) => res == Err::<UserDepositAccount, BankErrorCodes>(e) && *final(bank) == *old(
                bank,
            ) && *final(user_deposit) == *old(user_deposit),
        },
{
    process_deposit_sol(
        market,
        market_key,
        bank,
        user,
        program_id,
        user_deposit_key,
        user_deposit_data_is_empty,
        user_deposit,
        amount,
    )
}

/// Entry point: creates the bank of a token (see `process_create_bank`).
pub fn create_bank_for_token(
    market: &Market,
    market_key: Pubkey,
    admin: Pubkey,
    mint: Pubkey,
    bank_vault: Pubkey,
    bank_bump: u8,
    vault_bump: u8,
) -> (bank: Result<Bank, BankErrorCodes>)
    ensures
        bank == create_bank_outcome(*market, market_key, admin, mint, bank_vault, bank_bump, vault_bump),
{
    process_create_bank(market, market_key, admin, mint, bank_vault, bank_bump, vault_bump)
}

/// Entry point for the SOL bank; it takes the accounts of a token bank and
/// creates the bank the same way `create_bank_for_token` does.
pub fn create_bank_for_native_sol(
    market: &Market,
    market_key: Pubkey,
    admin: Pubkey,
    mint: Pubkey,
    bank_vault: Pubkey,
    bank_bump: u8,
    vault_bump: u8,
) -> (bank: Result<Bank, BankErrorCodes>)
    ensures
        bank == create_bank_outcome(*market, market_key, admin, mint, bank_vault, bank_bump, vault_bump),
{
    process_create_bank(market, market_key, admin, mint, bank_vault, bank_bump, vault_bump)
}

/// Entry point: sets the market's pause switch (see `update_is_paused`).
pub fn change_is_paused(market: &mut Market, admin: Pubkey, is_paused: bool) -> (res: Result<(), BankErrorCodes>)
    ensures
        match pause_outcome(*old(market), admin, is_paused) {
            Ok(m) => res is Ok && *final(market) == m,
            Err(e) => res == Err::<(), BankErrorCodes>(e) && *final(market) == *old(market),
        },
{
    update_is_paused(market, admin, is_paused)
}

} // verus!
