//! Accounts of the deposit bank.

use vstd::prelude::*;

use crate::key::Pubkey;

verus! {

/// The global market: its administrator, fee settings and pause switch.
#[derive(Clone, Copy, Debug, PartialEq, Eq)]
pub struct Market {
    pub admin: Pubkey,
    pub fee_receiver: Pubkey,
    pub reserves_count: u16,
    pub protocol_fee_bps: u16,
    pub is_paused: bool,
    pub version: u8,
    pub bump: u8,
}

/// A bank for one mint: where its deposits are kept and how much is in it.
#[derive(Clone, Copy, Debug, PartialEq, Eq)]
pub struct Bank {
    pub market: Pubkey,
    pub mint: Pubkey,
    pub vault: Pubkey,
    pub total_deposits: u64,
    pub total_borrows: u64,
    /// The most the bank accepts in total; zero means no limit.
    pub deposit_limit: u64,
    pub bump: u8,
    pub vault_bump: u8,
}

/// What one user has deposited in one bank.
#[derive(Clone, Copy, Debug, PartialEq, Eq)]
pub struct UserDeposit {
    pub user: Pubkey,
    pub mint: Pubkey,
    pub amount: u64,
    pub bump: u8,
}

/// A user's balance in the bank.
#[derive(Clone, Copy, Debug, PartialEq, Eq)]
pub struct UserBank {
    pub user: Pubkey,
    pub balance: u64,
    pub bump: u8,
}

/// The currency of a deposit: native SOL or a token (USDC).
#[derive(Clone, Copy, Debug, PartialEq, Eq, Structural)]
pub enum Currency {
    Sol,
    USDC,
}

} // verus!
