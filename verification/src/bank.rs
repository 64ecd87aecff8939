//! The deposit bank's instructions: market setup, the pause switch, banks,
//! user deposit accounts, and deposits of SOL and tokens.
//!
//! Each instruction is a decision over the accounts it is given. Where an
//! instruction moves funds or creates an account, it reports what to move or
//! create, and the caller does so once the instruction has succeeded; a
//! refused instruction changes nothing.

use vstd::prelude::*;

use crate::chain::{native_mint_bytes, native_mint_id, program_address_search, try_find_program_address};
use crate::error::BankErrorCodes;
use crate::key::{zero_key, Pubkey};
use crate::state::{Bank, Currency, Market, UserDeposit};

verus! {

/// The largest protocol fee, in basis points (100%).
pub const MAX_PROTOCOL_FEE_BPS: u16 = 10_000;

/// The layout version of a newly created market.
pub const MARKET_VERSION: u8 = 1;

/// How the funds of a deposit travel to the bank.
#[derive(Clone, Copy, Debug, PartialEq, Eq, Structural)]
pub enum DepositRoute {
    /// A lamport transfer through the system program into the SOL vault.
    SystemTransfer,
    /// A token transfer through the token program into the bank vault.
    TokenTransfer,
}

/// The user deposit account of a SOL deposit: the bump seed of its address,
/// and whether it has yet to be created.
#[derive(Clone, Copy, Debug, PartialEq, Eq, Structural)]
pub struct UserDepositAccount {
    pub bump: u8,
    pub needs_creation: bool,
}

// ---------------------------------------------------------------------------
// Specification
// ---------------------------------------------------------------------------

/// The seed tag `b"user_deposit"`.
pub open spec fn user_deposit_tag() -> Seq<u8> {
    seq![117u8, 115, 101, 114, 95, 100, 101, 112, 111, 115, 105, 116]
}

/// The seeds of the user deposit address of a SOL deposit.
pub open spec fn user_deposit_seeds(market_key: Seq<u8>, user: Seq<u8>) -> Seq<Seq<u8>> {
    seq![user_deposit_tag(), market_key, user]
}

/// The market that `process_initialize_market` creates.
pub open spec fn initialize_market_outcome(
    admin: Pubkey,
    fee_receiver: Pubkey,
    protocol_fee_bps: u16,
    bump: u8,
) -> Result<Market, BankErrorCodes> {
    if protocol_fee_bps <= MAX_PROTOCOL_FEE_BPS {
        Ok(
            Market {
                admin,
                fee_receiver,
                reserves_count: 0,
                protocol_fee_bps,
                is_paused: false,
                version: MARKET_VERSION,
                bump,
            },
        )
    } else {
        Err(BankErrorCodes::InvalidProtocolFee)
    }
}

/// What setting the pause switch on behalf of `admin` makes of the market.
pub open spec fn pause_outcome(market: Market, admin: Pubkey, is_paused: bool) -> Result<
    Market,
    BankErrorCodes,
> {
    if market.admin@ == admin@ {
        Ok(Market { is_paused, ..market })
    } else {
        Err(BankErrorCodes::Unauthorized)
    }
}

/// The token bank that `process_create_bank` creates.
pub open spec fn create_bank_outcome(
    market: Market,
    market_key: Pubkey,
    admin: Pubkey,
    mint: Pubkey,
    bank_vault: Pubkey,
    bank_bump: u8,
    vault_bump: u8,
) -> Result<Bank, BankErrorCodes> {
    if market.admin@ == admin@ {
        Ok(
            Bank {
                market: market_key,
                mint,
                vault: bank_vault,
                total_deposits: 0,
                total_borrows: 0,
                deposit_limit: 0,
                bump: bank_bump,
                vault_bump,
            },
        )
    } else {
        Err(BankErrorCodes::Unauthorized)
    }
}

/// The new total of a deposit capped at the largest `u64`.
pub open spec fn saturating_total(total: u64, amount: u64) -> u64 {
    if total + amount > u64::MAX {
        u64::MAX
    } else {
        (total + amount) as u64
    }
}

/// What a deposit through `process_deposit` makes of the bank, and how the
/// funds travel.
pub open spec fn bank_deposit_outcome(
    market: Market,
    bank: Bank,
    amount: u64,
    currency: Currency,
    has_user_token_account: bool,
    has_bank_vault: bool,
    has_token_program: bool,
) -> Result<(Bank, DepositRoute), BankErrorCodes> {
    if amount == 0 {
        Err(BankErrorCodes::InvalidAmount)
    } else if market.is_paused {
        Err(BankErrorCodes::MarketPaused)
    } else if bank.deposit_limit > 0 && saturating_total(bank.total_deposits, amount)
        > bank.deposit_limit {
        Err(BankErrorCodes::DepositLimitExceeded)
    } else {
        let route = match currency {
            Currency::Sol => Ok(DepositRoute::SystemTransfer),
            Currency::USDC => if !has_user_token_account {
                Err(BankErrorCodes::MissingTokenAccount)
            } else if !has_bank_vault {
                Err(BankErrorCodes::MissingBankVault)
            } else if !has_token_program {
                Err(BankErrorCodes::MissingTokenProgram)
            } else {
                Ok(DepositRoute::TokenTransfer)
            },
        };
        match route {
            Err(e) => Err(e),
            Ok(r) => if bank.total_deposits + amount > u64::MAX {
                Err(BankErrorCodes::MathOverflow)
            } else {
                Ok((Bank { total_deposits: (bank.total_deposits + amount) as u64, ..bank }, r))
            },
        }
    }
}

/// Whether the user deposit account at `key` is the address the search
/// `found` (no address found refuses every key), and whether it is still to
/// be created.
pub open spec fn user_deposit_account_outcome(
    found: Option<(Seq<u8>, u8)>,
    key: Seq<u8>,
    data_is_empty: bool,
) -> Result<UserDepositAccount, BankErrorCodes> {
    match found {
        Some((address, bump)) => if key == address {
            Ok(UserDepositAccount { bump, needs_creation: data_is_empty })
        } else {
            Err(BankErrorCodes::Unauthorized)
        },
        None => Err(BankErrorCodes::Unauthorized),
    }
}

/// What recording a SOL deposit of `amount` makes of the bank and of the
/// user deposit: an uninitialized user deposit (all-zero user) is set up for
/// `user`, otherwise its amount grows.
pub open spec fn sol_deposit_outcome(
    bank: Bank,
    user_deposit: UserDeposit,
    user: Pubkey,
    bump: u8,
    amount: u64,
) -> Result<(Bank, UserDeposit), BankErrorCodes> {
    if user_deposit.user@ != zero_key() && user_deposit.amount + amount > u64::MAX {
        Err(BankErrorCodes::MathOverflow)
    } else if bank.total_deposits + amount > u64::MAX {
        Err(BankErrorCodes::MathOverflow)
    } else {
        let recorded = if user_deposit.user@ == zero_key() {
            UserDeposit { user, mint: bank.mint, bump, amount }
        } else {
            UserDeposit { amount: (user_deposit.amount + amount) as u64, ..user_deposit }
        };
        Ok((Bank { total_deposits: (bank.total_deposits + amount) as u64, ..bank }, recorded))
    }
}

/// What a SOL deposit through `process_deposit_sol` makes of the bank and
/// the user deposit, with the user deposit account it uses.
pub open spec fn deposit_sol_outcome(
    market: Market,
    market_key: Pubkey,
    bank: Bank,
    user: Pubkey,
    program_id: Pubkey,
    user_deposit_key: Pubkey,
    user_deposit_data_is_empty: bool,
    user_deposit: UserDeposit,
    amount: u64,
) -> Result<(Bank, UserDeposit, UserDepositAccount), BankErrorCodes> {
    if amount == 0 {
        Err(BankErrorCodes::InvalidAmount)
    } else if market.is_paused {
        Err(BankErrorCodes::MarketPaused)
    } else {
        match user_deposit_account_outcome(
            program_address_search(user_deposit_seeds(market_key@, user@), program_id@),
            user_deposit_key@,
            user_deposit_data_is_empty,
        ) {
            Err(e) => Err(e),
            Ok(account) => match sol_deposit_outcome(
                bank,
                user_deposit,
                user,
                account.bump,
                amount,
            ) {
                Err(e) => Err(e),
                Ok((b, d)) => Ok((b, d, account)),
            },
        }
    }
}

/// What a token deposit through `process_deposit_spl_tokens` makes of the
/// bank and the user deposit.
pub open spec fn spl_deposit_outcome(
    market: Market,
    bank: Bank,
    bank_key: Pubkey,
    user_deposit: UserDeposit,
    user: Pubkey,
    user_token_owner: Pubkey,
    bank_vault_owner: Pubkey,
    amount: u64,
) -> Result<(Bank, UserDeposit), BankErrorCodes> {
    if user_token_owner@ != user@ || bank_vault_owner@ != bank_key@ {
        Err(BankErrorCodes::SPLBankCheckError)
    } else if amount == 0 {
        Err(BankErrorCodes::InvalidAmount)
    } else if market.is_paused {
        Err(BankErrorCodes::MarketPaused)
    } else if bank.total_deposits + amount > u64::MAX || user_deposit.amount + amount > u64::MAX {
        Err(BankErrorCodes::MathOverflow)
    } else {
        Ok(
            (
                Bank { total_deposits: (bank.total_deposits + amount) as u64, ..bank },
                UserDeposit { amount: (user_deposit.amount + amount) as u64, ..user_deposit },
            ),
        )
    }
}

// ---------------------------------------------------------------------------
// Instructions
// ---------------------------------------------------------------------------

/// Creates the global market with `admin` as its only administrator; the
/// protocol fee may not exceed 100%.
pub fn process_initialize_market(
    admin: Pubkey,
    fee_receiver: Pubkey,
    protocol_fee_bps: u16,
    bump: u8,
) -> (market: Result<Market, BankErrorCodes>)
    ensures
        market == initialize_market_outcome(admin, fee_receiver, protocol_fee_bps, bump),
{
    if protocol_fee_bps > 10_000 {
        return Err(BankErrorCodes::InvalidProtocolFee);
    }
    Ok(
        Market {
            admin,
            fee_receiver,
            reserves_count: 0,
            protocol_fee_bps,
            is_paused: false,
            version: MARKET_VERSION,
            bump,
        },
    )
}

/// Sets the market's pause switch; only the market's administrator may.
pub fn update_is_paused(market: &mut Market, admin: Pubkey, is_paused: bool) -> (res: Result<
    (),
    BankErrorCodes,
>)
    ensures
        match pause_outcome(*old(market), admin, is_paused) {
            Ok(m) => res is Ok && *final(market) == m,
            Err(e) => res == Err::<(), BankErrorCodes>(e) && *final(market) == *old(market),
        },
{
    if !market.admin.same_as(&admin) {
        return Err(BankErrorCodes::Unauthorized);
    }
    market.is_paused = is_paused;
    Ok(())
}

/// Creates the bank for a token `mint`, whose funds sit in `bank_vault`;
/// only the market's administrator may.
pub fn process_create_bank(
    market: &Market,
    market_key: Pubkey,
    admin: Pubkey,
    mint: Pubkey,
    bank_vault: Pubkey,
    bank_bump: u8,
    vault_bump: u8,
) -> (bank: Result<Bank, BankErrorCodes>)
    ensures
        bank == create_bank_outcome(*market, market_key, admin, mint, bank_vault, bank_bump, vault_bump),
{
    if !market.admin.same_as(&admin) {
        return Err(BankErrorCodes::Unauthorized);
    }
    Ok(
        Bank {
            market: market_key,
            mint,
            vault: bank_vault,
            total_deposits: 0,
            total_borrows: 0,
            deposit_limit: 0,
            bump: bank_bump,
            vault_bump,
        },
    )
}

/// Creates the bank for native SOL at `bank_key`: its mint is the native
/// mint and the bank account is its own vault; only the market's
/// administrator may.
pub fn process_create_bank_for_native_solana(
    market: &Market,
    market_key: Pubkey,
    admin: Pubkey,
    bank_key: Pubkey,
    bank_bump: u8,
) -> (bank: Result<Bank, BankErrorCodes>)
    ensures
        bank is Ok <==> market.admin@ == admin@,
        bank is Err ==> bank == Err::<Bank, BankErrorCodes>(BankErrorCodes::Unauthorized),
        bank matches Ok(b) ==> {
            &&& b.market == market_key
            &&& b.mint@ == native_mint_bytes()
            &&& b.vault == bank_key
            &&& b.total_deposits == 0
            &&& b.total_borrows == 0
            &&& b.deposit_limit == 0
            &&& b.bump == bank_bump
            &&& b.vault_bump == bank_bump
        },
{
    if !market.admin.same_as(&admin) {
        return Err(BankErrorCodes::Unauthorized);
    }
    Ok(
        Bank {
            market: market_key,
            mint: native_mint_id(),
            vault: bank_key,
            total_deposits: 0,
            total_borrows: 0,
            deposit_limit: 0,
            bump: bank_bump,
            vault_bump: bank_bump,
        },
    )
}

/// Sets up the token deposit account of `user` for `mint`, empty.
pub fn process_create_user_spl_deposit(user: Pubkey, mint: Pubkey, bump: u8) -> (deposit:
    UserDeposit)
    ensures
        deposit == (UserDeposit { user, mint, amount: 0, bump }),
{
    UserDeposit { user, mint, amount: 0, bump }
}

/// Deposits `amount` of `currency` into the bank, while the market is not
/// paused and within the bank's deposit limit when it has one; a token deposit needs the user's token account,
/// the bank vault and the token program. Returns how the funds travel, which
/// the caller carries out.
pub fn process_deposit(
    market: &Market,
    bank: &mut Bank,
    amount: u64,
    currency: Currency,
    has_user_token_account: bool,
    has_bank_vault: bool,
    has_token_program: bool,
) -> (res: Result<DepositRoute, BankErrorCodes>)
    ensures
        match bank_deposit_outcome(
            *market,
            *old(bank),
            amount,
            currency,
            has_user_token_account,
            has_bank_vault,
            has_token_program,
        ) {
            Ok((b, route)) => res == Ok::<DepositRoute, BankErrorCodes>(route) && *final(bank)
                == b,
            Err(e) => res == Err::<DepositRoute, BankErrorCodes>(e) && *final(bank) == *old(bank),
        },
{
    if amount == 0 {
        return Err(BankErrorCodes::InvalidAmount);
    }
    if market.is_paused {
        return Err(BankErrorCodes::MarketPaused);
    }
    if bank.deposit_limit > 0 {
        if bank.total_deposits.saturating_add(amount) > bank.deposit_limit {
            return Err(BankErrorCodes::DepositLimitExceeded);
        }
    }
    let route = match currency {
        Currency::Sol => DepositRoute::SystemTransfer,
        Currency::USDC => {
            if !has_user_token_account {
                return Err(BankErrorCodes::MissingTokenAccount);
            }
            if !has_bank_vault {
                return Err(BankErrorCodes::MissingBankVault);
            }
            if !has_token_program {
                return Err(BankErrorCodes::MissingTokenProgram);
            }
            DepositRoute::TokenTransfer
        },
    };
    let total = match bank.total_deposits.checked_add(amount) {
        Some(t) => t,
        None => return Err(BankErrorCodes::MathOverflow),
    };
    bank.total_deposits = total;
    Ok(route)
}

/// The seed tag `b"user_deposit"` as bytes.
fn user_deposit_tag_bytes() -> (tag: Vec<u8>)
    ensures
        tag@ == user_deposit_tag(),
{
    let mut tag: Vec<u8> = Vec::new();
    tag.push(117u8);
    tag.push(115u8);
    tag.push(101u8);
    tag.push(114u8);
    tag.push(95u8);
    tag.push(100u8);
    tag.push(101u8);
    tag.push(112u8);
    tag.push(111u8);
    tag.push(115u8);
    tag.push(105u8);
    tag.push(116u8);
    assert(tag@ =~= user_deposit_tag());
    tag
}

/// Checks that `user_deposit_key` is the user deposit address that the
/// address search `found` (with its bump); reports the bump and whether the
/// account is still to be created (its data is empty).
pub fn check_user_deposit_address(
    found: Option<(Pubkey, u8)>,
    user_deposit_key: Pubkey,
    data_is_empty: bool,
) -> (res: Result<UserDepositAccount, BankErrorCodes>)
    ensures
        res == user_deposit_account_outcome(
            match found {
                Some((address, bump)) => Some((address@, bump)),
                None => None,
            },
            user_deposit_key@,
            data_is_empty,
        ),
{
    match found {
        Some((expected, bump)) => {
            if !user_deposit_key.same_as(&expected) {
                return Err(BankErrorCodes::Unauthorized);
            }
            Ok(UserDepositAccount { bump, needs_creation: data_is_empty })
        },
        None => Err(BankErrorCodes::Unauthorized),
    }
}

/// Finds the user deposit address of `user` in the market and checks that
/// `user_deposit_key` is it; reports its bump and whether the account is
/// still to be created, which the caller then does.
fn create_user_deposit_if_needed(
    market_key: Pubkey,
    user: Pubkey,
    program_id: Pubkey,
    user_deposit_key: Pubkey,
    data_is_empty: bool,
) -> (res: Result<UserDepositAccount, BankErrorCodes>)
    ensures
        res == user_deposit_account_outcome(
            program_address_search(user_deposit_seeds(market_key@, user@), program_id@),
            user_deposit_key@,
            data_is_empty,
        ),
{
    let mut seeds: Vec<Vec<u8>> = Vec::new();
    seeds.push(user_deposit_tag_bytes());
    seeds.push(market_key.to_vec());
    seeds.push(user.to_vec());
    assert(seeds.deep_view() =~= user_deposit_seeds(market_key@, user@)) by {
        assert(seeds@[0].deep_view() =~= seeds@[0]@);
        assert(seeds@[1].deep_view() =~= seeds@[1]@);
        assert(seeds@[2].deep_view() =~= seeds@[2]@);
    }
    let found = try_find_program_address(&seeds, &program_id);
    check_user_deposit_address(found, user_deposit_key, data_is_empty)
}

/// Records a SOL deposit of `amount`: the bank's total grows, and the user
/// deposit is set up for `user` when uninitialized (all-zero user), or its
/// amount grows.
pub fn apply_sol_deposit(
    bank: &mut Bank,
    user_deposit: &mut UserDeposit,
    user: Pubkey,
    bump: u8,
    amount: u64,
) -> (res: Result<(), BankErrorCodes>)
    ensures
        match sol_deposit_outcome(*old(bank), *old(user_deposit), user, bump, amount) {
            Ok((b, d)) => res is Ok && *final(bank) == b && *final(user_deposit) == d,
            Err(e) => res == Err::<(), BankErrorCodes>(e) && *final(bank) == *old(bank)
                && *final(user_deposit) == *old(user_deposit),
        },
{
    let fresh = user_deposit.user.is_zero();
    let deposited = if fresh {
        amount
    } else {
        match user_deposit.amount.checked_add(amount) {
            Some(a) => a,
            None => return Err(BankErrorCodes::MathOverflow),
        }
    };
    let total = match bank.total_deposits.checked_add(amount) {
        Some(t) => t,
        None => return Err(BankErrorCodes::MathOverflow),
    };
    if fresh {
        user_deposit.user = user;
        user_deposit.mint = bank.mint;
        user_deposit.bump = bump;
    }
    user_deposit.amount = deposited;
    bank.total_deposits = total;
    Ok(())
}

/// Deposits `amount` lamports of native SOL: the market must not be paused,
/// `user_deposit_key` must be the user's deposit address in the market, and
/// the deposit is recorded in the bank and the user deposit. Reports the
/// user deposit account, which the caller creates when it is new, and moves
/// `amount` lamports from the user to the bank.
pub fn process_deposit_sol(
    market: &Market,
    market_key: Pubkey,
    bank: &mut Bank,
    user: Pubkey,
    program_id: Pubkey,
    user_deposit_key: Pubkey,
    user_deposit_data_is_empty: bool,
    user_deposit: &mut UserDeposit,
    amount: u64,
) -> (res: Result<UserDepositAccount, BankErrorCodes>)
    ensures
        match deposit_sol_outcome(
            *market,
            market_key,
            *old(bank),
            user,
            program_id,
            user_deposit_key,
            user_deposit_data_is_empty,
            *old(user_deposit),
            amount,
        ) {
            Ok((b, d, account)) => res == Ok::<UserDepositAccount, BankErrorCodes>(account)
                && *final(bank) == b && *final(user_deposit) == d,
            Err(e) => res == Err::<UserDepositAccount, BankErrorCodes>(e) && *final(bank) == *old(
                bank,
            ) && *final(user_deposit) == *old(user_deposit),
        },
{
    if amount == 0 {
        return Err(BankErrorCodes::InvalidAmount);
    }
    if market.is_paused {
        return Err(BankErrorCodes::MarketPaused);
    }
    let account = match create_user_deposit_if_needed(
        market_key,
        user,
        program_id,
        user_deposit_key,
        user_deposit_data_is_empty,
    ) {
        Ok(a) => a,
        Err(e) => return Err(e),
    };
    match apply_sol_deposit(bank, user_deposit, user, account.bump, amount) {
        Ok(()) => Ok(account),
        Err(e) => Err(e),
    }
}

/// Deposits `amount` tokens: the user's token account must belong to the
/// user and the bank vault to the bank, the market must not be paused, and
/// the deposit is recorded in the bank and the user deposit. The caller
/// moves `amount` tokens from the user's token account to the vault.
pub fn process_deposit_spl_tokens(
    market: &Market,
    bank: &mut Bank,
    bank_key: Pubkey,
    user_deposit: &mut UserDeposit,
    user: Pubkey,
    user_token_owner: Pubkey,
    bank_vault_owner: Pubkey,
    amount: u64,
) -> (res: Result<(), BankErrorCodes>)
    ensures
        match spl_deposit_outcome(
            *market,
            *old(bank),
            bank_key,
            *old(user_deposit),
            user,
            user_token_owner,
            bank_vault_owner,
            amount,
        ) {
            Ok((b, d)) => res is Ok && *final(bank) == b && *final(user_deposit) == d,
            Err(e) => res == Err::<(), BankErrorCodes>(e) && *final(bank) == *old(bank)
                && *final(user_deposit) == *old(user_deposit),
        },
{
    if !user_token_owner.same_as(&user) {
        return Err(BankErrorCodes::SPLBankCheckError);
    }
    if !bank_vault_owner.same_as(&bank_key) {
        return Err(BankErrorCodes::SPLBankCheckError);
    }
    if amount == 0 {
        return Err(BankErrorCodes::InvalidAmount);
    }
    if market.is_paused {
        return Err(BankErrorCodes::MarketPaused);
    }
    let total = match bank.total_deposits.checked_add(amount) {
        Some(t) => t,
        None => return Err(BankErrorCodes::MathOverflow),
    };
    let deposited = match user_deposit.amount.checked_add(amount) {
        Some(a) => a,
        None => return Err(BankErrorCodes::MathOverflow),
    };
    bank.total_deposits = total;
    user_deposit.amount = deposited;
    Ok(())
}

} // verus!
