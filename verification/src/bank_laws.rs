//! Properties of the deposit bank: what each instruction does, stated over
//! its inputs, and how instructions relate.

use vstd::prelude::*;

use crate::bank::{
    create_bank_outcome, initialize_market_outcome, user_deposit_account_outcome,
    user_deposit_seeds, UserDepositAccount,
    bank_deposit_outcome, deposit_sol_outcome, pause_outcome, sol_deposit_outcome,
    spl_deposit_outcome, DepositRoute,
};
use crate::error::BankErrorCodes;
use crate::chain::program_address_search;
use crate::key::{zero_key, Pubkey};
use crate::state::{Bank, Currency, Market, UserDeposit};

verus! {

/// A recorded SOL deposit grows the bank's total and the user's deposit by
/// the same amount; a new user deposit starts at that amount, for that user.
pub proof fn law_sol_deposit_tracks_user(
    bank: Bank,
    user_deposit: UserDeposit,
    user: Pubkey,
    bump: u8,
    amount: u64,
)
    requires
        sol_deposit_outcome(bank, user_deposit, user, bump, amount) is Ok,
    ensures
        ({
            let (b1, d1) = sol_deposit_outcome(bank, user_deposit, user, bump, amount)->Ok_0;
            &&& b1.total_deposits == bank.total_deposits + amount
            &&& user_deposit.user@ != zero_key() ==> d1.amount == user_deposit.amount + amount
                && d1.user == user_deposit.user && d1.mint == user_deposit.mint
            &&& user_deposit.user@ == zero_key() ==> d1.amount == amount && d1.user == user
                && d1.mint == bank.mint
        }),
{
}

/// A token deposit grows the bank's total and the user's deposit by the
/// same amount.
pub proof fn law_spl_deposit_tracks_user(
    market: Market,
    bank: Bank,
    bank_key: Pubkey,
    user_deposit: UserDeposit,
    user: Pubkey,
    user_token_owner: Pubkey,
    bank_vault_owner: Pubkey,
    amount: u64,
)
    requires
        spl_deposit_outcome(market, bank, bank_key, user_deposit, user, user_token_owner, bank_vault_owner, amount) is Ok,
    ensures
        ({
            let (b1, d1) = spl_deposit_outcome(market, bank, bank_key, user_deposit, user, user_token_owner, bank_vault_owner, amount)->Ok_0;
            &&& b1.total_deposits == bank.total_deposits + amount
            &&& d1.amount == user_deposit.amount + amount
            &&& b1.total_deposits - d1.amount == bank.total_deposits - user_deposit.amount
        }),
{
}

/// A paused market takes no deposit: no SOL, and, once the accounts check
/// out, no tokens.
pub proof fn law_paused_market_refuses_deposits(
    market: Market,
    market_key: Pubkey,
    bank: Bank,
    bank_key: Pubkey,
    user: Pubkey,
    program_id: Pubkey,
    user_deposit_key: Pubkey,
    user_deposit_data_is_empty: bool,
    user_deposit: UserDeposit,
    amount: u64,
    currency: Currency,
    has_user_token_account: bool,
    has_bank_vault: bool,
    has_token_program: bool,
)
    requires
        market.is_paused,
    ensures
        deposit_sol_outcome(market, market_key, bank, user, program_id, user_deposit_key, user_deposit_data_is_empty, user_deposit, amount)
            == Err::<(Bank, UserDeposit, crate::bank::UserDepositAccount), BankErrorCodes>(
            if amount == 0 { BankErrorCodes::InvalidAmount } else { BankErrorCodes::MarketPaused },
        ),
        amount > 0 ==> spl_deposit_outcome(market, bank, bank_key, user_deposit, user, user, bank_key, amount)
            == Err::<(Bank, UserDeposit), BankErrorCodes>(BankErrorCodes::MarketPaused),
        amount > 0 ==> bank_deposit_outcome(market, bank, amount, currency, has_user_token_account, has_bank_vault, has_token_program)
            == Err::<(Bank, DepositRoute), BankErrorCodes>(BankErrorCodes::MarketPaused),
{
}

/// A bank with a deposit limit never holds more than the limit after a
/// deposit.
pub proof fn law_deposit_limit_holds(
    market: Market,
    bank: Bank,
    amount: u64,
    currency: Currency,
    has_user_token_account: bool,
    has_bank_vault: bool,
    has_token_program: bool,
)
    requires
        bank.deposit_limit > 0,
        bank_deposit_outcome(market, bank, amount, currency, has_user_token_account, has_bank_vault, has_token_program) is Ok,
    ensures
        ({
            let (b1, route) = bank_deposit_outcome(market, bank, amount, currency, has_user_token_account, has_bank_vault, has_token_program)->Ok_0;
            &&& b1.total_deposits <= bank.deposit_limit
            &&& b1.total_deposits == bank.total_deposits + amount
            &&& (route == DepositRoute::SystemTransfer <==> currency == Currency::Sol)
        }),
{
}

/// The administrator can pause the market and restore its previous state;
/// anyone else is refused.
pub proof fn law_pause_is_undone(market: Market, admin: Pubkey, is_paused: bool)
    ensures
        market.admin@ == admin@ ==> pause_outcome(pause_outcome(market, admin, is_paused)->Ok_0, admin, market.is_paused)
            == Ok::<Market, BankErrorCodes>(market),
        market.admin@ != admin@ ==> pause_outcome(market, admin, is_paused)
            == Err::<Market, BankErrorCodes>(BankErrorCodes::Unauthorized),
{
}

// ---------------------------------------------------------------------------
// What each instruction does, stated over its inputs
// ---------------------------------------------------------------------------

/// A market is created, unpaused, at version 1 and with no reserves, for
/// any fee up to 100%; a higher fee is refused.
pub proof fn law_initialize_market_behaviour(admin: Pubkey, fee_receiver: Pubkey, protocol_fee_bps: u16, bump: u8)
    ensures
        protocol_fee_bps <= 10_000 ==> initialize_market_outcome(admin, fee_receiver, protocol_fee_bps, bump)
            == Ok::<Market, BankErrorCodes>(Market {
                admin,
                fee_receiver,
                reserves_count: 0,
                protocol_fee_bps,
                is_paused: false,
                version: 1,
                bump,
            }),
        protocol_fee_bps > 10_000 ==> initialize_market_outcome(admin, fee_receiver, protocol_fee_bps, bump)
            == Err::<Market, BankErrorCodes>(BankErrorCodes::InvalidProtocolFee),
{
}

/// The market's administrator sets the pause switch to the value asked for
/// and changes nothing else; anyone else is refused.
pub proof fn law_pause_behaviour(market: Market, admin: Pubkey, is_paused: bool)
    ensures
        market.admin@ == admin@ ==> pause_outcome(market, admin, is_paused) == Ok::<Market, BankErrorCodes>(
            Market { is_paused, ..market },
        ),
        market.admin@ != admin@ ==> pause_outcome(market, admin, is_paused) == Err::<Market, BankErrorCodes>(
            BankErrorCodes::Unauthorized,
        ),
{
}

/// The market's administrator creates an empty, unlimited bank for the mint
/// and vault given; anyone else is refused.
pub proof fn law_create_bank_behaviour(
    market: Market,
    market_key: Pubkey,
    admin: Pubkey,
    mint: Pubkey,
    bank_vault: Pubkey,
    bank_bump: u8,
    vault_bump: u8,
)
    ensures
        market.admin@ == admin@ ==> create_bank_outcome(market, market_key, admin, mint, bank_vault, bank_bump, vault_bump)
            == Ok::<Bank, BankErrorCodes>(Bank {
                market: market_key,
                mint,
                vault: bank_vault,
                total_deposits: 0,
                total_borrows: 0,
                deposit_limit: 0,
                bump: bank_bump,
                vault_bump,
            }),
        market.admin@ != admin@ ==> create_bank_outcome(market, market_key, admin, mint, bank_vault, bank_bump, vault_bump)
            == Err::<Bank, BankErrorCodes>(BankErrorCodes::Unauthorized),
{
}

/// A deposit of a positive amount into an unpaused market succeeds when the
/// bank's total stays within its limit (if it has one) and the largest
/// `u64`, and, for a token deposit, the three token accounts are given; it
/// adds the amount to the bank's total, changes nothing else, and routes SOL
/// through the system program and tokens through the token program.
pub proof fn law_bank_deposit_behaviour(
    market: Market,
    bank: Bank,
    amount: u64,
    currency: Currency,
    has_user_token_account: bool,
    has_bank_vault: bool,
    has_token_program: bool,
)
    ensures
        amount == 0 ==> bank_deposit_outcome(market, bank, amount, currency, has_user_token_account, has_bank_vault, has_token_program)
            == Err::<(Bank, DepositRoute), BankErrorCodes>(BankErrorCodes::InvalidAmount),
        amount > 0 && market.is_paused ==> bank_deposit_outcome(market, bank, amount, currency, has_user_token_account, has_bank_vault, has_token_program)
            == Err::<(Bank, DepositRoute), BankErrorCodes>(BankErrorCodes::MarketPaused),
        amount > 0 && !market.is_paused && bank.deposit_limit > 0 && bank.total_deposits + amount > bank.deposit_limit
            && bank.deposit_limit < u64::MAX
            ==> bank_deposit_outcome(market, bank, amount, currency, has_user_token_account, has_bank_vault, has_token_program)
            == Err::<(Bank, DepositRoute), BankErrorCodes>(BankErrorCodes::DepositLimitExceeded),
        amount > 0 && !market.is_paused && bank.total_deposits + amount <= u64::MAX
            && (bank.deposit_limit == 0 || bank.total_deposits + amount <= bank.deposit_limit)
            && (currency == Currency::Sol || (has_user_token_account && has_bank_vault && has_token_program))
            ==> bank_deposit_outcome(market, bank, amount, currency, has_user_token_account, has_bank_vault, has_token_program)
            == Ok::<(Bank, DepositRoute), BankErrorCodes>((
                Bank { total_deposits: (bank.total_deposits + amount) as u64, ..bank },
                if currency == Currency::Sol { DepositRoute::SystemTransfer } else { DepositRoute::TokenTransfer },
            )),
        bank_deposit_outcome(market, bank, amount, currency, has_user_token_account, has_bank_vault, has_token_program) is Ok
            ==> amount > 0 && !market.is_paused && bank.total_deposits + amount <= u64::MAX
            && (bank.deposit_limit == 0 || bank.total_deposits + amount <= bank.deposit_limit),
{
}

/// A token deposit with the user's own token account and the bank's own
/// vault, of a positive amount into an unpaused market, succeeds unless a
/// total would pass the largest `u64`, whatever the user has deposited
/// before (nothing included); it adds the amount to the bank's total and to
/// the user's deposit and changes nothing else.
pub proof fn law_spl_deposit_behaviour(
    market: Market,
    bank: Bank,
    bank_key: Pubkey,
    user_deposit: UserDeposit,
    user: Pubkey,
    user_token_owner: Pubkey,
    bank_vault_owner: Pubkey,
    amount: u64,
)
    ensures
        user_token_owner@ != user@ || bank_vault_owner@ != bank_key@ ==> spl_deposit_outcome(market, bank, bank_key, user_deposit, user, user_token_owner, bank_vault_owner, amount)
            == Err::<(Bank, UserDeposit), BankErrorCodes>(BankErrorCodes::SPLBankCheckError),
        user_token_owner@ == user@ && bank_vault_owner@ == bank_key@ ==> {
            let outcome = spl_deposit_outcome(market, bank, bank_key, user_deposit, user, user_token_owner, bank_vault_owner, amount);
            &&& amount == 0 ==> outcome == Err::<(Bank, UserDeposit), BankErrorCodes>(BankErrorCodes::InvalidAmount)
            &&& amount > 0 && market.is_paused ==> outcome == Err::<(Bank, UserDeposit), BankErrorCodes>(BankErrorCodes::MarketPaused)
            &&& amount > 0 && !market.is_paused && (bank.total_deposits + amount > u64::MAX || user_deposit.amount + amount > u64::MAX)
                ==> outcome == Err::<(Bank, UserDeposit), BankErrorCodes>(BankErrorCodes::MathOverflow)
            &&& amount > 0 && !market.is_paused && bank.total_deposits + amount <= u64::MAX && user_deposit.amount + amount <= u64::MAX
                ==> outcome == Ok::<(Bank, UserDeposit), BankErrorCodes>((
                    Bank { total_deposits: (bank.total_deposits + amount) as u64, ..bank },
                    UserDeposit { amount: (user_deposit.amount + amount) as u64, ..user_deposit },
                ))
        },
{
}

/// Recording a SOL deposit succeeds unless a total would pass the largest
/// `u64`: the bank's total grows by the amount; an uninitialized user
/// deposit becomes the user's, for the bank's mint, holding the amount;
/// an initialized one grows by the amount and keeps everything else.
pub proof fn law_sol_deposit_behaviour(bank: Bank, user_deposit: UserDeposit, user: Pubkey, bump: u8, amount: u64)
    ensures
        user_deposit.user@ == zero_key() && bank.total_deposits + amount <= u64::MAX ==> sol_deposit_outcome(bank, user_deposit, user, bump, amount)
            == Ok::<(Bank, UserDeposit), BankErrorCodes>((
                Bank { total_deposits: (bank.total_deposits + amount) as u64, ..bank },
                UserDeposit { user, mint: bank.mint, bump, amount },
            )),
        user_deposit.user@ != zero_key() && bank.total_deposits + amount <= u64::MAX && user_deposit.amount + amount <= u64::MAX
            ==> sol_deposit_outcome(bank, user_deposit, user, bump, amount) == Ok::<(Bank, UserDeposit), BankErrorCodes>((
                Bank { total_deposits: (bank.total_deposits + amount) as u64, ..bank },
                UserDeposit { amount: (user_deposit.amount + amount) as u64, ..user_deposit },
            )),
        bank.total_deposits + amount > u64::MAX || (user_deposit.user@ != zero_key() && user_deposit.amount + amount > u64::MAX)
            ==> sol_deposit_outcome(bank, user_deposit, user, bump, amount) == Err::<(Bank, UserDeposit), BankErrorCodes>(
            BankErrorCodes::MathOverflow,
        ),
{
}

/// The user deposit account is accepted exactly when the address search
/// found an address and the account is at it; the bump is the one found.
pub proof fn law_user_deposit_account_behaviour(found: Option<(Seq<u8>, u8)>, key: Seq<u8>, data_is_empty: bool)
    ensures
        found is None ==> user_deposit_account_outcome(found, key, data_is_empty) == Err::<UserDepositAccount, BankErrorCodes>(BankErrorCodes::Unauthorized),
        found matches Some((address, bump)) ==> {
            &&& key == address ==> user_deposit_account_outcome(found, key, data_is_empty) == Ok::<UserDepositAccount, BankErrorCodes>(
                UserDepositAccount { bump, needs_creation: data_is_empty },
            )
            &&& key != address ==> user_deposit_account_outcome(found, key, data_is_empty) == Err::<UserDepositAccount, BankErrorCodes>(
                BankErrorCodes::Unauthorized,
            )
        },
{
}

/// A SOL deposit of a positive amount into an unpaused market, into the
/// user's deposit account at the address found from the seeds
/// `user_deposit`, market and user, succeeds unless a total would pass the
/// largest `u64`: the bank's total grows by the amount and the user deposit
/// is set up or grows as `law_sol_deposit_behaviour` says, with the bump found.
pub proof fn law_deposit_sol_behaviour(
    market: Market,
    market_key: Pubkey,
    bank: Bank,
    user: Pubkey,
    program_id: Pubkey,
    user_deposit_key: Pubkey,
    user_deposit_data_is_empty: bool,
    user_deposit: UserDeposit,
    amount: u64,
)
    ensures
        ({
            let outcome = deposit_sol_outcome(market, market_key, bank, user, program_id, user_deposit_key, user_deposit_data_is_empty, user_deposit, amount);
            let found = program_address_search(user_deposit_seeds(market_key@, user@), program_id@);
            &&& amount == 0 ==> outcome == Err::<(Bank, UserDeposit, UserDepositAccount), BankErrorCodes>(BankErrorCodes::InvalidAmount)
            &&& amount > 0 && market.is_paused ==> outcome == Err::<(Bank, UserDeposit, UserDepositAccount), BankErrorCodes>(BankErrorCodes::MarketPaused)
            &&& amount > 0 && !market.is_paused && (found is None || found->Some_0.0 != user_deposit_key@)
                ==> outcome == Err::<(Bank, UserDeposit, UserDepositAccount), BankErrorCodes>(BankErrorCodes::Unauthorized)
            &&& amount > 0 && !market.is_paused && found is Some && found->Some_0.0 == user_deposit_key@
                && bank.total_deposits + amount <= u64::MAX
                && (user_deposit.user@ == zero_key() || user_deposit.amount + amount <= u64::MAX)
                ==> (outcome matches Ok((b1, d1, account)) && {
                    &&& account == (UserDepositAccount { bump: found->Some_0.1, needs_creation: user_deposit_data_is_empty })
                    &&& b1 == (Bank { total_deposits: (bank.total_deposits + amount) as u64, ..bank })
                    &&& user_deposit.user@ == zero_key() ==> d1 == (UserDeposit { user, mint: bank.mint, bump: found->Some_0.1, amount })
                    &&& user_deposit.user@ != zero_key() ==> d1 == (UserDeposit { amount: (user_deposit.amount + amount) as u64, ..user_deposit })
                })
        }),
{
}

} // verus!
