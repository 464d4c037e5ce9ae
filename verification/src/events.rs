use vstd::prelude::*;

use crate::ids::AccountId;

verus! {

/// Notification: a pool record was created (step one of initialization).
#[derive(Clone, Copy, PartialEq, Eq, Structural, Debug)]
pub struct PoolInitialized {
    pub pool: AccountId,
    pub admin_authority: AccountId,
    pub oracle_authority: AccountId,
    pub fee_collector: AccountId,
    pub usdc_mint: AccountId,
    pub ipt_mint: AccountId,
    pub initial_exchange_rate: u64,
    pub timestamp: i64,
}

/// Notification: a user deposit was executed. `usdc_amount` is the gross
/// amount pulled in, fee included.
#[derive(Clone, Copy, PartialEq, Eq, Structural, Debug)]
pub struct UserDepositExecuted {
    pub user: AccountId,
    pub pool: AccountId,
    pub usdc_amount: u64,
    pub ipt_amount: u64,
    pub deposit_fee: u64,
    pub exchange_rate: u64,
    pub new_ipt_supply: u64,
    pub new_reserves: u64,
    pub timestamp: i64,
}

/// Notification: an immediate withdrawal was executed. `usdc_amount` is the
/// net amount paid out, after the fee.
#[derive(Clone, Copy, PartialEq, Eq, Structural, Debug)]
pub struct UserWithdrawalExecuted {
    pub user: AccountId,
    pub pool: AccountId,
    pub ipt_amount: u64,
    pub usdc_amount: u64,
    pub withdrawal_fee: u64,
    pub exchange_rate: u64,
    pub new_ipt_supply: u64,
    pub new_reserves: u64,
    pub timestamp: i64,
}

/// Notification: the admin moved reserve currency into the pool.
#[derive(Clone, Copy, PartialEq, Eq, Structural, Debug)]
pub struct AdminDepositExecuted {
    pub admin: AccountId,
    pub pool: AccountId,
    pub amount: u64,
    pub new_reserves: u64,
    pub timestamp: i64,
}

/// Notification: the admin moved reserve currency out of the pool.
#[derive(Clone, Copy, PartialEq, Eq, Structural, Debug)]
pub struct AdminWithdrawExecuted {
    pub admin: AccountId,
    pub pool: AccountId,
    pub amount: u64,
    pub remaining_reserves: u64,
    pub timestamp: i64,
}

/// Notification: the fee collector withdrew accumulated fees.
#[derive(Clone, Copy, PartialEq, Eq, Structural, Debug)]
pub struct FeeCollectorWithdrawExecuted {
    pub fee_collector: AccountId,
    pub pool: AccountId,
    pub amount: u64,
    pub remaining_accumulated_fees: u64,
    pub timestamp: i64,
}

/// Notification: the oracle updated the exchange rate.
#[derive(Clone, Copy, PartialEq, Eq, Structural, Debug)]
pub struct ExchangeRateUpdated {
    pub oracle: AccountId,
    pub pool: AccountId,
    pub old_rate: u64,
    pub new_rate: u64,
    pub timestamp: i64,
}

/// Notification: one configuration field changed, with its old and new
/// values rendered as text for audit purposes.
#[derive(Clone, PartialEq, Eq, Debug)]
pub struct PoolConfigUpdated {
    pub admin: AccountId,
    pub pool: AccountId,
    pub config_field: String,
    pub old_value: String,
    pub new_value: String,
    pub timestamp: i64,
}

/// Notification: a user announced a withdrawal and the proceeds it expects.
#[derive(Clone, Copy, PartialEq, Eq, Structural, Debug)]
pub struct UserWithdrawalRequested {
    pub user: AccountId,
    pub pool: AccountId,
    pub ipt_amount: u64,
    pub expected_usdc_amount: u64,
    pub expected_withdrawal_fee: u64,
    pub min_usdc_amount: u64,
    pub exchange_rate: u64,
    pub timestamp: i64,
}

/// Notification: a withdrawal was queued instead of executed.
#[derive(Clone, Copy, PartialEq, Eq, Structural, Debug)]
pub struct AddedToQueue {
    pub user: AccountId,
    pub amount: u64,
    pub position: u32,
}

/// Notification: one queued withdrawal was executed during a batch.
#[derive(Clone, Copy, PartialEq, Eq, Structural, Debug)]
pub struct WithdrawExecuted {
    pub user: AccountId,
    pub ipt_amount: u64,
    pub usdc_amount: u64,
    pub withdrawal_fee: u64,
    pub batch_index: u8,
}

/// Notification: a batch run finished, with its aggregate effect.
#[derive(Clone, Copy, PartialEq, Eq, Structural, Debug)]
pub struct BatchWithdrawExecuted {
    pub executor: AccountId,
    pub successful_count: u8,
    pub skipped_count: u8,
    pub total_ipt_burned: u64,
    pub total_usdc_transferred: u64,
    pub total_fees: u64,
    pub new_pool_reserves: u64,
    pub timestamp: i64,
}

/// Notification: one queued withdrawal was skipped and removed during a
/// batch, with the reason rendered as text.
#[derive(Clone, PartialEq, Eq, Debug)]
pub struct WithdrawSkipped {
    pub user: AccountId,
    pub ipt_amount: u64,
    pub reason: String,
    pub batch_index: u8,
}

/// Notification: a user cancelled their pending withdrawal request.
#[derive(Clone, Copy, PartialEq, Eq, Structural, Debug)]
pub struct WithdrawalCancelled {
    pub user: AccountId,
    pub ipt_amount: u64,
    pub position: u32,
    pub timestamp: i64,
}

} // verus!
