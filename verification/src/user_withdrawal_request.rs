use vstd::prelude::*;

use crate::calculation_utils::{spec_fee, spec_gross_from_shares, CalculationUtils};
use crate::errors::PoolError;
use crate::events::UserWithdrawalRequested;
use crate::ids::AccountId;
use crate::states::Pool;
use crate::validation_utils::{state_allows, state_error, ValidationUtils};

verus! {

/// The exact outcome of announcing a withdrawal of `net_ipt_amount` shares:
/// the same guards as a real withdrawal, plus a check that the pool authority
/// already holds a sufficient delegated-burn grant, and the proceeds the user
/// would get at the current rate. Nothing is mutated.
pub open spec fn withdrawal_request_outcome(
    pool: Pool,
    user: AccountId,
    net_ipt_amount: u64,
    min_usdc_amount: u64,
    user_ipt_balance: u64,
    delegated_amount: u64,
    delegate: Option<AccountId>,
    now: i64,
) -> Result<UserWithdrawalRequested, PoolError> {
    let rate = pool.current_exchange_rate as int;
    let gross = spec_gross_from_shares(net_ipt_amount as int, rate);
    let fee = spec_fee(gross, pool.config.withdrawal_fee_bps as int);
    let net = gross - fee;
    if !state_allows(pool.pool_state, false) {
        Err(state_error(pool.pool_state, false))
    } else if net_ipt_amount == 0 {
        Err(PoolError::InvalidAmount)
    } else if user_ipt_balance < net_ipt_amount {
        Err(PoolError::InsufficientAccountBalance)
    } else if delegated_amount < net_ipt_amount {
        Err(PoolError::InsufficientApproval)
    } else if delegate != Some(pool.pool_authority) {
        Err(PoolError::InvalidDelegate)
    } else if net_ipt_amount * rate > u64::MAX {
        Err(PoolError::MathematicalOverflow)
    } else if gross * pool.config.withdrawal_fee_bps > u64::MAX {
        Err(PoolError::MathematicalOverflow)
    } else if fee > gross {
        Err(PoolError::MathematicalUnderflow)
    } else if net < min_usdc_amount {
        Err(PoolError::SlippageExceeded)
    } else {
        Ok(UserWithdrawalRequested {
            user,
            pool: pool.pool_authority,
            ipt_amount: net_ipt_amount,
            expected_usdc_amount: net as u64,
            expected_withdrawal_fee: fee as u64,
            min_usdc_amount,
            exchange_rate: pool.current_exchange_rate,
            timestamp: now,
        })
    }
}

/// Read-only announcement of an intended withdrawal, for schedulers that
/// observe demand before the batch processor runs. Validates balance, the
/// pre-authorized delegated-burn grant (`delegate`, `delegated_amount` as the
/// custody layer shows them on the user's share account) and slippage, and
/// reports the expected proceeds; mutates nothing and does not enqueue.
pub fn user_withdrawal_request(
    pool: &Pool,
    user: AccountId,
    net_ipt_amount: u64,
    min_usdc_amount: u64,
    user_ipt_balance: u64,
    delegated_amount: u64,
    delegate: Option<AccountId>,
    now: i64,
) -> (r: Result<UserWithdrawalRequested, PoolError>)
    requires
        pool.wf(),
    ensures
        r == withdrawal_request_outcome(
            *pool,
            user,
            net_ipt_amount,
            min_usdc_amount,
            user_ipt_balance,
            delegated_amount,
            delegate,
            now,
        ),
{
    match ValidationUtils::validate_pool_state_for_operation(&pool.pool_state, false) {
        Ok(()) => {},
        Err(e) => return Err(e),
    }
    if net_ipt_amount == 0 {
        return Err(PoolError::InvalidAmount);
    }
    if user_ipt_balance < net_ipt_amount {
        return Err(PoolError::InsufficientAccountBalance);
    }
    if delegated_amount < net_ipt_amount {
        return Err(PoolError::InsufficientApproval);
    }
    let delegate_ok = match delegate {
        Some(d) => d == pool.pool_authority,
        None => false,
    };
    if !delegate_ok {
        return Err(PoolError::InvalidDelegate);
    }
    let (expected_net_usdc_amount, withdrawal_fee) =
        match CalculationUtils::calculate_usdc_from_net_ipt_withdrawal(
        net_ipt_amount,
        pool.current_exchange_rate,
        pool.config.withdrawal_fee_bps,
    ) {
        Ok(t) => t,
        Err(e) => return Err(e),
    };
    if expected_net_usdc_amount < min_usdc_amount {
        return Err(PoolError::SlippageExceeded);
    }
    Ok(UserWithdrawalRequested {
        user,
        pool: pool.pool_authority,
        ipt_amount: net_ipt_amount,
        expected_usdc_amount: expected_net_usdc_amount,
        expected_withdrawal_fee: withdrawal_fee,
        min_usdc_amount,
        exchange_rate: pool.current_exchange_rate,
        timestamp: now,
    })
}

} // verus!
