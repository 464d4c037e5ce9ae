use vstd::prelude::*;

use crate::calculation_utils::{spec_fee, spec_shares_from_net, CalculationUtils};
use crate::errors::PoolError;
use crate::events::UserDepositExecuted;
use crate::ids::AccountId;
use crate::states::{same_pool_but_ledger, Pool};
use crate::validation_utils::{state_allows, state_error, ValidationUtils};

verus! {

/// The exact outcome of a deposit of `net_usdc_amount` against `pool`, for a
/// user whose reserve-currency balance is `user_usdc_balance`: either the
/// executed-deposit notification, or the first failing check's error.
pub open spec fn deposit_outcome(
    pool: Pool,
    user: AccountId,
    net_usdc_amount: u64,
    min_ipt_amount: u64,
    user_usdc_balance: u64,
    now: i64,
) -> Result<UserDepositExecuted, PoolError> {
    let rate = pool.current_exchange_rate as int;
    let net = net_usdc_amount as int;
    let fee = spec_fee(net, pool.config.deposit_fee_bps as int);
    let gross = net + fee;
    let shares = spec_shares_from_net(net, rate);
    if !state_allows(pool.pool_state, true) {
        Err(state_error(pool.pool_state, true))
    } else if net_usdc_amount == 0 {
        Err(PoolError::InvalidAmount)
    } else if net * pool.config.deposit_fee_bps > u64::MAX {
        Err(PoolError::MathematicalOverflow)
    } else if gross > u64::MAX {
        Err(PoolError::MathematicalOverflow)
    } else if net * 1_000_000 > u64::MAX {
        Err(PoolError::MathematicalOverflow)
    } else if rate == 0 {
        Err(PoolError::DivisionByZero)
    } else if user_usdc_balance < gross {
        Err(PoolError::InsufficientAccountBalance)
    } else if shares < min_ipt_amount {
        Err(PoolError::SlippageExceeded)
    } else if pool.max_total_supply > 0 && pool.total_ipt_supply + shares > u64::MAX {
        Err(PoolError::MathematicalOverflow)
    } else if pool.max_total_supply > 0 && pool.total_ipt_supply + shares
        > pool.max_total_supply {
        Err(PoolError::MaxTotalSupplyExceeded)
    } else if pool.total_ipt_supply + shares > u64::MAX {
        Err(PoolError::MathematicalOverflow)
    } else if pool.total_usdc_reserves + gross > u64::MAX {
        Err(PoolError::MathematicalOverflow)
    } else if pool.total_accumulated_fees + fee > u64::MAX {
        Err(PoolError::MathematicalOverflow)
    } else {
        Ok(UserDepositExecuted {
            user,
            pool: pool.pool_authority,
            usdc_amount: gross as u64,
            ipt_amount: shares as u64,
            deposit_fee: fee as u64,
            exchange_rate: pool.current_exchange_rate,
            new_ipt_supply: (pool.total_ipt_supply + shares) as u64,
            new_reserves: (pool.total_usdc_reserves + gross) as u64,
            timestamp: now,
        })
    }
}

/// Deposit `net_usdc_amount` of reserve currency: the user is credited shares
/// for the net amount, pays the deposit fee on top of it, and the ledger
/// records the gross inflow. The custody layer must pull in the gross amount
/// and mint `ipt_amount` shares exactly when this returns Ok; on Err nothing
/// changed.
pub fn user_deposit(
    pool: &mut Pool,
    user: AccountId,
    net_usdc_amount: u64,
    min_ipt_amount: u64,
    user_usdc_balance: u64,
    now: i64,
) -> (r: Result<UserDepositExecuted, PoolError>)
    requires
        old(pool).wf(),
    ensures
        final(pool).wf(),
        r == deposit_outcome(
            *old(pool),
            user,
            net_usdc_amount,
            min_ipt_amount,
            user_usdc_balance,
            now,
        ),
        r is Err ==> *final(pool) == *old(pool),
        r is Ok ==> {
            let event = r->Ok_0;
            &&& same_pool_but_ledger(*old(pool), *final(pool))
            &&& final(pool).pending_queue@ == old(pool).pending_queue@
            &&& final(pool).total_ipt_supply == old(pool).total_ipt_supply + event.ipt_amount
            &&& final(pool).total_usdc_reserves == old(pool).total_usdc_reserves
                + event.usdc_amount
            &&& final(pool).total_accumulated_fees == old(pool).total_accumulated_fees
                + event.deposit_fee
        },
{
    match ValidationUtils::validate_pool_state_for_operation(&pool.pool_state, true) {
        Ok(()) => {},
        Err(e) => return Err(e),
    }
    if net_usdc_amount == 0 {
        return Err(PoolError::InvalidAmount);
    }
    let (ipt_amount, deposit_fee, gross_usdc_amount) =
        match CalculationUtils::calculate_ipt_from_net_usdc_deposit(
        net_usdc_amount,
        pool.current_exchange_rate,
        pool.config.deposit_fee_bps,
    ) {
        Ok(t) => t,
        Err(e) => return Err(e),
    };
    if user_usdc_balance < gross_usdc_amount {
        return Err(PoolError::InsufficientAccountBalance);
    }
    if ipt_amount < min_ipt_amount {
        return Err(PoolError::SlippageExceeded);
    }
    if pool.max_total_supply > 0 {
        let new_total_supply = match pool.total_ipt_supply.checked_add(ipt_amount) {
            Some(v) => v,
            None => return Err(PoolError::MathematicalOverflow),
        };
        if new_total_supply > pool.max_total_supply {
            return Err(PoolError::MaxTotalSupplyExceeded);
        }
    }
    let new_ipt_supply = match pool.total_ipt_supply.checked_add(ipt_amount) {
        Some(v) => v,
        None => return Err(PoolError::MathematicalOverflow),
    };
    let new_reserves = match pool.total_usdc_reserves.checked_add(gross_usdc_amount) {
        Some(v) => v,
        None => return Err(PoolError::MathematicalOverflow),
    };
    let new_fees = match pool.total_accumulated_fees.checked_add(deposit_fee) {
        Some(v) => v,
        None => return Err(PoolError::MathematicalOverflow),
    };
    pool.total_ipt_supply = new_ipt_supply;
    pool.total_usdc_reserves = new_reserves;
    pool.total_accumulated_fees = new_fees;
    Ok(UserDepositExecuted {
        user,
        pool: pool.pool_authority,
        usdc_amount: gross_usdc_amount,
        ipt_amount,
        deposit_fee,
        exchange_rate: pool.current_exchange_rate,
        new_ipt_supply,
        new_reserves,
        timestamp: now,
    })
}

} // verus!
