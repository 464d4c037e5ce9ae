use vstd::prelude::*;

use crate::errors::PoolError;
use crate::events::FeeCollectorWithdrawExecuted;
use crate::ids::AccountId;
use crate::states::{same_pool_but_ledger, Pool};

verus! {

/// The exact outcome of a fee withdrawal of `amount`: it must be covered both
/// by the accumulated fees and by the custody layer's actual balance, and it
/// decrements both the fee total and the recorded reserve balance.
pub open spec fn fee_collector_withdraw_outcome(
    pool: Pool,
    fee_collector: AccountId,
    amount: u64,
    actual_reserve_balance: u64,
    now: i64,
) -> Result<FeeCollectorWithdrawExecuted, PoolError> {
    if fee_collector != pool.config.fee_collector {
        Err(PoolError::UnauthorizedFeeCollector)
    } else if amount == 0 {
        Err(PoolError::ZeroAmountNotAllowed)
    } else if pool.total_accumulated_fees < amount {
        Err(PoolError::InsufficientAccumulatedFees)
    } else if actual_reserve_balance < amount {
        Err(PoolError::InsufficientReserves)
    } else if pool.total_usdc_reserves < amount {
        Err(PoolError::MathematicalUnderflow)
    } else {
        Ok(FeeCollectorWithdrawExecuted {
            fee_collector,
            pool: pool.pool_authority,
            amount,
            remaining_accumulated_fees: (pool.total_accumulated_fees - amount) as u64,
            timestamp: now,
        })
    }
}

/// The fee collector withdraws `amount` out of the accumulated fees. Gated on
/// the fee-collector identity. The custody layer must transfer `amount`
/// exactly when this returns Ok.
pub fn fee_collector_withdraw(
    pool: &mut Pool,
    fee_collector: AccountId,
    amount: u64,
    actual_reserve_balance: u64,
    now: i64,
) -> (r: Result<FeeCollectorWithdrawExecuted, PoolError>)
    requires
        old(pool).wf(),
    ensures
        final(pool).wf(),
        r == fee_collector_withdraw_outcome(
            *old(pool),
            fee_collector,
            amount,
            actual_reserve_balance,
            now,
        ),
        r is Err ==> *final(pool) == *old(pool),
        r is Ok ==> {
            &&& same_pool_but_ledger(*old(pool), *final(pool))
            &&& final(pool).pending_queue@ == old(pool).pending_queue@
            &&& final(pool).total_ipt_supply == old(pool).total_ipt_supply
            &&& final(pool).total_accumulated_fees == old(pool).total_accumulated_fees - amount
            &&& final(pool).total_usdc_reserves == old(pool).total_usdc_reserves - amount
        },
{
    if !(fee_collector == pool.config.fee_collector) {
        return Err(PoolError::UnauthorizedFeeCollector);
    }
    if amount == 0 {
        return Err(PoolError::ZeroAmountNotAllowed);
    }
    if pool.total_accumulated_fees < amount {
        return Err(PoolError::InsufficientAccumulatedFees);
    }
    if actual_reserve_balance < amount {
        return Err(PoolError::InsufficientReserves);
    }
    let new_fees = pool.total_accumulated_fees - amount;
    let new_reserves = match pool.total_usdc_reserves.checked_sub(amount) {
        Some(v) => v,
        None => return Err(PoolError::MathematicalUnderflow),
    };
    pool.total_accumulated_fees = new_fees;
    pool.total_usdc_reserves = new_reserves;
    Ok(FeeCollectorWithdrawExecuted {
        fee_collector,
        pool: pool.pool_authority,
        amount,
        remaining_accumulated_fees: new_fees,
        timestamp: now,
    })
}

} // verus!
