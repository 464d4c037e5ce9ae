use vstd::prelude::*;

use crate::errors::PoolError;
use crate::events::AdminWithdrawExecuted;
use crate::ids::AccountId;
use crate::states::{same_pool_but_ledger, Pool};

verus! {

/// The exact outcome of an admin withdrawal of `amount` from the reserve.
/// The liquidity check is against the custody layer's actual balance, the
/// subtraction against the recorded one; when the two have drifted apart the
/// subtraction can still underflow and the operation fails.
pub open spec fn admin_withdraw_outcome(
    pool: Pool,
    admin: AccountId,
    amount: u64,
    actual_reserve_balance: u64,
    now: i64,
) -> Result<AdminWithdrawExecuted, PoolError> {
    if admin != pool.config.admin_authority {
        Err(PoolError::UnauthorizedAdmin)
    } else if amount == 0 {
        Err(PoolError::ZeroAmountNotAllowed)
    } else if actual_reserve_balance < amount {
        Err(PoolError::InsufficientReserves)
    } else if pool.total_usdc_reserves < amount {
        Err(PoolError::MathematicalUnderflow)
    } else {
        Ok(AdminWithdrawExecuted {
            admin,
            pool: pool.pool_authority,
            amount,
            remaining_reserves: (pool.total_usdc_reserves - amount) as u64,
            timestamp: now,
        })
    }
}

/// Admin moves `amount` of reserve currency out of the pool's custody; only
/// the recorded reserve balance shrinks. Gated on the admin identity. The
/// custody layer must transfer `amount` exactly when this returns Ok.
pub fn admin_withdraw_usdc(
    pool: &mut Pool,
    admin: AccountId,
    amount: u64,
    actual_reserve_balance: u64,
    now: i64,
) -> (r: Result<AdminWithdrawExecuted, PoolError>)
    requires
        old(pool).wf(),
    ensures
        final(pool).wf(),
        r == admin_withdraw_outcome(*old(pool), admin, amount, actual_reserve_balance, now),
        r is Err ==> *final(pool) == *old(pool),
        r is Ok ==> {
            &&& same_pool_but_ledger(*old(pool), *final(pool))
            &&& final(pool).pending_queue@ == old(pool).pending_queue@
            &&& final(pool).total_ipt_supply == old(pool).total_ipt_supply
            &&& final(pool).total_accumulated_fees == old(pool).total_accumulated_fees
            &&& final(pool).total_usdc_reserves == old(pool).total_usdc_reserves - amount
        },
{
    if !(admin == pool.config.admin_authority) {
        return Err(PoolError::UnauthorizedAdmin);
    }
    if amount == 0 {
        return Err(PoolError::ZeroAmountNotAllowed);
    }
    if actual_reserve_balance < amount {
        return Err(PoolError::InsufficientReserves);
    }
    let new_reserves = match pool.total_usdc_reserves.checked_sub(amount) {
        Some(v) => v,
        None => return Err(PoolError::MathematicalUnderflow),
    };
    pool.total_usdc_reserves = new_reserves;
    Ok(AdminWithdrawExecuted {
        admin,
        pool: pool.pool_authority,
        amount,
        remaining_reserves: new_reserves,
        timestamp: now,
    })
}

} // verus!
