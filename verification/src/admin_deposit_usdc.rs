use vstd::prelude::*;

use crate::errors::PoolError;
use crate::events::AdminDepositExecuted;
use crate::ids::AccountId;
use crate::states::{same_pool_but_ledger, Pool};

verus! {

/// The exact outcome of an admin deposit of `amount` into the reserve.
pub open spec fn admin_deposit_outcome(
    pool: Pool,
    admin: AccountId,
    amount: u64,
    admin_usdc_balance: u64,
    now: i64,
) -> Result<AdminDepositExecuted, PoolError> {
    if admin != pool.config.admin_authority {
        Err(PoolError::UnauthorizedAdmin)
    } else if amount == 0 {
        Err(PoolError::ZeroAmountNotAllowed)
    } else if admin_usdc_balance < amount {
        Err(PoolError::InsufficientAccountBalance)
    } else if pool.total_usdc_reserves + amount > u64::MAX {
        Err(PoolError::MathematicalOverflow)
    } else {
        Ok(AdminDepositExecuted {
            admin,
            pool: pool.pool_authority,
            amount,
            new_reserves: (pool.total_usdc_reserves + amount) as u64,
            timestamp: now,
        })
    }
}

/// Admin moves `amount` of reserve currency into the pool's custody; only the
/// recorded reserve balance grows. Gated on the admin identity. The custody
/// layer must transfer `amount` exactly when this returns Ok.
pub fn admin_deposit_usdc(
    pool: &mut Pool,
    admin: AccountId,
    amount: u64,
    admin_usdc_balance: u64,
    now: i64,
) -> (r: Result<AdminDepositExecuted, PoolError>)
    requires
        old(pool).wf(),
    ensures
        final(pool).wf(),
        r == admin_deposit_outcome(*old(pool), admin, amount, admin_usdc_balance, now),
        r is Err ==> *final(pool) == *old(pool),
        r is Ok ==> {
            &&& same_pool_but_ledger(*old(pool), *final(pool))
            &&& final(pool).pending_queue@ == old(pool).pending_queue@
            &&& final(pool).total_ipt_supply == old(pool).total_ipt_supply
            &&& final(pool).total_accumulated_fees == old(pool).total_accumulated_fees
            &&& final(pool).total_usdc_reserves == old(pool).total_usdc_reserves + amount
        },
{
    if !(admin == pool.config.admin_authority) {
        return Err(PoolError::UnauthorizedAdmin);
    }
    if amount == 0 {
        return Err(PoolError::ZeroAmountNotAllowed);
    }
    if admin_usdc_balance < amount {
        return Err(PoolError::InsufficientAccountBalance);
    }
    let new_reserves = match pool.total_usdc_reserves.checked_add(amount) {
        Some(v) => v,
        None => return Err(PoolError::MathematicalOverflow),
    };
    pool.total_usdc_reserves = new_reserves;
    Ok(AdminDepositExecuted {
        admin,
        pool: pool.pool_authority,
        amount,
        new_reserves,
        timestamp: now,
    })
}

} // verus!
