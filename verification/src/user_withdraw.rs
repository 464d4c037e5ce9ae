use vstd::prelude::*;

use crate::calculation_utils::{spec_fee, spec_gross_from_shares, CalculationUtils};
use crate::errors::PoolError;
use crate::events::{AddedToQueue, UserWithdrawalExecuted};
use crate::ids::AccountId;
use crate::states::{same_pool_but_ledger, PendingWithdraw, Pool};
use crate::validation_utils::{state_allows, state_error, ValidationUtils};

verus! {

/// What a withdrawal did: paid out immediately, or joined the queue. When
/// queued, the custody layer must have delegated `amount` shares to the pool
/// authority (the handler requests that approval); when executed, it must
/// burn the shares and pay the net proceeds.
#[derive(Clone, Copy, PartialEq, Eq, Structural, Debug)]
pub enum WithdrawAction {
    /// Liquidity sufficed: shares burned, net proceeds paid now.
    Executed(UserWithdrawalExecuted),
    /// Liquidity did not suffice: the request waits in the queue.
    Queued(AddedToQueue),
}

/// The exact outcome of withdrawing `net_ipt_amount` shares against `pool`,
/// after the recorded reserve balance is resynchronized to the custody
/// layer's `actual_reserve_balance`.
pub open spec fn withdraw_outcome(
    pool: Pool,
    user: AccountId,
    net_ipt_amount: u64,
    min_usdc_amount: u64,
    user_ipt_balance: u64,
    actual_reserve_balance: u64,
    now: i64,
) -> Result<WithdrawAction, PoolError> {
    let rate = pool.current_exchange_rate as int;
    let gross = spec_gross_from_shares(net_ipt_amount as int, rate);
    let fee = spec_fee(gross, pool.config.withdrawal_fee_bps as int);
    let net = gross - fee;
    if !state_allows(pool.pool_state, false) {
        Err(state_error(pool.pool_state, false))
    } else if net_ipt_amount == 0 {
        Err(PoolError::InvalidAmount)
    } else if user_ipt_balance < net_ipt_amount {
        Err(PoolError::InsufficientAccountBalance)
    } else if net_ipt_amount * rate > u64::MAX {
        Err(PoolError::MathematicalOverflow)
    } else if gross * pool.config.withdrawal_fee_bps > u64::MAX {
        Err(PoolError::MathematicalOverflow)
    } else if fee > gross {
        Err(PoolError::MathematicalUnderflow)
    } else if net < min_usdc_amount {
        Err(PoolError::SlippageExceeded)
    } else if actual_reserve_balance >= gross {
        // A recorded supply below the burned amount surfaces as an overflow
        // error, not an underflow one.
        if pool.total_ipt_supply < net_ipt_amount {
            Err(PoolError::MathematicalOverflow)
        } else if pool.total_accumulated_fees + fee > u64::MAX {
            Err(PoolError::MathematicalOverflow)
        } else {
            Ok(WithdrawAction::Executed(UserWithdrawalExecuted {
                user,
                pool: pool.pool_authority,
                ipt_amount: net_ipt_amount,
                usdc_amount: net as u64,
                withdrawal_fee: fee as u64,
                exchange_rate: pool.current_exchange_rate,
                new_ipt_supply: (pool.total_ipt_supply - net_ipt_amount) as u64,
                new_reserves: (actual_reserve_balance - gross) as u64,
                timestamp: now,
            }))
        }
    } else if pool.pending_queue@.len() >= pool.config.max_queue_size {
        Err(PoolError::QueueFull)
    } else if pool.user_in_queue(user) {
        Err(PoolError::AlreadyInQueue)
    } else {
        Ok(WithdrawAction::Queued(AddedToQueue {
            user,
            amount: net_ipt_amount,
            position: pool.pending_queue@.len() as u32,
        }))
    }
}

/// Withdraw `net_ipt_amount` shares. The recorded reserve balance is first
/// resynchronized to the custody layer's actual balance (a designed repair
/// against out-of-band transfers; committed with the operation). If the
/// synced reserve covers the gross proceeds the withdrawal executes now,
/// otherwise the request is appended to the queue; either way the resync is
/// part of the committed state. On Err nothing changed, resync included.
#[verifier::loop_isolation(false)]
pub fn user_withdraw(
    pool: &mut Pool,
    user: AccountId,
    net_ipt_amount: u64,
    min_usdc_amount: u64,
    user_ipt_balance: u64,
    actual_reserve_balance: u64,
    now: i64,
) -> (r: Result<WithdrawAction, PoolError>)
    requires
        old(pool).wf(),
    ensures
        final(pool).wf(),
        r == withdraw_outcome(
            *old(pool),
            user,
            net_ipt_amount,
            min_usdc_amount,
            user_ipt_balance,
            actual_reserve_balance,
            now,
        ),
        r is Err ==> *final(pool) == *old(pool),
        r matches Ok(WithdrawAction::Executed(event)) ==> {
            &&& same_pool_but_ledger(*old(pool), *final(pool))
            &&& final(pool).pending_queue@ == old(pool).pending_queue@
            &&& final(pool).total_ipt_supply == old(pool).total_ipt_supply - event.ipt_amount
            &&& final(pool).total_usdc_reserves == actual_reserve_balance - event.usdc_amount
                - event.withdrawal_fee
            &&& final(pool).total_accumulated_fees == old(pool).total_accumulated_fees
                + event.withdrawal_fee
        },
        r matches Ok(WithdrawAction::Queued(event)) ==> {
            &&& same_pool_but_ledger(*old(pool), *final(pool))
            &&& final(pool).total_ipt_supply == old(pool).total_ipt_supply
            &&& final(pool).total_accumulated_fees == old(pool).total_accumulated_fees
            &&& final(pool).total_usdc_reserves == actual_reserve_balance
            &&& final(pool).pending_queue@ == old(pool).pending_queue@.push(
                PendingWithdraw { user, amount: net_ipt_amount, min_usdc_amount },
            )
        },
{
    match ValidationUtils::validate_pool_state_for_operation(&pool.pool_state, false) {
        Ok(()) => {},
        Err(e) => return Err(e),
    }
    if net_ipt_amount == 0 {
        return Err(PoolError::InvalidAmount);
    }
    if user_ipt_balance < net_ipt_amount {
        return Err(PoolError::InsufficientAccountBalance);
    }
    let (net_usdc_amount, withdrawal_fee) =
        match CalculationUtils::calculate_usdc_from_net_ipt_withdrawal(
        net_ipt_amount,
        pool.current_exchange_rate,
        pool.config.withdrawal_fee_bps,
    ) {
        Ok(t) => t,
        Err(e) => return Err(e),
    };
    if net_usdc_amount < min_usdc_amount {
        return Err(PoolError::SlippageExceeded);
    }
    // net + fee == gross <= u64::MAX, so this addition cannot overflow.
    let gross_usdc_amount = net_usdc_amount + withdrawal_fee;
    if actual_reserve_balance >= gross_usdc_amount {
        let new_ipt_supply = match pool.total_ipt_supply.checked_sub(net_ipt_amount) {
            Some(v) => v,
            None => return Err(PoolError::MathematicalOverflow),
        };
        let new_reserves = actual_reserve_balance - gross_usdc_amount;
        let new_fees = match pool.total_accumulated_fees.checked_add(withdrawal_fee) {
            Some(v) => v,
            None => return Err(PoolError::MathematicalOverflow),
        };
        pool.total_ipt_supply = new_ipt_supply;
        pool.total_usdc_reserves = new_reserves;
        pool.total_accumulated_fees = new_fees;
        Ok(WithdrawAction::Executed(UserWithdrawalExecuted {
            user,
            pool: pool.pool_authority,
            ipt_amount: net_ipt_amount,
            usdc_amount: net_usdc_amount,
            withdrawal_fee,
            exchange_rate: pool.current_exchange_rate,
            new_ipt_supply,
            new_reserves,
            timestamp: now,
        }))
    } else {
        if pool.pending_queue.len() >= pool.config.max_queue_size as usize {
            return Err(PoolError::QueueFull);
        }
        let mut i: usize = 0;
        let n = pool.pending_queue.len();
        while i < n
            invariant
                n == pool.pending_queue@.len(),
                0 <= i <= n,
                forall|j: int| 0 <= j < i ==> pool.pending_queue@[j].user != user,
            decreases n - i,
        {
            if pool.pending_queue[i].user == user {
                return Err(PoolError::AlreadyInQueue);
            }
            i += 1;
        }
        let position = pool.pending_queue.len() as u32;
        pool.total_usdc_reserves = actual_reserve_balance;
        pool.pending_queue.push(PendingWithdraw { user, amount: net_ipt_amount, min_usdc_amount });
        Ok(WithdrawAction::Queued(AddedToQueue { user, amount: net_ipt_amount, position }))
    }
}

} // verus!
