use vstd::prelude::*;

use crate::errors::PoolError;
use crate::states::{PoolConfig, PoolState, MAX_QUEUE_SIZE};

verus! {

/// Whether the lifecycle state admits the operation: deposits need `Active`
/// or `DepositOnly`, withdrawals need `Active` or `WithdrawOnly`.
pub open spec fn state_allows(pool_state: PoolState, is_deposit: bool) -> bool {
    match pool_state {
        PoolState::Active => true,
        PoolState::Paused => false,
        PoolState::Frozen => false,
        PoolState::DepositOnly => is_deposit,
        PoolState::WithdrawOnly => !is_deposit,
    }
}

/// The error reported when the lifecycle state forbids the operation.
pub open spec fn state_error(pool_state: PoolState, is_deposit: bool) -> PoolError {
    match pool_state {
        PoolState::Paused => PoolError::PoolPaused,
        PoolState::Frozen => PoolError::PoolFrozen,
        PoolState::DepositOnly => PoolError::WithdrawalsDisabled,
        PoolState::WithdrawOnly => PoolError::DepositsDisabled,
        PoolState::Active => PoolError::PoolPaused,
    }
}

/// The error reported for an invalid configuration: the fee rates are
/// checked first, then the reference rate, then the authorities, then the
/// queue capacity.
pub open spec fn spec_config_error(config: PoolConfig) -> PoolError {
    if config.deposit_fee_bps > 10000 || config.withdrawal_fee_bps > 10000
        || config.management_fee_bps > 10000 {
        PoolError::InvalidFeeRate
    } else if config.initial_exchange_rate == 0 {
        PoolError::InvalidExchangeRate
    } else if config.admin_authority.spec_is_null() || config.oracle_authority.spec_is_null()
        || config.fee_collector.spec_is_null() {
        PoolError::InvalidAuthority
    } else {
        PoolError::InvalidConfigParameter
    }
}

/// Stateless guards on configuration, rate, and lifecycle-vs-operation
/// compatibility.
pub struct ValidationUtils;

impl ValidationUtils {
    /// Accepts exactly the valid configurations: fee rates at most 10000
    /// basis points, a positive reference rate, non-null authorities, and a
    /// queue capacity within the allocated storage.
    pub fn validate_pool_config(config: &PoolConfig) -> (r: Result<(), PoolError>)
        ensures
            r is Ok <==> config.valid(),
            r is Err ==> r->Err_0 == spec_config_error(*config),
    {
        if config.deposit_fee_bps > 10_000 {
            return Err(PoolError::InvalidFeeRate);
        }
        if config.withdrawal_fee_bps > 10_000 {
            return Err(PoolError::InvalidFeeRate);
        }
        if config.management_fee_bps > 10_000 {
            return Err(PoolError::InvalidFeeRate);
        }
        if config.initial_exchange_rate == 0 {
            return Err(PoolError::InvalidExchangeRate);
        }
        if config.admin_authority.is_null() {
            return Err(PoolError::InvalidAuthority);
        }
        if config.oracle_authority.is_null() {
            return Err(PoolError::InvalidAuthority);
        }
        if config.fee_collector.is_null() {
            return Err(PoolError::InvalidAuthority);
        }
        if config.max_queue_size as usize > MAX_QUEUE_SIZE {
            return Err(PoolError::InvalidConfigParameter);
        }
        Ok(())
    }

    /// Accepts exactly the positive exchange rates.
    pub fn validate_exchange_rate(rate: u64) -> (r: Result<(), PoolError>)
        ensures
            r is Ok <==> rate > 0,
            r is Err ==> r->Err_0 == PoolError::InvalidExchangeRate,
    {
        if rate == 0 {
            return Err(PoolError::InvalidExchangeRate);
        }
        Ok(())
    }

    /// Accepts exactly the (state, operation) pairs that `state_allows`
    /// admits, with the state-specific error otherwise.
    pub fn validate_pool_state_for_operation(pool_state: &PoolState, is_deposit: bool) -> (r:
        Result<(), PoolError>)
        ensures
            r is Ok <==> state_allows(*pool_state, is_deposit),
            r is Err ==> r->Err_0 == state_error(*pool_state, is_deposit),
    {
        match pool_state {
            PoolState::Active => Ok(()),
            PoolState::Paused => Err(PoolError::PoolPaused),
            PoolState::Frozen => Err(PoolError::PoolFrozen),
            PoolState::DepositOnly => {
                if is_deposit {
                    Ok(())
                } else {
                    Err(PoolError::WithdrawalsDisabled)
                }
            },
            PoolState::WithdrawOnly => {
                if is_deposit {
                    Err(PoolError::DepositsDisabled)
                } else {
                    Ok(())
                }
            },
        }
    }
}

} // verus!
