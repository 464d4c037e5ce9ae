use vstd::prelude::*;

use crate::errors::PoolError;
use crate::events::ExchangeRateUpdated;
use crate::ids::AccountId;
use crate::states::Pool;
use crate::validation_utils::ValidationUtils;

verus! {

/// The exact outcome of an oracle rate update to `new_rate`: the rate must be
/// positive and different from the current one (no-op updates are rejected).
pub open spec fn update_rate_outcome(
    pool: Pool,
    oracle: AccountId,
    new_rate: u64,
    now: i64,
) -> Result<ExchangeRateUpdated, PoolError> {
    if oracle != pool.config.oracle_authority {
        Err(PoolError::UnauthorizedOracle)
    } else if new_rate == 0 {
        Err(PoolError::InvalidExchangeRate)
    } else if new_rate == pool.current_exchange_rate {
        Err(PoolError::InvalidExchangeRate)
    } else {
        Ok(ExchangeRateUpdated {
            oracle,
            pool: pool.pool_authority,
            old_rate: pool.current_exchange_rate,
            new_rate,
            timestamp: now,
        })
    }
}

/// The oracle replaces the exchange rate and stamps the update time. Gated on
/// the oracle identity.
pub fn update_exchange_rate(pool: &mut Pool, oracle: AccountId, new_rate: u64, now: i64) -> (r:
    Result<ExchangeRateUpdated, PoolError>)
    requires
        old(pool).wf(),
    ensures
        final(pool).wf(),
        r == update_rate_outcome(*old(pool), oracle, new_rate, now),
        r is Err ==> *final(pool) == *old(pool),
        r is Ok ==> {
            &&& final(pool).current_exchange_rate == new_rate
            &&& final(pool).last_rate_update == now
            &&& final(pool).pool_authority == old(pool).pool_authority
            &&& final(pool).usdc_mint == old(pool).usdc_mint
            &&& final(pool).ipt_mint == old(pool).ipt_mint
            &&& final(pool).usdc_reserve == old(pool).usdc_reserve
            &&& final(pool).pending_queue@ == old(pool).pending_queue@
            &&& final(pool).total_ipt_supply == old(pool).total_ipt_supply
            &&& final(pool).total_usdc_reserves == old(pool).total_usdc_reserves
            &&& final(pool).total_accumulated_fees == old(pool).total_accumulated_fees
            &&& final(pool).max_total_supply == old(pool).max_total_supply
            &&& final(pool).config == old(pool).config
            &&& final(pool).pool_state == old(pool).pool_state
            &&& final(pool).created_at == old(pool).created_at
            &&& final(pool).bump == old(pool).bump
        },
{
    if !(oracle == pool.config.oracle_authority) {
        return Err(PoolError::UnauthorizedOracle);
    }
    match ValidationUtils::validate_exchange_rate(new_rate) {
        Ok(()) => {},
        Err(e) => return Err(e),
    }
    let old_rate = pool.current_exchange_rate;
    if new_rate == old_rate {
        return Err(PoolError::InvalidExchangeRate);
    }
    pool.current_exchange_rate = new_rate;
    pool.last_rate_update = now;
    Ok(ExchangeRateUpdated {
        oracle,
        pool: pool.pool_authority,
        old_rate,
        new_rate,
        timestamp: now,
    })
}

} // verus!
