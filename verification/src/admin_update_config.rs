use vstd::prelude::*;

use crate::errors::PoolError;
use crate::ids::AccountId;
use crate::states::{Pool, PoolConfig};
use crate::validation_utils::{spec_config_error, ValidationUtils};

verus! {

/// Admin replaces the whole configuration atomically after validation. Gated
/// on the current admin identity. Returns the old configuration so the host
/// can report every changed field with its old and new values.
pub fn admin_update_config(pool: &mut Pool, admin: AccountId, new_config: PoolConfig) -> (r:
    Result<PoolConfig, PoolError>)
    requires
        old(pool).wf(),
    ensures
        final(pool).wf(),
        r is Err ==> *final(pool) == *old(pool),
        r is Err ==> r->Err_0 == (if admin != old(pool).config.admin_authority {
            PoolError::UnauthorizedAdmin
        } else {
            spec_config_error(new_config)
        }),
        r is Ok <==> admin == old(pool).config.admin_authority && new_config.valid(),
        r is Ok ==> r->Ok_0 == old(pool).config,
        r is Ok ==> {
            &&& final(pool).config == new_config
            &&& final(pool).pool_authority == old(pool).pool_authority
            &&& final(pool).usdc_mint == old(pool).usdc_mint
            &&& final(pool).ipt_mint == old(pool).ipt_mint
            &&& final(pool).usdc_reserve == old(pool).usdc_reserve
            &&& final(pool).pending_queue@ == old(pool).pending_queue@
            &&& final(pool).current_exchange_rate == old(pool).current_exchange_rate
            &&& final(pool).total_ipt_supply == old(pool).total_ipt_supply
            &&& final(pool).total_usdc_reserves == old(pool).total_usdc_reserves
            &&& final(pool).total_accumulated_fees == old(pool).total_accumulated_fees
            &&& final(pool).max_total_supply == old(pool).max_total_supply
            &&& final(pool).pool_state == old(pool).pool_state
            &&& final(pool).last_rate_update == old(pool).last_rate_update
            &&& final(pool).created_at == old(pool).created_at
            &&& final(pool).bump == old(pool).bump
        },
{
    if !(admin == pool.config.admin_authority) {
        return Err(PoolError::UnauthorizedAdmin);
    }
    match ValidationUtils::validate_pool_config(&new_config) {
        Ok(()) => {},
        Err(e) => return Err(e),
    }
    let old_config = pool.config;
    pool.config = new_config;
    Ok(old_config)
}

} // verus!
