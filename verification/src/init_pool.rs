use vstd::prelude::*;

use crate::errors::PoolError;
use crate::events::PoolInitialized;
use crate::ids::AccountId;
use crate::states::{Pool, PoolConfig, PoolState};
use crate::validation_utils::{spec_config_error, ValidationUtils};

verus! {

/// Create a pool record from a validated configuration (step one of the
/// two-phase initialization). `pool_key` is the record's own identity, which
/// also acts as the pool authority; the asset identities are wired up in step
/// two. Returns the fresh record and the creation notification.
pub fn init_pool(
    config: PoolConfig,
    pool_key: AccountId,
    usdc_mint: AccountId,
    bump: u8,
    now: i64,
) -> (r: Result<(Pool, PoolInitialized), PoolError>)
    ensures
        r is Ok <==> config.valid(),
        r is Err ==> r->Err_0 == spec_config_error(config),
        r is Ok ==> {
            let pool = r->Ok_0.0;
            &&& pool.wf()
            &&& pool.pool_authority == pool_key
            &&& pool.usdc_mint == usdc_mint
            &&& pool.ipt_mint.spec_is_null()
            &&& pool.usdc_reserve.spec_is_null()
            &&& pool.pending_queue@.len() == 0
            &&& pool.current_exchange_rate == config.initial_exchange_rate
            &&& pool.total_ipt_supply == 0
            &&& pool.total_usdc_reserves == 0
            &&& pool.total_accumulated_fees == 0
            &&& pool.max_total_supply == config.max_total_supply
            &&& pool.config == config
            &&& pool.pool_state == PoolState::Active
            &&& pool.last_rate_update == now
            &&& pool.created_at == now
            &&& pool.bump == bump
        },
        r is Ok ==> r->Ok_0.1 == (PoolInitialized {
            pool: pool_key,
            admin_authority: config.admin_authority,
            oracle_authority: config.oracle_authority,
            fee_collector: config.fee_collector,
            usdc_mint,
            ipt_mint: AccountId { hi: 0, lo: 0 },
            initial_exchange_rate: config.initial_exchange_rate,
            timestamp: now,
        }),
{
    match ValidationUtils::validate_pool_config(&config) {
        Ok(()) => {},
        Err(e) => return Err(e),
    }
    let pool = Pool {
        pool_authority: pool_key,
        usdc_mint,
        ipt_mint: AccountId::null(),
        usdc_reserve: AccountId::null(),
        pending_queue: Vec::new(),
        current_exchange_rate: config.initial_exchange_rate,
        total_ipt_supply: 0,
        total_usdc_reserves: 0,
        total_accumulated_fees: 0,
        max_total_supply: config.max_total_supply,
        config,
        pool_state: PoolState::Active,
        last_rate_update: now,
        created_at: now,
        bump,
    };
    let event = PoolInitialized {
        pool: pool_key,
        admin_authority: config.admin_authority,
        oracle_authority: config.oracle_authority,
        fee_collector: config.fee_collector,
        usdc_mint,
        ipt_mint: AccountId::null(),
        initial_exchange_rate: config.initial_exchange_rate,
        timestamp: now,
    };
    Ok((pool, event))
}

/// Wire the share-asset mint and reserve-custody identities into the pool
/// (step two of initialization). The custody layer derives both identities;
/// the core only records them, after checking that the caller presented the
/// pool's own authority.
pub fn init_pool_step2(
    pool: &mut Pool,
    pool_authority: AccountId,
    ipt_mint: AccountId,
    usdc_reserve: AccountId,
) -> (r: Result<(), PoolError>)
    requires
        old(pool).wf(),
    ensures
        final(pool).wf(),
        r is Err ==> *final(pool) == *old(pool),
        r is Err <==> pool_authority != old(pool).pool_authority,
        r is Err ==> r->Err_0 == PoolError::InvalidAuthority,
        r is Ok ==> {
            &&& final(pool).ipt_mint == ipt_mint
            &&& final(pool).usdc_reserve == usdc_reserve
            &&& final(pool).pool_authority == old(pool).pool_authority
            &&& final(pool).usdc_mint == old(pool).usdc_mint
            &&& final(pool).pending_queue@ == old(pool).pending_queue@
            &&& final(pool).current_exchange_rate == old(pool).current_exchange_rate
            &&& final(pool).total_ipt_supply == old(pool).total_ipt_supply
            &&& final(pool).total_usdc_reserves == old(pool).total_usdc_reserves
            &&& final(pool).total_accumulated_fees == old(pool).total_accumulated_fees
            &&& final(pool).max_total_supply == old(pool).max_total_supply
            &&& final(pool).config == old(pool).config
            &&& final(pool).pool_state == old(pool).pool_state
            &&& final(pool).last_rate_update == old(pool).last_rate_update
            &&& final(pool).created_at == old(pool).created_at
            &&& final(pool).bump == old(pool).bump
        },
{
    if !(pool_authority == pool.pool_authority) {
        return Err(PoolError::InvalidAuthority);
    }
    pool.ipt_mint = ipt_mint;
    pool.usdc_reserve = usdc_reserve;
    Ok(())
}

} // verus!
