use vstd::prelude::*;

use crate::ids::AccountId;

verus! {

/// Hard cap on the queue length that the preallocated account storage can
/// hold; a configured capacity above this is rejected at validation time.
pub const MAX_QUEUE_SIZE: usize = 20;

/// Lifecycle state of a pool. Transitions are administrative; every
/// user-facing operation is guarded by it.
#[derive(Clone, Copy, PartialEq, Eq, Structural, Debug)]
pub enum PoolState {
    /// All operations allowed.
    Active,
    /// All operations blocked.
    Paused,
    /// All operations blocked; distinct from Paused for audit purposes.
    Frozen,
    /// Only deposits allowed.
    DepositOnly,
    /// Only withdrawals allowed.
    WithdrawOnly,
}

/// Administrative configuration of a pool, replaced wholesale on update.
#[derive(Clone, Copy, PartialEq, Eq, Structural, Debug)]
pub struct PoolConfig {
    /// Admin authority.
    pub admin_authority: AccountId,
    /// Oracle authority.
    pub oracle_authority: AccountId,
    /// Fee collector identity.
    pub fee_collector: AccountId,
    /// Deposit fee rate in basis points (100 = 1%).
    pub deposit_fee_bps: u16,
    /// Withdrawal fee rate in basis points.
    pub withdrawal_fee_bps: u16,
    /// Management fee rate in basis points.
    pub management_fee_bps: u16,
    /// Initial exchange rate (shares to reserve currency, scaled by 1e6).
    pub initial_exchange_rate: u64,
    /// Maximum total share supply (0 = unlimited).
    pub max_total_supply: u64,
    /// Maximum withdrawal queue size.
    pub max_queue_size: u32,
}

impl PoolConfig {
    /// All fee rates within 10000 bps, a positive reference rate, no null
    /// authority, and a queue capacity the allocated storage can hold.
    pub open spec fn valid(self) -> bool {
        &&& self.deposit_fee_bps <= 10000
        &&& self.withdrawal_fee_bps <= 10000
        &&& self.management_fee_bps <= 10000
        &&& self.initial_exchange_rate > 0
        &&& !self.admin_authority.spec_is_null()
        &&& !self.oracle_authority.spec_is_null()
        &&& !self.fee_collector.spec_is_null()
        &&& self.max_queue_size <= MAX_QUEUE_SIZE as u32
    }
}

/// A pending redemption request: created by enqueueing, consumed by
/// cancellation or by the batch processor, never mutated in place.
#[derive(Clone, Copy, PartialEq, Eq, Structural, Debug)]
pub struct PendingWithdraw {
    /// The requesting user.
    pub user: AccountId,
    /// Share amount to redeem (always positive).
    pub amount: u64,
    /// Minimum acceptable reserve proceeds.
    pub min_usdc_amount: u64,
}

/// Host-side lock marker carried alongside the pool record.
#[derive(Clone, Copy, PartialEq, Eq, Structural, Debug)]
pub struct LockState {
    pub is_locked: bool,
}

/// The pool ledger: one instance per reserve-currency market.
#[derive(Clone, Debug)]
pub struct Pool {
    /// Pool authority (the program-derived identity that custodies assets).
    pub pool_authority: AccountId,
    /// Reserve-currency mint identity.
    pub usdc_mint: AccountId,
    /// Share-asset mint identity.
    pub ipt_mint: AccountId,
    /// Reserve-custody token account identity.
    pub usdc_reserve: AccountId,
    /// Pending redemption requests, oldest first, at most one per user.
    pub pending_queue: Vec<PendingWithdraw>,
    /// Current exchange rate (shares to reserve currency, scaled by 1e6);
    /// e.g. 1.02 reserve units per share = 1_020_000.
    pub current_exchange_rate: u64,
    /// Total share supply in circulation.
    pub total_ipt_supply: u64,
    /// Total reserve-currency balance recorded by the ledger.
    pub total_usdc_reserves: u64,
    /// Total accumulated fees, kept inside the reserve balance.
    pub total_accumulated_fees: u64,
    /// Maximum total share supply allowed (0 = unlimited).
    pub max_total_supply: u64,
    /// Pool configuration.
    pub config: PoolConfig,
    /// Lifecycle state.
    pub pool_state: PoolState,
    /// Timestamp of the last exchange-rate update.
    pub last_rate_update: i64,
    /// Timestamp of pool creation.
    pub created_at: i64,
    /// Seed bookkeeping for the custody layer; opaque to the core.
    pub bump: u8,
}

impl Pool {
    /// No two queue entries belong to the same user.
    pub open spec fn queue_users_unique(self) -> bool {
        forall|i: int, j: int|
            0 <= i < j < self.pending_queue@.len()
                ==> self.pending_queue@[i].user != self.pending_queue@[j].user
    }

    /// Every queued amount is positive.
    pub open spec fn queue_amounts_positive(self) -> bool {
        forall|i: int|
            0 <= i < self.pending_queue@.len() ==> self.pending_queue@[i].amount > 0
    }

    /// Well-formedness: established at initialization and preserved by every
    /// operation. The queue is bounded by the storage cap `MAX_QUEUE_SIZE`,
    /// not by `config.max_queue_size`: a config update may shrink the
    /// configured capacity below the current length, and only enqueueing
    /// enforces it.
    pub open spec fn wf(self) -> bool {
        &&& self.config.valid()
        &&& self.current_exchange_rate > 0
        &&& self.pending_queue@.len() <= MAX_QUEUE_SIZE
        &&& self.queue_users_unique()
        &&& self.queue_amounts_positive()
    }

    /// Whether some queue entry belongs to `user`.
    pub open spec fn user_in_queue(self, user: AccountId) -> bool {
        exists|i: int| 0 <= i < self.pending_queue@.len() && self.pending_queue@[i].user == user
    }
}

/// Everything about a pool except its three ledger totals and its queue is
/// the same in `a` and `b`.
pub open spec fn same_pool_but_ledger(a: Pool, b: Pool) -> bool {
    &&& b.pool_authority == a.pool_authority
    &&& b.usdc_mint == a.usdc_mint
    &&& b.ipt_mint == a.ipt_mint
    &&& b.usdc_reserve == a.usdc_reserve
    &&& b.current_exchange_rate == a.current_exchange_rate
    &&& b.max_total_supply == a.max_total_supply
    &&& b.config == a.config
    &&& b.pool_state == a.pool_state
    &&& b.last_rate_update == a.last_rate_update
    &&& b.created_at == a.created_at
    &&& b.bump == a.bump
}

/// Everything about a pool except its queue is the same in `a` and `b`.
pub open spec fn same_pool_but_queue(a: Pool, b: Pool) -> bool {
    &&& same_pool_but_ledger(a, b)
    &&& b.total_ipt_supply == a.total_ipt_supply
    &&& b.total_usdc_reserves == a.total_usdc_reserves
    &&& b.total_accumulated_fees == a.total_accumulated_fees
}

} // verus!
