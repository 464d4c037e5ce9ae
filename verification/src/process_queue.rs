use vstd::prelude::*;

use crate::calculation_utils::{spec_fee, spec_gross_from_shares, CalculationUtils};
use crate::errors::PoolError;
use crate::ids::AccountId;
use crate::states::{same_pool_but_ledger, PendingWithdraw, Pool};
use crate::validation_utils::{state_allows, state_error, ValidationUtils};

verus! {

/// Facts the custody layer shows about one queued user's supplied account
/// pair: the share account's owner, mint, balance and delegation, and the
/// reserve account's mint.
#[derive(Clone, Copy, PartialEq, Eq, Debug)]
pub struct QueueUserAccounts {
    /// Owner of the supplied share account.
    pub ipt_owner: AccountId,
    /// Mint of the supplied share account.
    pub ipt_mint: AccountId,
    /// Current share balance of that account.
    pub ipt_balance: u64,
    /// Delegate on that account, if any.
    pub ipt_delegate: Option<AccountId>,
    /// Amount the delegate may burn.
    pub ipt_delegated_amount: u64,
    /// Mint of the supplied reserve-currency account.
    pub usdc_mint: AccountId,
}

/// Why a queue entry was skipped (and removed) rather than executed.
#[derive(Clone, Copy, PartialEq, Eq, Structural, Debug)]
pub enum SkipReason {
    /// The user's share balance fell below the queued amount.
    InsufficientBalance,
    /// Proceeds at the current rate fell below the recorded minimum.
    SlippageExceeded,
}

/// What happened to one walked queue entry.
#[derive(Clone, Copy, PartialEq, Eq, Debug)]
pub enum StepOutcome {
    /// The entry was paid: burn `ipt_amount`, transfer `net_usdc_amount`.
    Executed { user: AccountId, ipt_amount: u64, net_usdc_amount: u64, withdrawal_fee: u64 },
    /// The entry was removed without payment.
    Skipped { user: AccountId, ipt_amount: u64, reason: SkipReason },
}

/// Shares burned by one step: the queued amount if executed, 0 if skipped.
pub open spec fn step_burned(step: StepOutcome) -> int {
    match step {
        StepOutcome::Executed { ipt_amount, .. } => ipt_amount as int,
        StepOutcome::Skipped { .. } => 0,
    }
}

/// Net reserve currency paid out by one step.
pub open spec fn step_net(step: StepOutcome) -> int {
    match step {
        StepOutcome::Executed { net_usdc_amount, .. } => net_usdc_amount as int,
        StepOutcome::Skipped { .. } => 0,
    }
}

/// Fee retained by one step.
pub open spec fn step_fee(step: StepOutcome) -> int {
    match step {
        StepOutcome::Executed { withdrawal_fee, .. } => withdrawal_fee as int,
        StepOutcome::Skipped { .. } => 0,
    }
}

/// Total shares burned by the executed steps; skipped steps contribute
/// nothing.
pub open spec fn sum_burned(steps: Seq<StepOutcome>) -> int
    decreases steps.len(),
{
    if steps.len() == 0 {
        0
    } else {
        sum_burned(steps.drop_last()) + step_burned(steps.last())
    }
}

/// Total net reserve currency paid out by the executed steps.
pub open spec fn sum_net(steps: Seq<StepOutcome>) -> int
    decreases steps.len(),
{
    if steps.len() == 0 {
        0
    } else {
        sum_net(steps.drop_last()) + step_net(steps.last())
    }
}

/// Total fees retained by the executed steps.
pub open spec fn sum_fees(steps: Seq<StepOutcome>) -> int
    decreases steps.len(),
{
    if steps.len() == 0 {
        0
    } else {
        sum_fees(steps.drop_last()) + step_fee(steps.last())
    }
}

/// How many steps executed.
pub open spec fn n_executed(steps: Seq<StepOutcome>) -> int
    decreases steps.len(),
{
    if steps.len() == 0 {
        0
    } else {
        n_executed(steps.drop_last()) + if steps.last() is Executed {
            1int
        } else {
            0int
        }
    }
}

/// How many steps skipped.
pub open spec fn n_skipped(steps: Seq<StepOutcome>) -> int
    decreases steps.len(),
{
    if steps.len() == 0 {
        0
    } else {
        n_skipped(steps.drop_last()) + if steps.last() is Skipped {
            1int
        } else {
            0int
        }
    }
}

/// How one queue entry resolves against the supplied account facts and the
/// money already committed earlier in the batch (`burned`, `net_sum`,
/// `fee_sum`). Account-shape violations and arithmetic violations are hard
/// failures that abort the whole batch; a failing balance or slippage check
/// only skips the entry; insufficient projected liquidity stops the walk.
pub open spec fn resolve_entry(
    entry: PendingWithdraw,
    accts: QueueUserAccounts,
    pool: Pool,
    synced_reserves: u64,
    burned: int,
    net_sum: int,
    fee_sum: int,
) -> StepResolution {
    let rate = pool.current_exchange_rate as int;
    let gross = spec_gross_from_shares(entry.amount as int, rate);
    let fee = spec_fee(gross, pool.config.withdrawal_fee_bps as int);
    let net = gross - fee;
    if accts.ipt_owner != entry.user {
        StepResolution::Fail(PoolError::InvalidUserAccount)
    } else if accts.ipt_mint != pool.ipt_mint {
        StepResolution::Fail(PoolError::InvalidMint)
    } else if accts.usdc_mint != pool.usdc_mint {
        StepResolution::Fail(PoolError::InvalidMint)
    } else if accts.ipt_delegate != Some(pool.pool_authority) {
        StepResolution::Fail(PoolError::NotDelegated)
    } else if accts.ipt_delegated_amount < entry.amount {
        StepResolution::Fail(PoolError::InsufficientDelegation)
    } else if accts.ipt_balance < entry.amount {
        StepResolution::Skip(SkipReason::InsufficientBalance)
    } else if entry.amount * rate > u64::MAX {
        StepResolution::Fail(PoolError::MathematicalOverflow)
    } else if gross * pool.config.withdrawal_fee_bps > u64::MAX {
        StepResolution::Fail(PoolError::MathematicalOverflow)
    } else if fee > gross {
        StepResolution::Fail(PoolError::MathematicalUnderflow)
    } else if net < entry.min_usdc_amount {
        StepResolution::Skip(SkipReason::SlippageExceeded)
    } else if synced_reserves - net_sum - fee_sum < gross {
        StepResolution::Stop
    } else if burned + entry.amount > u64::MAX {
        StepResolution::Fail(PoolError::MathematicalOverflow)
    } else {
        StepResolution::Execute { net_usdc_amount: net as u64, withdrawal_fee: fee as u64 }
    }
}

/// Resolution of a single queue entry during the walk.
pub enum StepResolution {
    /// Hard error: abort the whole batch with no state change.
    Fail(PoolError),
    /// Remove the entry without payment; the walk continues.
    Skip(SkipReason),
    /// Projected liquidity is insufficient: the walk halts, the entry stays.
    Stop,
    /// Pay the entry.
    Execute { net_usdc_amount: u64, withdrawal_fee: u64 },
}

/// Result of walking the first `n` queue positions.
pub enum BatchWalk {
    /// A hard error aborted the batch.
    Failed(PoolError),
    /// The walk finished (or stopped early on liquidity) having consumed
    /// exactly these steps, in queue order.
    Done(Seq<StepOutcome>),
}

/// Walk queue positions `i..n` strictly in order, accumulating `steps`: each
/// position is skipped-and-removed, executed, stops the walk (and stays), or
/// fails the batch, per `resolve_entry`.
pub open spec fn batch_walk(
    queue: Seq<PendingWithdraw>,
    accts: Seq<QueueUserAccounts>,
    pool: Pool,
    synced_reserves: u64,
    n: int,
    i: int,
    steps: Seq<StepOutcome>,
) -> BatchWalk
    decreases n - i,
{
    if i < 0 || i >= n {
        BatchWalk::Done(steps)
    } else {
        match resolve_entry(
            queue[i],
            accts[i],
            pool,
            synced_reserves,
            sum_burned(steps),
            sum_net(steps),
            sum_fees(steps),
        ) {
            StepResolution::Fail(e) => BatchWalk::Failed(e),
            StepResolution::Stop => BatchWalk::Done(steps),
            StepResolution::Skip(reason) => batch_walk(
                queue,
                accts,
                pool,
                synced_reserves,
                n,
                i + 1,
                steps.push(
                    StepOutcome::Skipped { user: queue[i].user, ipt_amount: queue[i].amount, reason },
                ),
            ),
            StepResolution::Execute { net_usdc_amount, withdrawal_fee } => batch_walk(
                queue,
                accts,
                pool,
                synced_reserves,
                n,
                i + 1,
                steps.push(
                    StepOutcome::Executed {
                        user: queue[i].user,
                        ipt_amount: queue[i].amount,
                        net_usdc_amount,
                        withdrawal_fee,
                    },
                ),
            ),
        }
    }
}

/// The up-front guards of a batch call: lifecycle, the hard cap of 10, the
/// queue must hold at least `n_amounts` entries, and one account pair per
/// walked entry.
pub open spec fn batch_guards(pool: Pool, n_amounts: int, n_accounts: int) -> Result<
    (),
    PoolError,
> {
    if !state_allows(pool.pool_state, false) {
        Err(state_error(pool.pool_state, false))
    } else if n_amounts > 10 {
        Err(PoolError::BatchSizeTooLarge)
    } else if n_amounts > pool.pending_queue@.len() {
        Err(PoolError::EmptyWithdrawalBatch)
    } else if n_accounts != n_amounts {
        Err(PoolError::InvalidAccountsCount)
    } else {
        Ok(())
    }
}

/// Aggregate effect of a batch run, as the custody layer must apply it: per
/// step, burn and transfer for the executed entries, nothing for the skipped
/// ones; `steps` is in queue order.
#[derive(Clone, PartialEq, Eq, Debug)]
pub struct BatchReceipt {
    /// One outcome per drained queue entry, in order.
    pub steps: Vec<StepOutcome>,
    /// How many entries were paid.
    pub successful_count: usize,
    /// How many entries were removed without payment.
    pub skipped_count: usize,
    /// Total shares burned.
    pub total_ipt_burned: u64,
    /// Total net reserve currency paid out.
    pub total_usdc_transferred: u64,
    /// Total fees retained.
    pub total_fees: u64,
}

/// The receipt reports exactly the walked steps and their totals.
pub open spec fn batch_receipt_matches(receipt: BatchReceipt, steps: Seq<StepOutcome>) -> bool {
    &&& receipt.steps@ == steps
    &&& receipt.successful_count == n_executed(steps)
    &&& receipt.skipped_count == n_skipped(steps)
    &&& receipt.total_ipt_burned == sum_burned(steps)
    &&& receipt.total_usdc_transferred == sum_net(steps)
    &&& receipt.total_fees == sum_fees(steps)
}

/// The committed effect of a successful batch: the walked entries are drained
/// from the head of the queue (the rest keep their order), the share supply
/// drops by the burned total, the fees grow by the fee total, and the reserve
/// balance is the resynchronized actual balance minus everything that left.
pub open spec fn batch_applied(
    old_pool: Pool,
    new_pool: Pool,
    steps: Seq<StepOutcome>,
    actual_reserve_balance: u64,
) -> bool {
    &&& same_pool_but_ledger(old_pool, new_pool)
    &&& new_pool.pending_queue@ == old_pool.pending_queue@.skip(steps.len() as int)
    &&& new_pool.total_ipt_supply == old_pool.total_ipt_supply - sum_burned(steps)
    &&& new_pool.total_accumulated_fees == old_pool.total_accumulated_fees + sum_fees(steps)
    &&& new_pool.total_usdc_reserves == actual_reserve_balance - sum_net(steps) - sum_fees(steps)
}

/// Appending one step adds exactly its own contribution to every total.
proof fn lemma_sums_push(steps: Seq<StepOutcome>, step: StepOutcome)
    ensures
        sum_burned(steps.push(step)) == sum_burned(steps) + step_burned(step),
        sum_net(steps.push(step)) == sum_net(steps) + step_net(step),
        sum_fees(steps.push(step)) == sum_fees(steps) + step_fee(step),
        n_executed(steps.push(step)) == n_executed(steps) + if step is Executed {
            1int
        } else {
            0int
        },
        n_skipped(steps.push(step)) == n_skipped(steps) + if step is Skipped {
            1int
        } else {
            0int
        },
{
    assert(steps.push(step).drop_last() =~= steps);
    assert(steps.push(step).last() == step);
}

/// Law: a skipped entry does not stop the batch. When an entry resolves to a
/// skip (its balance check fails, or its recorded slippage floor is no longer
/// met), the walk records it — which removes it from the queue and adds
/// nothing to any total — and proceeds to evaluate the next entry with the
/// money accumulators unchanged.
pub proof fn lemma_skip_continues(
    queue: Seq<PendingWithdraw>,
    accts: Seq<QueueUserAccounts>,
    pool: Pool,
    synced_reserves: u64,
    n: int,
    i: int,
    steps: Seq<StepOutcome>,
    reason: SkipReason,
)
    requires
        0 <= i < n,
        resolve_entry(
            queue[i],
            accts[i],
            pool,
            synced_reserves,
            sum_burned(steps),
            sum_net(steps),
            sum_fees(steps),
        ) == StepResolution::Skip(reason),
    ensures
        batch_walk(queue, accts, pool, synced_reserves, n, i, steps) == batch_walk(
            queue,
            accts,
            pool,
            synced_reserves,
            n,
            i + 1,
            steps.push(
                StepOutcome::Skipped { user: queue[i].user, ipt_amount: queue[i].amount, reason },
            ),
        ),
        sum_burned(
            steps.push(
                StepOutcome::Skipped { user: queue[i].user, ipt_amount: queue[i].amount, reason },
            ),
        ) == sum_burned(steps),
        sum_net(
            steps.push(
                StepOutcome::Skipped { user: queue[i].user, ipt_amount: queue[i].amount, reason },
            ),
        ) == sum_net(steps),
        sum_fees(
            steps.push(
                StepOutcome::Skipped { user: queue[i].user, ipt_amount: queue[i].amount, reason },
            ),
        ) == sum_fees(steps),
{
    lemma_sums_push(
        steps,
        StepOutcome::Skipped { user: queue[i].user, ipt_amount: queue[i].amount, reason },
    );
}

/// Drain the queue in FIFO order, at most `amounts.len()` (≤ 10) entries per
/// call. Each walked entry independently executes, is skipped-and-removed
/// (insufficient balance or stale slippage — so no single entry can block the
/// queue), or stops the walk when projected liquidity runs out (so nobody is
/// served out of order ahead of an earlier entry); account-shape and
/// arithmetic violations abort the whole batch with no state change. The
/// recorded reserve balance is first resynchronized to the custody layer's
/// `actual_reserve_balance`. `amounts` is advisory: its length picks the
/// batch size, but the queue's own recorded amounts are what is paid. The
/// custody layer must apply exactly the returned receipt's steps (burning via
/// the delegated-burn grants checked here).
#[verifier::loop_isolation(false)]
pub fn batch_execute_withdraw(
    pool: &mut Pool,
    amounts: &Vec<u64>,
    accounts: &Vec<QueueUserAccounts>,
    actual_reserve_balance: u64,
) -> (r: Result<BatchReceipt, PoolError>)
    requires
        old(pool).wf(),
    ensures
        final(pool).wf(),
        r is Err ==> *final(pool) == *old(pool),
        batch_guards(*old(pool), amounts@.len() as int, accounts@.len() as int) matches Err(e)
            ==> r == Err::<BatchReceipt, PoolError>(e),
        batch_guards(*old(pool), amounts@.len() as int, accounts@.len() as int) is Ok ==> (match
            batch_walk(
            old(pool).pending_queue@,
            accounts@,
            *old(pool),
            actual_reserve_balance,
            amounts@.len() as int,
            0,
            Seq::empty(),
        ) {
            BatchWalk::Failed(e) => r == Err::<BatchReceipt, PoolError>(e),
            BatchWalk::Done(steps) => {
                if old(pool).total_ipt_supply < sum_burned(steps) {
                    r == Err::<BatchReceipt, PoolError>(PoolError::MathematicalUnderflow)
                } else if old(pool).total_accumulated_fees + sum_fees(steps) > u64::MAX {
                    r == Err::<BatchReceipt, PoolError>(PoolError::MathematicalOverflow)
                } else {
                    &&& r is Ok
                    &&& batch_receipt_matches(r->Ok_0, steps)
                    &&& batch_applied(*old(pool), *final(pool), steps, actual_reserve_balance)
                }
            },
        }),
{
    match ValidationUtils::validate_pool_state_for_operation(&pool.pool_state, false) {
        Ok(()) => {},
        Err(e) => return Err(e),
    }
    let batch_size = amounts.len();
    if batch_size > 10 {
        return Err(PoolError::BatchSizeTooLarge);
    }
    if batch_size > pool.pending_queue.len() {
        return Err(PoolError::EmptyWithdrawalBatch);
    }
    if accounts.len() != batch_size {
        return Err(PoolError::InvalidAccountsCount);
    }

    let mut steps: Vec<StepOutcome> = Vec::new();
    let mut total_ipt_burned: u64 = 0;
    let mut total_usdc_transferred: u64 = 0;
    let mut total_fees: u64 = 0;
    let mut successful_count: usize = 0;
    let mut skipped_count: usize = 0;
    let mut i: usize = 0;
    let mut stopped = false;

    while i < batch_size && !stopped
        invariant
            0 <= i <= batch_size,
            steps@.len() == i,
            successful_count + skipped_count == i,
            total_ipt_burned == sum_burned(steps@),
            total_usdc_transferred == sum_net(steps@),
            total_fees == sum_fees(steps@),
            successful_count == n_executed(steps@),
            skipped_count == n_skipped(steps@),
            total_usdc_transferred + total_fees <= actual_reserve_balance,
            !stopped ==> batch_walk(
                pool.pending_queue@,
                accounts@,
                *pool,
                actual_reserve_balance,
                batch_size as int,
                i as int,
                steps@,
            ) == batch_walk(
                pool.pending_queue@,
                accounts@,
                *pool,
                actual_reserve_balance,
                batch_size as int,
                0,
                Seq::empty(),
            ),
            stopped ==> batch_walk(
                pool.pending_queue@,
                accounts@,
                *pool,
                actual_reserve_balance,
                batch_size as int,
                0,
                Seq::empty(),
            ) == BatchWalk::Done(steps@),
        decreases batch_size - i, (if stopped { 0int } else { 1int }),
    {
        let ghost steps_before = steps@;
        let entry = pool.pending_queue[i];
        let acct = accounts[i];

        if acct.ipt_owner != entry.user {
            return Err(PoolError::InvalidUserAccount);
        }
        if acct.ipt_mint != pool.ipt_mint {
            return Err(PoolError::InvalidMint);
        }
        if acct.usdc_mint != pool.usdc_mint {
            return Err(PoolError::InvalidMint);
        }
        let delegate_ok = match acct.ipt_delegate {
            Some(d) => d == pool.pool_authority,
            None => false,
        };
        if !delegate_ok {
            return Err(PoolError::NotDelegated);
        }
        if acct.ipt_delegated_amount < entry.amount {
            return Err(PoolError::InsufficientDelegation);
        }
        if acct.ipt_balance < entry.amount {
            steps.push(
                StepOutcome::Skipped {
                    user: entry.user,
                    ipt_amount: entry.amount,
                    reason: SkipReason::InsufficientBalance,
                },
            );
            proof {
                lemma_sums_push(
                    steps_before,
                    StepOutcome::Skipped {
                        user: entry.user,
                        ipt_amount: entry.amount,
                        reason: SkipReason::InsufficientBalance,
                    },
                );
            }
            skipped_count += 1;
            i += 1;
            continue ;
        }
        let (net_usdc_amount, withdrawal_fee) =
            match CalculationUtils::calculate_usdc_from_net_ipt_withdrawal(
            entry.amount,
            pool.current_exchange_rate,
            pool.config.withdrawal_fee_bps,
        ) {
            Ok(t) => t,
            Err(e) => return Err(e),
        };
        if net_usdc_amount < entry.min_usdc_amount {
            steps.push(
                StepOutcome::Skipped {
                    user: entry.user,
                    ipt_amount: entry.amount,
                    reason: SkipReason::SlippageExceeded,
                },
            );
            proof {
                lemma_sums_push(
                    steps_before,
                    StepOutcome::Skipped {
                        user: entry.user,
                        ipt_amount: entry.amount,
                        reason: SkipReason::SlippageExceeded,
                    },
                );
            }
            skipped_count += 1;
            i += 1;
            continue ;
        }
        // net + fee equals the gross proceeds, which fit in u64.
        let gross_usdc_amount = net_usdc_amount + withdrawal_fee;
        let used_so_far = total_usdc_transferred + total_fees;
        let available_reserves = actual_reserve_balance - used_so_far;
        if available_reserves < gross_usdc_amount {
            stopped = true;
        } else {
            let new_burned = match total_ipt_burned.checked_add(entry.amount) {
                Some(v) => v,
                None => return Err(PoolError::MathematicalOverflow),
            };
            steps.push(
                StepOutcome::Executed {
                    user: entry.user,
                    ipt_amount: entry.amount,
                    net_usdc_amount,
                    withdrawal_fee,
                },
            );
            proof {
                lemma_sums_push(
                    steps_before,
                    StepOutcome::Executed {
                        user: entry.user,
                        ipt_amount: entry.amount,
                        net_usdc_amount,
                        withdrawal_fee,
                    },
                );
            }
            total_ipt_burned = new_burned;
            total_usdc_transferred = total_usdc_transferred + net_usdc_amount;
            total_fees = total_fees + withdrawal_fee;
            successful_count += 1;
            i += 1;
        }
    }
    proof {
        if !stopped {
            assert(batch_walk(
                pool.pending_queue@,
                accounts@,
                *pool,
                actual_reserve_balance,
                batch_size as int,
                i as int,
                steps@,
            ) == BatchWalk::Done(steps@));
        }
    }

    let new_ipt_supply = match pool.total_ipt_supply.checked_sub(total_ipt_burned) {
        Some(v) => v,
        None => return Err(PoolError::MathematicalUnderflow),
    };
    let new_total_fees = match pool.total_accumulated_fees.checked_add(total_fees) {
        Some(v) => v,
        None => return Err(PoolError::MathematicalOverflow),
    };
    let total_gross_usdc = total_usdc_transferred + total_fees;
    let new_reserves = actual_reserve_balance - total_gross_usdc;

    pool.total_ipt_supply = new_ipt_supply;
    pool.total_accumulated_fees = new_total_fees;
    pool.total_usdc_reserves = new_reserves;

    let total_processed = successful_count + skipped_count;
    if total_processed > 0 {
        let tail = pool.pending_queue.split_off(total_processed);
        pool.pending_queue = tail;
    }
    proof {
        assert(final(pool).pending_queue@ =~= old(pool).pending_queue@.skip(steps@.len() as int));
    }

    Ok(BatchReceipt {
        steps,
        successful_count,
        skipped_count,
        total_ipt_burned,
        total_usdc_transferred,
        total_fees,
    })
}

} // verus!
