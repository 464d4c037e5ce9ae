use vstd::prelude::*;

use crate::errors::PoolError;
use crate::events::WithdrawalCancelled;
use crate::ids::AccountId;
use crate::states::{same_pool_but_queue, Pool};

verus! {

/// User cancels their own pending withdrawal request: the entry is removed
/// and every other entry keeps its relative order; no ledger total changes
/// (nothing was ever reflected there). Fails when the user has no entry.
#[verifier::loop_isolation(false)]
pub fn cancel_withdrawal_request(pool: &mut Pool, user: AccountId, now: i64) -> (r: Result<
    WithdrawalCancelled,
    PoolError,
>)
    requires
        old(pool).wf(),
    ensures
        final(pool).wf(),
        r is Err <==> !old(pool).user_in_queue(user),
        r is Err ==> *final(pool) == *old(pool) && r->Err_0 == PoolError::InvalidUserAccount,
        r is Ok ==> {
            let event = r->Ok_0;
            let k = event.position as int;
            &&& same_pool_but_queue(*old(pool), *final(pool))
            &&& 0 <= k < old(pool).pending_queue@.len()
            &&& old(pool).pending_queue@[k].user == user
            &&& event.ipt_amount == old(pool).pending_queue@[k].amount
            &&& event.user == user
            &&& event.timestamp == now
            &&& final(pool).pending_queue@ == old(pool).pending_queue@.remove(k)
        },
{
    let n = pool.pending_queue.len();
    let mut i: usize = 0;
    while i < n
        invariant
            0 <= i <= n,
            pool == old(pool),
            forall|j: int| 0 <= j < i ==> pool.pending_queue@[j].user != user,
        decreases n - i,
    {
        if pool.pending_queue[i].user == user {
            let removed = pool.pending_queue.remove(i);
            return Ok(WithdrawalCancelled {
                user,
                ipt_amount: removed.amount,
                position: i as u32,
                timestamp: now,
            });
        }
        i += 1;
    }
    Err(PoolError::InvalidUserAccount)
}

} // verus!
