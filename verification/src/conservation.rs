use vstd::prelude::*;

verus! {

/// One successful operation's effect on the recorded reserve balance: its
/// gross inflow and gross outflow. A user deposit records the gross amount
/// pulled in; an immediate withdrawal and every executed batch entry record
/// the gross proceeds (net plus fee) going out; admin and fee-collector moves
/// record their amount.
pub struct ReserveMove {
    pub inflow: int,
    pub outflow: int,
}

/// Sum of the gross inflows of a sequence of operations.
pub open spec fn sum_inflows(moves: Seq<ReserveMove>) -> int
    decreases moves.len(),
{
    if moves.len() == 0 {
        0
    } else {
        sum_inflows(moves.drop_last()) + moves.last().inflow
    }
}

/// Sum of the gross outflows of a sequence of operations.
pub open spec fn sum_outflows(moves: Seq<ReserveMove>) -> int
    decreases moves.len(),
{
    if moves.len() == 0 {
        0
    } else {
        sum_outflows(moves.drop_last()) + moves.last().outflow
    }
}

/// Law: conservation of the reserve ledger. Run any sequence of operations in
/// which none fails and each step moves the recorded balance by exactly its
/// recorded inflow minus its recorded outflow — which is what every Ok
/// contract in this crate ensures, with the resynchronizing operations
/// finding the recorded and custody balances already equal — and the final
/// recorded balance is the initial one plus all gross inflows minus all gross
/// outflows.
pub proof fn lemma_reserve_conservation(balances: Seq<int>, moves: Seq<ReserveMove>)
    requires
        balances.len() == moves.len() + 1,
        forall|k: int|
            0 <= k < moves.len() ==> balances[k + 1] == balances[k] + moves[k].inflow
                - moves[k].outflow,
    ensures
        balances.last() == balances[0] + sum_inflows(moves) - sum_outflows(moves),
    decreases moves.len(),
{
    if moves.len() == 0 {
    } else {
        let n = moves.len() as int;
        lemma_reserve_conservation(balances.drop_last(), moves.drop_last());
        assert(balances.drop_last().last() == balances[n - 1]);
        assert(balances[n] == balances[n - 1] + moves[n - 1].inflow - moves[n - 1].outflow);
    }
}

} // verus!
