use refi_ipt::errors::PoolError;
use refi_ipt::ids::AccountId;
use refi_ipt::init_pool::{init_pool, init_pool_step2};
use refi_ipt::process_queue::{batch_execute_withdraw, QueueUserAccounts, SkipReason, StepOutcome};
use refi_ipt::states::{PendingWithdraw, Pool, PoolConfig, PoolState};

fn id(n: u128) -> AccountId {
    AccountId { hi: 0, lo: n }
}

fn config() -> PoolConfig {
    PoolConfig {
        admin_authority: id(1),
        oracle_authority: id(2),
        fee_collector: id(3),
        deposit_fee_bps: 0,
        withdrawal_fee_bps: 0,
        management_fee_bps: 0,
        initial_exchange_rate: 1_000_000,
        max_total_supply: 0,
        max_queue_size: 20,
    }
}

fn pool_with_queue(entries: &[(u128, u64, u64)]) -> Pool {
    let (mut p, _) = init_pool(config(), id(100), id(101), 255, 7).unwrap();
    init_pool_step2(&mut p, id(100), id(102), id(103)).unwrap();
    for &(user, amount, min) in entries {
        p.pending_queue.push(PendingWithdraw {
            user: id(user),
            amount,
            min_usdc_amount: min,
        });
        p.total_ipt_supply += amount;
    }
    p
}

fn good_accounts(p: &Pool, user: u128, balance: u64) -> QueueUserAccounts {
    QueueUserAccounts {
        ipt_owner: id(user),
        ipt_mint: p.ipt_mint,
        ipt_balance: balance,
        ipt_delegate: Some(p.pool_authority),
        ipt_delegated_amount: u64::MAX,
        usdc_mint: p.usdc_mint,
    }
}

#[test]
fn stop_preserves_fifo_order() {
    // Queue [A(100, min 10), B(50, min 5)] with liquidity for A only: A
    // executes, the walk stops before B, and B stays queued at the head.
    let mut p = pool_with_queue(&[(7, 100, 10), (8, 50, 5)]);
    let accounts = vec![good_accounts(&p, 7, 1_000), good_accounts(&p, 8, 1_000)];
    let receipt = batch_execute_withdraw(&mut p, &vec![100, 50], &accounts, 100).unwrap();
    assert_eq!(receipt.successful_count, 1);
    assert_eq!(receipt.skipped_count, 0);
    assert_eq!(receipt.total_ipt_burned, 100);
    assert_eq!(receipt.total_usdc_transferred, 100);
    assert_eq!(receipt.total_fees, 0);
    assert_eq!(receipt.steps.len(), 1);
    assert!(matches!(
        receipt.steps[0],
        StepOutcome::Executed { ipt_amount: 100, net_usdc_amount: 100, withdrawal_fee: 0, user }
            if user == id(7)
    ));
    assert_eq!(p.pending_queue.len(), 1);
    assert_eq!(p.pending_queue[0].user, id(8));
    assert_eq!(p.pending_queue[0].amount, 50);
    assert_eq!(p.total_usdc_reserves, 0);
}

#[test]
fn skipped_entry_is_removed_and_later_entry_still_runs() {
    // A's balance fell below its queued amount: A is skipped and removed, B
    // is still evaluated and paid, and the totals count B alone.
    let mut p = pool_with_queue(&[(7, 100, 0), (8, 50, 0)]);
    let accounts = vec![good_accounts(&p, 7, 99), good_accounts(&p, 8, 1_000)];
    let receipt = batch_execute_withdraw(&mut p, &vec![100, 50], &accounts, 1_000).unwrap();
    assert_eq!(receipt.successful_count, 1);
    assert_eq!(receipt.skipped_count, 1);
    assert_eq!(receipt.total_ipt_burned, 50);
    assert_eq!(receipt.total_usdc_transferred, 50);
    assert!(matches!(
        receipt.steps[0],
        StepOutcome::Skipped { ipt_amount: 100, reason: SkipReason::InsufficientBalance, user }
            if user == id(7)
    ));
    assert!(matches!(receipt.steps[1], StepOutcome::Executed { .. }));
    assert!(p.pending_queue.is_empty());
    assert_eq!(p.total_usdc_reserves, 950);
}

#[test]
fn stale_slippage_entry_is_skipped() {
    // B's recorded minimum can no longer be met at the current rate.
    let mut p = pool_with_queue(&[(7, 100, 0), (8, 50, 51)]);
    let accounts = vec![good_accounts(&p, 7, 1_000), good_accounts(&p, 8, 1_000)];
    let receipt = batch_execute_withdraw(&mut p, &vec![100, 50], &accounts, 1_000).unwrap();
    assert_eq!(receipt.successful_count, 1);
    assert_eq!(receipt.skipped_count, 1);
    assert!(matches!(
        receipt.steps[1],
        StepOutcome::Skipped { reason: SkipReason::SlippageExceeded, .. }
    ));
    assert!(p.pending_queue.is_empty());
}

#[test]
fn advisory_amounts_do_not_override_the_queue() {
    // The caller's amounts are advisory: the queue's recorded amount is paid.
    let mut p = pool_with_queue(&[(7, 100, 0)]);
    let accounts = vec![good_accounts(&p, 7, 1_000)];
    let receipt = batch_execute_withdraw(&mut p, &vec![999], &accounts, 1_000).unwrap();
    assert_eq!(receipt.total_ipt_burned, 100);
    assert_eq!(receipt.total_usdc_transferred, 100);
}

#[test]
fn withdrawal_fee_accumulates_in_batch() {
    let mut p = pool_with_queue(&[(7, 1_000_000, 0)]);
    p.config.withdrawal_fee_bps = 50;
    let accounts = vec![good_accounts(&p, 7, u64::MAX)];
    let receipt = batch_execute_withdraw(&mut p, &vec![1_000_000], &accounts, 2_000_000).unwrap();
    assert_eq!(receipt.total_usdc_transferred, 995_000);
    assert_eq!(receipt.total_fees, 5_000);
    assert_eq!(p.total_accumulated_fees, 5_000);
    // gross = 1_000_000 left the reserve.
    assert_eq!(p.total_usdc_reserves, 1_000_000);
}

#[test]
fn account_shape_errors_abort_the_batch() {
    let base = pool_with_queue(&[(7, 100, 0), (8, 50, 0)]);

    let mut p = base.clone();
    let mut accounts = vec![good_accounts(&p, 7, 1_000), good_accounts(&p, 8, 1_000)];
    accounts[1].ipt_owner = id(9);
    assert_eq!(
        batch_execute_withdraw(&mut p, &vec![100, 50], &accounts, 1_000),
        Err(PoolError::InvalidUserAccount)
    );
    assert_eq!(p.pending_queue.len(), 2);
    assert_eq!(p.total_ipt_supply, base.total_ipt_supply);
    assert_eq!(p.total_usdc_reserves, base.total_usdc_reserves);

    let mut p = base.clone();
    let mut accounts = vec![good_accounts(&p, 7, 1_000), good_accounts(&p, 8, 1_000)];
    accounts[0].ipt_mint = id(999);
    assert_eq!(
        batch_execute_withdraw(&mut p, &vec![100, 50], &accounts, 1_000),
        Err(PoolError::InvalidMint)
    );

    let mut p = base.clone();
    let mut accounts = vec![good_accounts(&p, 7, 1_000), good_accounts(&p, 8, 1_000)];
    accounts[0].usdc_mint = id(999);
    assert_eq!(
        batch_execute_withdraw(&mut p, &vec![100, 50], &accounts, 1_000),
        Err(PoolError::InvalidMint)
    );

    let mut p = base.clone();
    let mut accounts = vec![good_accounts(&p, 7, 1_000), good_accounts(&p, 8, 1_000)];
    accounts[0].ipt_delegate = None;
    assert_eq!(
        batch_execute_withdraw(&mut p, &vec![100, 50], &accounts, 1_000),
        Err(PoolError::NotDelegated)
    );

    let mut p = base.clone();
    let mut accounts = vec![good_accounts(&p, 7, 1_000), good_accounts(&p, 8, 1_000)];
    accounts[0].ipt_delegate = Some(id(555));
    assert_eq!(
        batch_execute_withdraw(&mut p, &vec![100, 50], &accounts, 1_000),
        Err(PoolError::NotDelegated)
    );

    let mut p = base.clone();
    let mut accounts = vec![good_accounts(&p, 7, 1_000), good_accounts(&p, 8, 1_000)];
    accounts[0].ipt_delegated_amount = 99;
    assert_eq!(
        batch_execute_withdraw(&mut p, &vec![100, 50], &accounts, 1_000),
        Err(PoolError::InsufficientDelegation)
    );
}

#[test]
fn batch_guards() {
    let mut p = pool_with_queue(&[(7, 100, 0)]);
    let accounts = vec![good_accounts(&p, 7, 1_000)];

    let eleven: Vec<u64> = vec![1; 11];
    assert_eq!(
        batch_execute_withdraw(&mut p, &eleven, &accounts, 1_000),
        Err(PoolError::BatchSizeTooLarge)
    );
    assert_eq!(
        batch_execute_withdraw(&mut p, &vec![100, 50], &accounts, 1_000),
        Err(PoolError::EmptyWithdrawalBatch)
    );
    assert_eq!(
        batch_execute_withdraw(&mut p, &vec![100], &vec![], 1_000),
        Err(PoolError::InvalidAccountsCount)
    );
    p.pool_state = PoolState::Paused;
    assert_eq!(
        batch_execute_withdraw(&mut p, &vec![100], &accounts, 1_000),
        Err(PoolError::PoolPaused)
    );
    p.pool_state = PoolState::DepositOnly;
    assert_eq!(
        batch_execute_withdraw(&mut p, &vec![100], &accounts, 1_000),
        Err(PoolError::WithdrawalsDisabled)
    );
    p.pool_state = PoolState::WithdrawOnly;
    assert!(batch_execute_withdraw(&mut p, &vec![100], &accounts, 1_000).is_ok());
}

#[test]
fn empty_batch_only_resyncs() {
    let mut p = pool_with_queue(&[(7, 100, 0)]);
    let receipt = batch_execute_withdraw(&mut p, &vec![], &vec![], 555).unwrap();
    assert_eq!(receipt.successful_count, 0);
    assert_eq!(receipt.skipped_count, 0);
    assert_eq!(receipt.steps.len(), 0);
    assert_eq!(p.pending_queue.len(), 1);
    // The resynchronized custody balance is committed.
    assert_eq!(p.total_usdc_reserves, 555);
}

#[test]
fn stop_at_head_keeps_everything() {
    let mut p = pool_with_queue(&[(7, 100, 0), (8, 50, 0)]);
    let accounts = vec![good_accounts(&p, 7, 1_000), good_accounts(&p, 8, 1_000)];
    let receipt = batch_execute_withdraw(&mut p, &vec![100, 50], &accounts, 99).unwrap();
    assert_eq!(receipt.successful_count, 0);
    assert_eq!(receipt.steps.len(), 0);
    assert_eq!(p.pending_queue.len(), 2);
    assert_eq!(p.pending_queue[0].user, id(7));
}

#[test]
fn burning_more_than_supply_underflows() {
    let mut p = pool_with_queue(&[(7, 100, 0)]);
    p.total_ipt_supply = 99;
    let accounts = vec![good_accounts(&p, 7, 1_000)];
    assert_eq!(
        batch_execute_withdraw(&mut p, &vec![100], &accounts, 1_000),
        Err(PoolError::MathematicalUnderflow)
    );
    assert_eq!(p.total_ipt_supply, 99);
    assert_eq!(p.pending_queue.len(), 1);
}
