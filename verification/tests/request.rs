use refi_ipt::errors::PoolError;
use refi_ipt::ids::AccountId;
use refi_ipt::init_pool::{init_pool, init_pool_step2};
use refi_ipt::states::{Pool, PoolConfig, PoolState};
use refi_ipt::user_withdrawal_request::user_withdrawal_request;

fn id(n: u128) -> AccountId {
    AccountId { hi: 0, lo: n }
}

fn config() -> PoolConfig {
    PoolConfig {
        admin_authority: id(1),
        oracle_authority: id(2),
        fee_collector: id(3),
        deposit_fee_bps: 0,
        withdrawal_fee_bps: 50,
        management_fee_bps: 0,
        initial_exchange_rate: 1_000_000,
        max_total_supply: 0,
        max_queue_size: 20,
    }
}

fn pool() -> Pool {
    let (mut p, _) = init_pool(config(), id(100), id(101), 255, 7).unwrap();
    init_pool_step2(&mut p, id(100), id(102), id(103)).unwrap();
    p
}

#[test]
fn request_reports_expected_proceeds() {
    let p = pool();
    let event = user_withdrawal_request(
        &p,
        id(7),
        1_000_000,
        900_000,
        2_000_000,
        1_500_000,
        Some(id(100)),
        9,
    )
    .unwrap();
    assert_eq!(event.ipt_amount, 1_000_000);
    assert_eq!(event.expected_usdc_amount, 995_000);
    assert_eq!(event.expected_withdrawal_fee, 5_000);
    assert_eq!(event.min_usdc_amount, 900_000);
    assert_eq!(event.exchange_rate, 1_000_000);
}

#[test]
fn request_mutates_nothing() {
    let p = pool();
    let before = (
        p.total_ipt_supply,
        p.total_usdc_reserves,
        p.total_accumulated_fees,
        p.pending_queue.len(),
    );
    user_withdrawal_request(&p, id(7), 1_000, 0, 2_000, 2_000, Some(id(100)), 9).unwrap();
    let after = (
        p.total_ipt_supply,
        p.total_usdc_reserves,
        p.total_accumulated_fees,
        p.pending_queue.len(),
    );
    assert_eq!(before, after);
}

#[test]
fn request_checks_delegation() {
    let p = pool();
    // Delegated amount below the requested amount.
    assert_eq!(
        user_withdrawal_request(&p, id(7), 1_000, 0, 2_000, 999, Some(id(100)), 9),
        Err(PoolError::InsufficientApproval)
    );
    // Delegate missing.
    assert_eq!(
        user_withdrawal_request(&p, id(7), 1_000, 0, 2_000, 2_000, None, 9),
        Err(PoolError::InvalidDelegate)
    );
    // Delegate is not the pool authority.
    assert_eq!(
        user_withdrawal_request(&p, id(7), 1_000, 0, 2_000, 2_000, Some(id(55)), 9),
        Err(PoolError::InvalidDelegate)
    );
}

#[test]
fn request_rejections() {
    let mut p = pool();
    assert_eq!(
        user_withdrawal_request(&p, id(7), 0, 0, 2_000, 2_000, Some(id(100)), 9),
        Err(PoolError::InvalidAmount)
    );
    assert_eq!(
        user_withdrawal_request(&p, id(7), 1_000, 0, 999, 2_000, Some(id(100)), 9),
        Err(PoolError::InsufficientAccountBalance)
    );
    // 1_000 shares give 995 net at 50 bps; a floor of 996 trips.
    assert_eq!(
        user_withdrawal_request(&p, id(7), 1_000, 996, 2_000, 2_000, Some(id(100)), 9),
        Err(PoolError::SlippageExceeded)
    );
    p.pool_state = PoolState::DepositOnly;
    assert_eq!(
        user_withdrawal_request(&p, id(7), 1_000, 0, 2_000, 2_000, Some(id(100)), 9),
        Err(PoolError::WithdrawalsDisabled)
    );
}
