use refi_ipt::errors::PoolError;
use refi_ipt::ids::AccountId;
use refi_ipt::states::{PoolConfig, PoolState};
use refi_ipt::validation_utils::ValidationUtils;

fn id(n: u128) -> AccountId {
    AccountId { hi: 0, lo: n }
}

fn good_config() -> PoolConfig {
    PoolConfig {
        admin_authority: id(1),
        oracle_authority: id(2),
        fee_collector: id(3),
        deposit_fee_bps: 100,
        withdrawal_fee_bps: 50,
        management_fee_bps: 200,
        initial_exchange_rate: 1_000_000,
        max_total_supply: 0,
        max_queue_size: 20,
    }
}

#[test]
fn config_valid_passes() {
    assert_eq!(ValidationUtils::validate_pool_config(&good_config()), Ok(()));
}

#[test]
fn config_fee_rates_above_cap_rejected() {
    let mut c = good_config();
    c.deposit_fee_bps = 10_001;
    assert_eq!(
        ValidationUtils::validate_pool_config(&c),
        Err(PoolError::InvalidFeeRate)
    );
    let mut c = good_config();
    c.withdrawal_fee_bps = 10_001;
    assert_eq!(
        ValidationUtils::validate_pool_config(&c),
        Err(PoolError::InvalidFeeRate)
    );
    let mut c = good_config();
    c.management_fee_bps = u16::MAX;
    assert_eq!(
        ValidationUtils::validate_pool_config(&c),
        Err(PoolError::InvalidFeeRate)
    );
}

#[test]
fn config_fee_rate_cap_is_inclusive() {
    let mut c = good_config();
    c.deposit_fee_bps = 10_000;
    c.withdrawal_fee_bps = 10_000;
    c.management_fee_bps = 10_000;
    assert_eq!(ValidationUtils::validate_pool_config(&c), Ok(()));
}

#[test]
fn config_zero_rate_rejected() {
    let mut c = good_config();
    c.initial_exchange_rate = 0;
    assert_eq!(
        ValidationUtils::validate_pool_config(&c),
        Err(PoolError::InvalidExchangeRate)
    );
}

#[test]
fn config_null_authorities_rejected() {
    let mut c = good_config();
    c.admin_authority = AccountId::null();
    assert_eq!(
        ValidationUtils::validate_pool_config(&c),
        Err(PoolError::InvalidAuthority)
    );
    let mut c = good_config();
    c.oracle_authority = AccountId::null();
    assert_eq!(
        ValidationUtils::validate_pool_config(&c),
        Err(PoolError::InvalidAuthority)
    );
    let mut c = good_config();
    c.fee_collector = AccountId::null();
    assert_eq!(
        ValidationUtils::validate_pool_config(&c),
        Err(PoolError::InvalidAuthority)
    );
}

#[test]
fn config_queue_capacity_over_allocation_rejected() {
    let mut c = good_config();
    c.max_queue_size = 21;
    assert_eq!(
        ValidationUtils::validate_pool_config(&c),
        Err(PoolError::InvalidConfigParameter)
    );
}

#[test]
fn error_messages() {
    assert_eq!(PoolError::QueueFull.message(), "Withdrawal queue is full - maximum capacity reached");
    assert_eq!(PoolError::SlippageExceeded.message(), "Slippage tolerance exceeded");
    assert_eq!(PoolError::MathematicalOverflow.message(), "Mathematical overflow");
}

#[test]
fn exchange_rate_guard() {
    assert_eq!(ValidationUtils::validate_exchange_rate(1), Ok(()));
    assert_eq!(
        ValidationUtils::validate_exchange_rate(0),
        Err(PoolError::InvalidExchangeRate)
    );
}

#[test]
fn lifecycle_guard_matrix() {
    let cases: [(PoolState, bool, Result<(), PoolError>); 10] = [
        (PoolState::Active, true, Ok(())),
        (PoolState::Active, false, Ok(())),
        (PoolState::Paused, true, Err(PoolError::PoolPaused)),
        (PoolState::Paused, false, Err(PoolError::PoolPaused)),
        (PoolState::Frozen, true, Err(PoolError::PoolFrozen)),
        (PoolState::Frozen, false, Err(PoolError::PoolFrozen)),
        (PoolState::DepositOnly, true, Ok(())),
        (PoolState::DepositOnly, false, Err(PoolError::WithdrawalsDisabled)),
        (PoolState::WithdrawOnly, true, Err(PoolError::DepositsDisabled)),
        (PoolState::WithdrawOnly, false, Ok(())),
    ];
    for (state, is_deposit, expected) in cases {
        assert_eq!(
            ValidationUtils::validate_pool_state_for_operation(&state, is_deposit),
            expected
        );
    }
}
