use refi_ipt::calculation_utils::CalculationUtils;
use refi_ipt::errors::PoolError;

#[test]
fn fee_concrete_one_percent() {
    assert_eq!(CalculationUtils::calculate_fee(1_000_000, 100), Ok(10_000));
}

#[test]
fn fee_zero_bps_is_zero() {
    assert_eq!(CalculationUtils::calculate_fee(0, 0), Ok(0));
    assert_eq!(CalculationUtils::calculate_fee(1, 0), Ok(0));
    assert_eq!(CalculationUtils::calculate_fee(u64::MAX, 0), Ok(0));
}

#[test]
fn fee_floor_division() {
    // 999 * 100 / 10000 = 9.99 floored to 9.
    assert_eq!(CalculationUtils::calculate_fee(999, 100), Ok(9));
    // Amounts below the denominator round down to zero at 1 bps.
    assert_eq!(CalculationUtils::calculate_fee(9_999, 1), Ok(0));
}

#[test]
fn fee_monotonic_concrete() {
    let f_small = CalculationUtils::calculate_fee(100_000, 50).unwrap();
    let f_bigger_amount = CalculationUtils::calculate_fee(200_000, 50).unwrap();
    let f_bigger_rate = CalculationUtils::calculate_fee(200_000, 100).unwrap();
    assert!(f_small <= f_bigger_amount);
    assert!(f_bigger_amount <= f_bigger_rate);
}

#[test]
fn fee_full_rate_overflow() {
    assert_eq!(
        CalculationUtils::calculate_fee(u64::MAX, 10_000),
        Err(PoolError::MathematicalOverflow)
    );
}

#[test]
fn deposit_concrete_scenario() {
    // rate 1.0, deposit fee 100 bps, net 1_000_000:
    // fee 10_000, gross 1_010_000, shares 1_000_000.
    assert_eq!(
        CalculationUtils::calculate_ipt_from_net_usdc_deposit(1_000_000, 1_000_000, 100),
        Ok((1_000_000, 10_000, 1_010_000))
    );
}

#[test]
fn deposit_max_amount_full_fee_overflows() {
    assert_eq!(
        CalculationUtils::calculate_ipt_from_net_usdc_deposit(u64::MAX, 1_000_000, 10_000),
        Err(PoolError::MathematicalOverflow)
    );
}

#[test]
fn deposit_scale_overflow() {
    // Even with no fee, net * 1e6 must fit.
    assert_eq!(
        CalculationUtils::calculate_ipt_from_net_usdc_deposit(u64::MAX / 2, 1_000_000, 0),
        Err(PoolError::MathematicalOverflow)
    );
}

#[test]
fn deposit_rate_zero_division() {
    assert_eq!(
        CalculationUtils::calculate_ipt_from_net_usdc_deposit(1_000, 0, 0),
        Err(PoolError::DivisionByZero)
    );
}

#[test]
fn withdrawal_concrete_scenario() {
    // rate 1.0, withdrawal fee 50 bps, net shares 1_000_000:
    // gross 1_000_000, fee 5_000, net paid 995_000.
    assert_eq!(
        CalculationUtils::calculate_usdc_from_net_ipt_withdrawal(1_000_000, 1_000_000, 50),
        Ok((995_000, 5_000))
    );
}

#[test]
fn withdrawal_scale_overflow() {
    assert_eq!(
        CalculationUtils::calculate_usdc_from_net_ipt_withdrawal(u64::MAX, 2, 0),
        Err(PoolError::MathematicalOverflow)
    );
}

#[test]
fn withdrawal_fee_asymmetry() {
    // The deposit fee is added on top of the net amount; the withdrawal fee
    // is taken out of the gross proceeds. Same rate, same fee rate, same
    // 1_000_000 units moved: the depositor pays 1_010_000 while the
    // withdrawer receives 990_000.
    let (_, dep_fee, gross_in) =
        CalculationUtils::calculate_ipt_from_net_usdc_deposit(1_000_000, 1_000_000, 100).unwrap();
    let (net_out, wd_fee) =
        CalculationUtils::calculate_usdc_from_net_ipt_withdrawal(1_000_000, 1_000_000, 100)
            .unwrap();
    assert_eq!((dep_fee, gross_in), (10_000, 1_010_000));
    assert_eq!((net_out, wd_fee), (990_000, 10_000));
}

#[test]
fn round_trip_exact_at_parity() {
    // rate 1.0 and no fees: withdrawing the deposited shares returns exactly
    // the net deposit.
    let d: u64 = 123_456_789;
    let (shares, _, _) =
        CalculationUtils::calculate_ipt_from_net_usdc_deposit(d, 1_000_000, 0).unwrap();
    let (back, _) =
        CalculationUtils::calculate_usdc_from_net_ipt_withdrawal(shares, 1_000_000, 0).unwrap();
    assert_eq!(back, d);
}

#[test]
fn round_trip_loses_at_most_one_unit_below_parity() {
    // Rates at or below 1.0 lose at most one unit to the two floors.
    for rate in [1u64, 3, 7, 999_999, 1_000_000] {
        for d in [0u64, 1, 5, 999, 1_000_000, 123_456_789] {
            let (shares, _, _) =
                CalculationUtils::calculate_ipt_from_net_usdc_deposit(d, rate, 0).unwrap();
            let (back, _) =
                CalculationUtils::calculate_usdc_from_net_ipt_withdrawal(shares, rate, 0).unwrap();
            assert!(back <= d, "rate {rate} d {d} back {back}");
            assert!(d - back <= 1, "rate {rate} d {d} back {back}");
        }
    }
}
