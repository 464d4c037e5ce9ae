use vstd::prelude::*;

use vstd::arithmetic::div_mod::{
    lemma_div_by_multiple, lemma_div_is_ordered, lemma_div_multiples_vanish_fancy,
    lemma_div_of0, lemma_fundamental_div_mod,
};
use vstd::arithmetic::mul::{lemma_mul_inequality, lemma_mul_left_inequality};

use crate::errors::PoolError;

verus! {

/// Fee rates are expressed in basis points: parts per 10000.
pub const BPS_DENOMINATOR: u64 = 10_000;

/// Exchange rates are fixed-point with six decimal places.
pub const RATE_SCALE: u64 = 1_000_000;

/// The fee charged on `amount` at `fee_bps` basis points, floor division.
pub open spec fn spec_fee(amount: int, fee_bps: int) -> int {
    amount * fee_bps / 10_000
}

/// Shares credited for a net reserve deposit at `rate` (scale 1e6).
pub open spec fn spec_shares_from_net(net_amount: int, rate: int) -> int {
    net_amount * 1_000_000 / rate
}

/// Gross reserve proceeds for redeeming `share_amount` at `rate` (scale 1e6).
pub open spec fn spec_gross_from_shares(share_amount: int, rate: int) -> int {
    share_amount * rate / 1_000_000
}

/// Fixed-point conversion and fee math over the pool's unsigned amounts.
/// Every step is checked; on any arithmetic violation the whole computation
/// fails instead of wrapping.
pub struct CalculationUtils;

impl CalculationUtils {
    /// Fee on `amount` at `fee_bps` basis points, floor division; 0 when
    /// `fee_bps` is 0.
    pub fn calculate_fee(amount: u64, fee_bps: u16) -> (r: Result<u64, PoolError>)
        ensures
            r is Ok <==> amount * fee_bps <= u64::MAX,
            r is Ok ==> r->Ok_0 == spec_fee(amount as int, fee_bps as int),
            r is Err ==> r->Err_0 == PoolError::MathematicalOverflow,
    {
        if fee_bps == 0 {
            return Ok(0);
        }
        match amount.checked_mul(fee_bps as u64) {
            Some(scaled) => match scaled.checked_div(BPS_DENOMINATOR) {
                Some(f) => Ok(f),
                None => Err(PoolError::DivisionByZero),
            },
            None => Err(PoolError::MathematicalOverflow),
        }
    }

    /// Share amount, deposit fee and gross reserve pull-in for a net deposit.
    /// The fee is added on top of the net amount (the depositor bears it) and
    /// shares are credited for the net amount only.
    pub fn calculate_ipt_from_net_usdc_deposit(
        net_usdc_amount: u64,
        exchange_rate: u64,
        deposit_fee_bps: u16,
    ) -> (r: Result<(u64, u64, u64), PoolError>)
        ensures
            r is Ok <==> {
                let fee = spec_fee(net_usdc_amount as int, deposit_fee_bps as int);
                &&& net_usdc_amount * deposit_fee_bps <= u64::MAX
                &&& net_usdc_amount + fee <= u64::MAX
                &&& net_usdc_amount * 1_000_000 <= u64::MAX
                &&& exchange_rate > 0
            },
            r is Ok ==> {
                let fee = spec_fee(net_usdc_amount as int, deposit_fee_bps as int);
                r->Ok_0 == (
                    spec_shares_from_net(net_usdc_amount as int, exchange_rate as int) as u64,
                    fee as u64,
                    (net_usdc_amount + fee) as u64,
                )
            },
            r is Err ==> r->Err_0 == {
                let fee = spec_fee(net_usdc_amount as int, deposit_fee_bps as int);
                if net_usdc_amount * deposit_fee_bps > u64::MAX
                    || net_usdc_amount + fee > u64::MAX
                    || net_usdc_amount * 1_000_000 > u64::MAX {
                    PoolError::MathematicalOverflow
                } else {
                    PoolError::DivisionByZero
                }
            },
    {
        let deposit_fee = match Self::calculate_fee(net_usdc_amount, deposit_fee_bps) {
            Ok(f) => f,
            Err(e) => return Err(e),
        };
        let gross_usdc_amount = match net_usdc_amount.checked_add(deposit_fee) {
            Some(g) => g,
            None => return Err(PoolError::MathematicalOverflow),
        };
        let scaled = match net_usdc_amount.checked_mul(RATE_SCALE) {
            Some(s) => s,
            None => return Err(PoolError::MathematicalOverflow),
        };
        let ipt_amount = match scaled.checked_div(exchange_rate) {
            Some(i) => i,
            None => return Err(PoolError::DivisionByZero),
        };
        Ok((ipt_amount, deposit_fee, gross_usdc_amount))
    }

    /// Net reserve proceeds and withdrawal fee for redeeming a net share
    /// amount. The fee is subtracted from the gross proceeds (asymmetric to
    /// the deposit direction, on purpose).
    pub fn calculate_usdc_from_net_ipt_withdrawal(
        net_ipt_amount: u64,
        exchange_rate: u64,
        withdrawal_fee_bps: u16,
    ) -> (r: Result<(u64, u64), PoolError>)
        ensures
            r is Ok <==> {
                let gross = spec_gross_from_shares(net_ipt_amount as int, exchange_rate as int);
                let fee = spec_fee(gross, withdrawal_fee_bps as int);
                &&& net_ipt_amount * exchange_rate <= u64::MAX
                &&& gross * withdrawal_fee_bps <= u64::MAX
                &&& fee <= gross
            },
            r is Ok ==> {
                let gross = spec_gross_from_shares(net_ipt_amount as int, exchange_rate as int);
                let fee = spec_fee(gross, withdrawal_fee_bps as int);
                r->Ok_0 == ((gross - fee) as u64, fee as u64)
            },
            r is Err ==> r->Err_0 == {
                let gross = spec_gross_from_shares(net_ipt_amount as int, exchange_rate as int);
                let fee = spec_fee(gross, withdrawal_fee_bps as int);
                if net_ipt_amount * exchange_rate > u64::MAX || gross * withdrawal_fee_bps > u64::MAX {
                    PoolError::MathematicalOverflow
                } else {
                    PoolError::MathematicalUnderflow
                }
            },
    {
        let scaled = match net_ipt_amount.checked_mul(exchange_rate) {
            Some(s) => s,
            None => return Err(PoolError::MathematicalOverflow),
        };
        let gross_usdc_amount = match scaled.checked_div(RATE_SCALE) {
            Some(g) => g,
            None => return Err(PoolError::DivisionByZero),
        };
        let withdrawal_fee = match Self::calculate_fee(gross_usdc_amount, withdrawal_fee_bps) {
            Ok(f) => f,
            Err(e) => return Err(e),
        };
        let net_usdc_amount = match gross_usdc_amount.checked_sub(withdrawal_fee) {
            Some(n) => n,
            None => return Err(PoolError::MathematicalUnderflow),
        };
        Ok((net_usdc_amount, withdrawal_fee))
    }
}

/// Law: the fee is non-decreasing in both the amount and the rate.
pub proof fn lemma_fee_monotonic(amount1: int, fee_bps1: int, amount2: int, fee_bps2: int)
    requires
        0 <= amount1 <= amount2,
        0 <= fee_bps1 <= fee_bps2,
    ensures
        spec_fee(amount1, fee_bps1) <= spec_fee(amount2, fee_bps2),
{
    if amount2 == 0 {
        lemma_div_of0(10_000);
    } else {
        lemma_mul_inequality(amount1, amount2, fee_bps1);
        lemma_mul_left_inequality(amount2, fee_bps1, fee_bps2);
        lemma_div_is_ordered(amount1 * fee_bps1, amount2 * fee_bps2, 10_000);
    }
}

/// Law: the fee at 0 basis points is 0, whatever the amount.
pub proof fn lemma_fee_zero(amount: int)
    ensures
        spec_fee(amount, 0) == 0,
{
}

/// Law: depositing a net amount `d` and redeeming the resulting shares at the
/// same rate, with no fees in either direction, yields back `d` up to one
/// unit lost to floor division, as long as the rate is at most 1.0 (scaled:
/// 1_000_000). Above 1.0 a single share is worth more than one reserve unit
/// and the loss can exceed one unit.
pub proof fn lemma_round_trip(d: int, rate: int)
    requires
        0 <= d,
        0 < rate <= 1_000_000,
    ensures
        spec_gross_from_shares(spec_shares_from_net(d, rate), rate) <= d,
        d - spec_gross_from_shares(spec_shares_from_net(d, rate), rate) <= 1,
{
    let m = 1_000_000int;
    let s = d * m / rate;
    let g = s * rate / m;
    lemma_fundamental_div_mod(d * m, rate);
    let rem = (d * m) % rate;
    assert(s * rate == d * m - rem) by {
        lemma_fundamental_div_mod(d * m, rate);
        assert(d * m == rate * s + rem);
        assert(rate * s == s * rate) by (nonlinear_arith);
    }
    // Upper bound: s * rate <= d * m, so g <= (d * m) / m == d.
    lemma_div_is_ordered(s * rate, d * m, m);
    lemma_div_by_multiple(d, m);
    assert(d * m / m == d);
    // Lower bound: rem < rate <= m, so s * rate >= (d - 1) * m + 1,
    // whose quotient by m is d - 1.
    assert(s * rate >= (d - 1) * m + 1) by {
        assert(rem <= rate - 1);
        assert((d - 1) * m == d * m - m) by (nonlinear_arith);
    }
    lemma_div_is_ordered((d - 1) * m + 1, s * rate, m);
    lemma_div_multiples_vanish_fancy(d - 1, 1, m);
    assert(((d - 1) * m + 1) / m == d - 1) by {
        assert(m * (d - 1) == (d - 1) * m) by (nonlinear_arith);
    }
}

} // verus!
