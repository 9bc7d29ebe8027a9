//! Simple interest on a staked balance.
use vstd::prelude::*;
use crate::clock::{elapsed_ms, elapsed_since};

verus! {

/// One accrual period: ten seconds of block time.
pub const ACCRUAL_PERIOD_MS: u64 = 10000;

/// `x` held to the range of `u64`.
pub open spec fn clamp_u64(x: int) -> u64 {
    if x <= 0 {
        0
    } else if x >= u64::MAX {
        u64::MAX
    } else {
        x as u64
    }
}

/// Whole accrual periods since `last_staked_at`.
pub open spec fn periods(last_staked_at: u64, now: u64) -> nat {
    elapsed_ms(now, last_staked_at) / ACCRUAL_PERIOD_MS as nat
}

/// The staked balance with one percent simple interest per period, rounded
/// down; zero where nothing is staked or nothing was ever staked.
pub open spec fn accrued(staked: u64, last_staked_at: u64, now: u64) -> u64 {
    if last_staked_at == 0 || staked == 0 {
        0
    } else {
        clamp_u64(staked + (staked * periods(last_staked_at, now)) / 100)
    }
}

pub fn accrued_balance(staked: u64, last_staked_at: u64, now: u64) -> (r: u64)
    ensures
        r == accrued(staked, last_staked_at, now),
{
    if last_staked_at == 0 || staked == 0 {
        return 0;
    }
    let periods: u64 = elapsed_since(now, last_staked_at) / ACCRUAL_PERIOD_MS;
    assert((staked as int) * (periods as int) <= (u64::MAX as int) * (u64::MAX as int))
        by (nonlinear_arith)
        requires
            staked <= u64::MAX,
            periods <= u64::MAX,
    ;
    let interest: u128 = (staked as u128) * (periods as u128) / 100;
    let total: u128 = staked as u128 + interest;
    if total >= u64::MAX as u128 {
        u64::MAX
    } else {
        total as u64
    }
}

} // verus!
