//! The fee calculator: a pure function from a transfer amount and a fee
//! schedule to the fee owed, with the bound that makes transfers safe.

use vstd::prelude::*;
use crate::state::FeeSchedule;
use vstd::arithmetic::div_mod::{lemma_div_is_ordered, lemma_div_multiples_vanish, lemma_div_pos_is_pos};
use vstd::arithmetic::mul::{lemma_mul_inequality, lemma_mul_is_commutative, lemma_mul_nonnegative, lemma_mul_upper_bound};

verus! {

/// The basis-point denominator: a rate of `BPS_DENOMINATOR` means 100%.
pub const BPS_DENOMINATOR: u16 = 10000;

/// The proportional part of the fee: `amount * fee_bps / 10000`, rounded
/// toward zero so the fee never exceeds the exact proportion.
pub open spec fn raw_fee(amount: u64, fee_bps: u16) -> int {
    (amount * fee_bps) / (BPS_DENOMINATOR as int)
}

/// The fee owed on `amount` under `schedule`: the proportional part, capped
/// at the schedule's `max_fee`.
pub open spec fn fee_for(amount: u64, schedule: FeeSchedule) -> int {
    if raw_fee(amount, schedule.fee_bps) <= schedule.max_fee {
        raw_fee(amount, schedule.fee_bps)
    } else {
        schedule.max_fee as int
    }
}

/// Computes the transfer fee for `amount` under `schedule`. The intermediate
/// product is taken in 128 bits, so no amount can overflow it.
pub fn compute_fee(amount: u64, schedule: &FeeSchedule) -> (fee: u64)
    ensures
        fee == fee_for(amount, *schedule),
{
    proof {
        lemma_mul_upper_bound(amount as int, u64::MAX as int, schedule.fee_bps as int, u16::MAX as int);
    }
    let raw: u128 = (amount as u128) * (schedule.fee_bps as u128) / (BPS_DENOMINATOR as u128);
    if raw <= schedule.max_fee as u128 {
        raw as u64
    } else {
        schedule.max_fee
    }
}

/// Fee bound law: under a well-formed schedule the fee is never negative,
/// never exceeds the amount being transferred, and never exceeds the
/// schedule's cap.
pub proof fn lemma_fee_bound(amount: u64, schedule: FeeSchedule)
    requires
        schedule.wf(),
    ensures
        0 <= fee_for(amount, schedule),
        fee_for(amount, schedule) <= amount,
        fee_for(amount, schedule) <= schedule.max_fee,
{
    let a = amount as int;
    let b = schedule.fee_bps as int;
    let d = BPS_DENOMINATOR as int;
    lemma_mul_nonnegative(a, b);
    lemma_div_pos_is_pos(a * b, d);
    lemma_mul_inequality(b, d, a);
    lemma_mul_is_commutative(a, b);
    lemma_mul_is_commutative(d, a);
    lemma_div_is_ordered(a * b, d * a, d);
    lemma_div_multiples_vanish(a, d);
}

} // verus!
