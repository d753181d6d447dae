//! Fee calculator.
//!
//! The total cost of a rental is `unit_base_cost * quantity`; the platform
//! retains `floor(admin_quota * expected_cost)` of it and the remainder goes
//! to the payout receiver. The admin quota is a fraction in [0, 1] held in
//! basis points (parts per 10,000), so the fee is computed exactly in
//! integer arithmetic.

use vstd::prelude::*;

use crate::errors::CustomErrors;

verus! {

/// Number of basis points that make the whole: an `admin_quota_bps` of
/// `QUOTA_DENOMINATOR` retains every unit as platform fee.
pub const QUOTA_DENOMINATOR: u64 = 10000;

/// Total cost of renting `quantity` units at `unit_base_cost` each.
pub open spec fn spec_expected_cost(unit_base_cost: u64, quantity: u64) -> int {
    unit_base_cost * quantity
}

/// Platform fee retained out of `expected_cost`:
/// `floor(admin_quota * expected_cost)` with the quota in basis points.
pub open spec fn spec_fee_quota(expected_cost: u64, admin_quota_bps: u64) -> int {
    (expected_cost * admin_quota_bps) / (QUOTA_DENOMINATOR as int)
}

/// Computes the total cost of a rental; fails instead of wrapping when the
/// product exceeds the 64-bit range.
pub fn compute_cost(unit_base_cost: u64, quantity: u64) -> (r: Result<u64, CustomErrors>)
    ensures
        spec_expected_cost(unit_base_cost, quantity) <= u64::MAX
            ==> r == Ok::<u64, CustomErrors>(
                spec_expected_cost(unit_base_cost, quantity) as u64,
            ),
        spec_expected_cost(unit_base_cost, quantity) > u64::MAX
            ==> r == Err::<u64, CustomErrors>(CustomErrors::ArithmeticOverflow),
{
    match unit_base_cost.checked_mul(quantity) {
        Some(cost) => Ok(cost),
        None => Err(CustomErrors::ArithmeticOverflow),
    }
}

/// Computes the platform fee retained out of `expected_cost`.
pub fn compute_fee(expected_cost: u64, admin_quota_bps: u64) -> (r: u64)
    requires
        admin_quota_bps <= QUOTA_DENOMINATOR,
    ensures
        r == spec_fee_quota(expected_cost, admin_quota_bps),
        r <= expected_cost,
{
    proof {
        lemma_fee_quota_bounded(expected_cost, admin_quota_bps);
    }
    let wide: u128 = (expected_cost as u128) * (admin_quota_bps as u128);
    (wide / (QUOTA_DENOMINATOR as u128)) as u64
}

/// The fee never exceeds the cost it is taken from, because the quota is at
/// most the whole.
pub proof fn lemma_fee_quota_bounded(expected_cost: u64, admin_quota_bps: u64)
    requires
        admin_quota_bps <= QUOTA_DENOMINATOR,
    ensures
        0 <= spec_fee_quota(expected_cost, admin_quota_bps) <= expected_cost,
{
    assert(0 <= (expected_cost * admin_quota_bps) / (QUOTA_DENOMINATOR as int)
        <= expected_cost) by (nonlinear_arith)
        requires
            admin_quota_bps <= QUOTA_DENOMINATOR,
            QUOTA_DENOMINATOR == 10000,
    ;
}

/// Law: for every positive quantity whose total cost fits the 64-bit range,
/// the platform fee and the receiver amount split the expected cost exactly,
/// and the fee is `floor(admin_quota * expected_cost)` with the quota read
/// as the fraction `admin_quota_bps / QUOTA_DENOMINATOR`.
pub proof fn lemma_fee_split_exact(unit_base_cost: u64, quantity: u64, admin_quota_bps: u64)
    requires
        quantity > 0,
        admin_quota_bps <= QUOTA_DENOMINATOR,
        spec_expected_cost(unit_base_cost, quantity) <= u64::MAX,
    ensures
        ({
            let cost = spec_expected_cost(unit_base_cost, quantity) as u64;
            let fee = spec_fee_quota(cost, admin_quota_bps);
            &&& fee + (cost - fee) == cost
            &&& fee == (cost * admin_quota_bps) / (QUOTA_DENOMINATOR as int)
            &&& 0 <= fee <= cost
        }),
{
    let cost = spec_expected_cost(unit_base_cost, quantity) as u64;
    lemma_fee_quota_bounded(cost, admin_quota_bps);
}

} // verus!
