//! The weight of a member: stake scaled by tenure, squad size and activity.
//!
//! The three modifiers are percentages (100 stands for 1.00x). They are
//! multiplied onto the stake in whole units and the product is scaled back by
//! a single truncating division at the end.

use vstd::prelude::*;
use crate::errors::ErrorCode;

verus! {

/// Stake below one unit of this many base tokens carries no weight.
pub const STAKE_UNIT: u64 = 1_000_000;

/// Tenure at which the tenure modifier stops growing: 90 days, in seconds.
pub const TENURE_CAP_SECONDS: i64 = 7_776_000;

/// The three percentages multiplied together: 100 * 100 * 100 * 100.
pub const WEIGHT_SCALE: u128 = 100_000_000;

/// Whole units of stake.
pub open spec fn base_weight(stake: u64) -> int {
    stake as int / 1_000_000
}

/// 100 at no tenure, rising linearly to 200 at 90 days and staying there.
/// A record that claims to have joined in the future has no tenure.
pub open spec fn tenure_multiplier(tenure: int) -> int {
    if tenure >= 7_776_000 {
        200
    } else if tenure <= 0 {
        100
    } else {
        100 + (tenure * 100) / 7_776_000
    }
}

/// 100 for a squad of two, four more for each further member.
pub open spec fn squad_multiplier(squad_size: u8) -> int {
    100 + (squad_size as int - 2) * 4
}

/// 50 at score 0 up to 150 at score 100; higher scores count as 100.
pub open spec fn activity_multiplier(score: u32) -> int {
    50 + if score <= 100 { score as int } else { 100 }
}

/// The weight of a member.
pub open spec fn member_weight(stake: u64, tenure: int, squad_size: u8, score: u32) -> int {
    base_weight(stake) * tenure_multiplier(tenure) * squad_multiplier(squad_size)
        * activity_multiplier(score) / 100_000_000
}

/// `Ok(a * b)`, or `Overflow` where the product does not fit.
pub fn checked_product(a: u128, b: u128) -> (r: Result<u128, ErrorCode>)
    ensures
        a * b <= u128::MAX ==> r == Ok::<u128, ErrorCode>((a * b) as u128),
        a * b > u128::MAX ==> r == Err::<u128, ErrorCode>(ErrorCode::Overflow),
{
    match a.checked_mul(b) {
        Some(p) => Ok(p),
        None => Err(ErrorCode::Overflow),
    }
}

/// `Ok(a / b)` rounded down, or `DivisionByZero` where `b` is zero.
pub fn checked_quotient(a: u128, b: u128) -> (r: Result<u128, ErrorCode>)
    ensures
        b != 0 ==> r == Ok::<u128, ErrorCode>((a as int / b as int) as u128),
        b == 0 ==> r == Err::<u128, ErrorCode>(ErrorCode::DivisionByZero),
{
    if b == 0 {
        Err(ErrorCode::DivisionByZero)
    } else {
        Ok(a / b)
    }
}

/// The tenure modifier, computed.
pub fn tenure_multiplier_of(tenure_seconds: i64) -> (r: u32)
    ensures
        r == tenure_multiplier(tenure_seconds as int),
        100 <= r <= 200,
{
    if tenure_seconds >= TENURE_CAP_SECONDS {
        200
    } else if tenure_seconds <= 0 {
        100
    } else {
        let ramp: i64 = (tenure_seconds * 100) / TENURE_CAP_SECONDS;
        100 + ramp as u32
    }
}

/// Every weight fits in 64 bits with room to spare, so the cap on the result
/// of [`calculate_member_weight`] never binds.
pub proof fn lemma_member_weight_bounds(stake: u64, tenure: int, squad_size: u8, score: u32)
    ensures
        0 <= member_weight(stake, tenure, squad_size, score) <= 6_153_833_822_989,
        0 <= base_weight(stake) * tenure_multiplier(tenure) <= 3_689_348_814_741_800,
        0 <= base_weight(stake) * tenure_multiplier(tenure) * squad_multiplier(squad_size)
            <= 4_102_555_881_992_881_600,
        0 <= base_weight(stake) * tenure_multiplier(tenure) * squad_multiplier(squad_size)
            * activity_multiplier(score) <= 615_383_382_298_932_240_000,
        stake < 1_000_000 ==> member_weight(stake, tenure, squad_size, score) == 0,
{
    let b = base_weight(stake);
    let t = tenure_multiplier(tenure);
    let s = squad_multiplier(squad_size);
    let a = activity_multiplier(score);
    assert(0 <= b <= 18_446_744_073_709);
    assert(100 <= t <= 200) by {
        if 0 < tenure < 7_776_000 {
            assert(0 <= (tenure * 100) / 7_776_000 <= 100);
        }
    }
    assert(92 <= s <= 1112);
    assert(50 <= a <= 150);
    assert(0 <= b * t <= 18_446_744_073_709 * 200) by (nonlinear_arith)
        requires
            0 <= b <= 18_446_744_073_709,
            100 <= t <= 200,
    ;
    assert(0 <= b * t * s <= 18_446_744_073_709 * 200 * 1112) by (nonlinear_arith)
        requires
            0 <= b * t <= 18_446_744_073_709 * 200,
            92 <= s <= 1112,
    ;
    assert(0 <= b * t * s * a <= 18_446_744_073_709 * 200 * 1112 * 150) by (nonlinear_arith)
        requires
            0 <= b * t * s <= 18_446_744_073_709 * 200 * 1112,
            50 <= a <= 150,
    ;
    if stake < 1_000_000 {
        assert(b * t * s * a == 0) by (nonlinear_arith)
            requires
                b == 0,
        ;
    }
}

/// The weight of a member with the given stake, tenure in seconds, squad
/// size and activity score.
///
/// The product is taken in 128 bits with every step checked and the result is
/// capped at `u64::MAX`. Over the whole range of the arguments no step fails
/// and the cap is never reached, so the result is always `Ok` of the exact
/// weight.
pub fn calculate_member_weight(
    stake_amount: u64,
    tenure_seconds: i64,
    squad_size: u8,
    activity_score: u32,
) -> (r: Result<u64, ErrorCode>)
    ensures
        r == Ok::<u64, ErrorCode>(
            member_weight(stake_amount, tenure_seconds as int, squad_size, activity_score) as u64,
        ),
        stake_amount < 1_000_000 ==> r == Ok::<u64, ErrorCode>(0),
{
    let base: u64 = stake_amount / STAKE_UNIT;
    let tenure_factor: u32 = tenure_multiplier_of(tenure_seconds);
    let squad_factor: u32 = 92 + (squad_size as u32) * 4;
    let activity_factor: u32 = 50 + if activity_score <= 100 { activity_score } else { 100 };
    proof {
        lemma_member_weight_bounds(stake_amount, tenure_seconds as int, squad_size, activity_score);
    }
    let by_tenure: u128 = checked_product(base as u128, tenure_factor as u128)?;
    let by_squad: u128 = checked_product(by_tenure, squad_factor as u128)?;
    let by_activity: u128 = checked_product(by_squad, activity_factor as u128)?;
    let weight: u128 = checked_quotient(by_activity, WEIGHT_SCALE)?;
    if weight > u64::MAX as u128 {
        Ok(u64::MAX)
    } else {
        Ok(weight as u64)
    }
}

} // verus!
