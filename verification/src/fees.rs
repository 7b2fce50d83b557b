//! Fee and time arithmetic shared by the operations.
//!
//! Fees are whole numbers of the smallest currency unit. A percentage is
//! taken from the hundredth part of an amount, rounded down, so that what
//! is lost to rounding is lost before the multiplication. Time is counted
//! in seconds, a month as thirty days.

use vstd::prelude::*;
use crate::error::VireError;

verus! {

/// Seconds in a month of thirty days.
pub const SECONDS_PER_MONTH: u64 = 2_592_000;

/// `percent` hundredths of `amount`: the hundredth part, rounded down,
/// taken `percent` times.
pub open spec fn percent_fee(amount: nat, percent: nat) -> nat {
    (amount / 100) * percent
}

/// What one semester costs when `tuition` is spread over `semesters`.
pub open spec fn semester_share(tuition: nat, semesters: nat) -> nat
    recommends
        semesters > 0,
{
    tuition / semesters
}

/// The least number of seconds that a degree of `semesters` semesters
/// of `months` months takes.
pub open spec fn required_seconds(semesters: nat, months: nat) -> nat {
    semesters * months * (SECONDS_PER_MONTH as nat)
}

/// Computes `percent_fee`, refusing a fee that does not fit in 64 bits.
pub fn checked_percent_fee(amount: u64, percent: u64) -> (r: Result<u64, VireError>)
    ensures
        (match r {
            Ok(fee) => fee == percent_fee(amount as nat, percent as nat),
            Err(e) => e == VireError::ArithmeticOverflow && percent_fee(
                amount as nat,
                percent as nat,
            ) > u64::MAX,
        }),
{
    let hundredth: u64 = amount / 100;
    match hundredth.checked_mul(percent) {
        Some(fee) => Ok(fee),
        None => Err(VireError::ArithmeticOverflow),
    }
}

/// Computes `semester_share`, refusing to divide by no semesters.
pub fn checked_semester_share(tuition: u64, semesters: u64) -> (r: Result<u64, VireError>)
    ensures
        (match r {
            Ok(share) => semesters > 0 && share == semester_share(tuition as nat, semesters as nat),
            Err(e) => e == VireError::DivisionHazard && semesters == 0,
        }),
{
    match tuition.checked_div(semesters) {
        Some(share) => Ok(share),
        None => Err(VireError::DivisionHazard),
    }
}

/// Whether the whole duration of the degree lies between `start` and `now`.
pub fn duration_elapsed(start: i64, now: i64, semesters: u64, months: u64) -> (elapsed: bool)
    ensures
        elapsed == (now - start >= required_seconds(semesters as nat, months as nat)),
{
    let passed: i128 = now as i128 - start as i128;
    match semesters.checked_mul(months) {
        Some(total_months) => {
            let required: u128 = total_months as u128 * SECONDS_PER_MONTH as u128;
            passed >= 0 && passed as u128 >= required
        },
        None => false,
    }
}

/// A percentage of at most a hundred takes no more than the amount.
pub proof fn lemma_percent_fee_bounded(amount: nat, percent: nat)
    requires
        percent <= 100,
    ensures
        percent_fee(amount, percent) <= amount,
{
    assert((amount / 100) * percent <= (amount / 100) * 100) by (nonlinear_arith)
        requires
            percent <= 100,
    ;
}

/// All the semesters together cost no more than the tuition, and less
/// than one unit per semester is lost to rounding.
pub proof fn lemma_semester_shares_bounded(tuition: nat, semesters: nat)
    requires
        semesters > 0,
    ensures
        semesters * semester_share(tuition, semesters) <= tuition,
        tuition < semesters * semester_share(tuition, semesters) + semesters,
{
    let share = tuition / semesters;
    assert(tuition == semesters * share + tuition % semesters && tuition % semesters < semesters)
        by (nonlinear_arith)
        requires
            semesters > 0,
            share == tuition / semesters,
    ;
}

} // verus!
