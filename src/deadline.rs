//! The swap deadline: the wall-clock time in milliseconds plus an offset.
use vstd::prelude::*;

use crate::error::SwapError;
use std::time::Duration;
use std::time::SystemTime;

verus! {

/// std's `SystemTime`, carried unopened from the clock read to the epoch
/// difference.
#[verifier::external_type_specification]
#[verifier::external_body]
pub struct ExSystemTime(SystemTime);

/// The deadline for a clock reading of `now` milliseconds and an offset of
/// `offset` milliseconds.
pub open spec fn deadline_spec(now: int, offset: int) -> int {
    now + offset
}

/// Relies on `SystemTime::now`: the system's wall clock, of which nothing is
/// known in advance.
#[verifier::external_body]
fn wall_clock() -> (r: SystemTime) {
    SystemTime::now()
}

/// Relies on `SystemTime::duration_since` with `UNIX_EPOCH`: the time passed
/// since the epoch, or `None` where `t` lies before it.
#[verifier::external_body]
fn since_epoch(t: SystemTime) -> (r: Option<Duration>) {
    match t.duration_since(std::time::UNIX_EPOCH) {
        Ok(d) => Some(d),
        Err(_) => None,
    }
}

/// Relies on `Duration::as_millis`: the whole milliseconds in `d`.
#[verifier::external_body]
fn whole_millis(d: Duration) -> (r: u128) {
    d.as_millis()
}

/// The deadline `now + offset` for a given clock reading, or
/// `Err(Overflow)` where the sum leaves the range of `u128`.
pub fn deadline_at(now: u128, offset: u128) -> (r: Result<u128, SwapError>)
    ensures
        deadline_spec(now as int, offset as int) <= u128::MAX ==> r == Ok::<u128, SwapError>(
            (now + offset) as u128,
        ),
        deadline_spec(now as int, offset as int) > u128::MAX ==> r == Err::<u128, SwapError>(
            SwapError::Overflow,
        ),
{
    match now.checked_add(offset) {
        Some(d) => Ok(d),
        None => Err(SwapError::Overflow),
    }
}

/// A deadline `future_millis` milliseconds after the wall clock's present
/// reading. Whatever the clock reads, a deadline that comes back lies at
/// least `future_millis` after the epoch.
pub fn get_valid_timestamp(future_millis: u128) -> (r: Result<u128, SwapError>)
    ensures
        r matches Ok(d) ==> d >= future_millis,
        r matches Err(e) ==> (e == SwapError::Overflow || e == SwapError::ClockBeforeEpoch),
{
    let now = wall_clock();
    match since_epoch(now) {
        Some(elapsed) => deadline_at(whole_millis(elapsed), future_millis),
        None => Err(SwapError::ClockBeforeEpoch),
    }
}

/// Two clock readings `earlier <= later` give deadlines, for one offset,
/// that lie exactly as far apart as the readings do: the later deadline is
/// at least the earlier one plus the time that passed between them.
pub proof fn lemma_deadline_monotone(earlier: int, later: int, offset: int)
    requires
        earlier <= later,
    ensures
        deadline_spec(later, offset) >= deadline_spec(earlier, offset) + (later - earlier),
        deadline_spec(later, offset) == deadline_spec(earlier, offset) + (later - earlier),
{
}

} // verus!
