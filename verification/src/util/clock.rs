use chrono::Utc;
use vstd::prelude::*;

verus! {

/// The latest instant that the clock can say: the last microsecond of the
/// year 262142, the latest date that the chrono crate can hold.
pub const LATEST_INSTANT: i64 = 8_210_266_876_799_999_999;

/// The longest timeout whose deadline the clock can hold whatever it says:
/// what is left between the latest instant and the largest number.
pub const OWED_TIMEOUT: u64 = 1_013_105_160_054_775_808;

/// An instant that the clock can say: none before 1970, and none after
/// the latest date that the chrono crate can hold.
pub open spec fn is_clock_instant(now: i64) -> bool {
    0 <= now <= LATEST_INSTANT
}

/// `Utc::now` of the chrono crate, as the microseconds since the start of
/// 1970 that its `timestamp_micros` gives. Of the value only its range is
/// claimed: `Utc::now` takes the time that has passed since the start of
/// 1970, and makes of it a date that the crate can hold. Like `Utc::now`
/// itself, the call ends the program where the clock of the system stands
/// outside that range.
#[verifier::external_body]
pub(crate) fn utc_now_micros() -> (now: i64)
    ensures
        is_clock_instant(now),
{
    Utc::now().timestamp_micros()
}

/// The clock can hold the deadline of a timeout that is not longer than
/// [`OWED_TIMEOUT`], whatever it says now.
pub proof fn lemma_deadline_is_owed(now: i64, timeout: u64)
    requires
        is_clock_instant(now),
        timeout <= OWED_TIMEOUT,
    ensures
        deadline_of(now, timeout).is_some(),
{
}

/// The instant `timeout` microseconds after `now`, where the clock can
/// still hold it.
pub open spec fn deadline_of(now: i64, timeout: u64) -> Option<i64> {
    if now + timeout <= i64::MAX {
        Some((now + timeout) as i64)
    } else {
        None
    }
}

/// The instant `timeout` microseconds after `now`; nothing where that
/// instant is beyond what the clock can hold.
pub fn deadline_after(now: i64, timeout: u64) -> (deadline: Option<i64>)
    ensures
        deadline == deadline_of(now, timeout),
{
    let sum: i128 = now as i128 + timeout as i128;
    if sum <= i64::MAX as i128 {
        Some(sum as i64)
    } else {
        None
    }
}

} // verus!
