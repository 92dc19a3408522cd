use vstd::prelude::*;

verus! {

/// Milliseconds in a second: timestamps count milliseconds.
pub const MILLIS_PER_SECOND: u64 = 1000;

/// `x` capped at `u64::MAX`.
pub open spec fn saturate(x: int) -> int {
    if x > u64::MAX { u64::MAX as int } else { x }
}

/// Earliest time at which a proposal queued at `queued_at` may run.
pub open spec fn ready_at_spec(queued_at: u64, timelock_seconds: u64) -> int {
    saturate(queued_at + timelock_seconds * MILLIS_PER_SECOND)
}

/// Whether a proposal queued at `queued_at` has served its timelock at `now`;
/// never true of a queue time of 0, which stands for "not queued".
pub open spec fn is_mature_spec(queued_at: u64, timelock_seconds: u64, now: u64) -> bool {
    queued_at != 0 && now >= ready_at_spec(queued_at, timelock_seconds)
}

/// `queued_at + timelock_seconds * 1000`, saturating.
pub fn ready_at(queued_at: u64, timelock_seconds: u64) -> (r: u64)
    ensures
        r == ready_at_spec(queued_at, timelock_seconds),
{
    let delay = if timelock_seconds > u64::MAX / MILLIS_PER_SECOND {
        u64::MAX
    } else {
        timelock_seconds * MILLIS_PER_SECOND
    };
    queued_at.saturating_add(delay)
}

pub fn is_mature(queued_at: u64, timelock_seconds: u64, now: u64) -> (r: bool)
    ensures
        r == is_mature_spec(queued_at, timelock_seconds, now),
{
    queued_at != 0 && now >= ready_at(queued_at, timelock_seconds)
}

} // verus!
