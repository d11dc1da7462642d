//! When to wake up, and on which countdown days to announce.
use vstd::prelude::*;

verus! {

/// Seconds in one day.
pub const SECONDS_PER_DAY: u32 = 86400;

/// Countdown values, in days, on which an announcement goes out.
pub open spec fn is_notify_day(n: int) -> bool {
    n == 7 || n == 5 || n == 3 || n == 1
}

/// Whether an announcement goes out with `days_remaining` days left.
pub fn should_notify(days_remaining: i64) -> (r: bool)
    ensures
        r == is_notify_day(days_remaining as int),
{
    let thresholds: [i64; 4] = [7, 5, 3, 1];
    let mut i: usize = 0;
    while i < 4
        invariant
            i <= 4,
            thresholds@ == seq![7i64, 5, 3, 1],
            forall|j: int| 0 <= j < i ==> thresholds@[j] != days_remaining,
        decreases 4 - i,
    {
        if thresholds[i] == days_remaining {
            return true;
        }
        i += 1;
    }
    false
}

/// Seconds from `now` (seconds since midnight) until the next time the clock
/// shows `target_hour` o'clock, a full day when it shows it right now.
pub open spec fn wake_delay(now: int, target_hour: int) -> int {
    let target = target_hour * 3600;
    if now < target {
        target - now
    } else {
        SECONDS_PER_DAY - now + target
    }
}

/// How long to sleep, from `now_secs` seconds after midnight, until the next
/// `target_hour` o'clock; a moment at or after that hour rolls over to the
/// next day, so the delay is never zero.
pub fn seconds_until_wake(now_secs: u32, target_hour: u32) -> (r: u64)
    requires
        now_secs < SECONDS_PER_DAY,
        target_hour < 24,
    ensures
        r == wake_delay(now_secs as int, target_hour as int),
        0 < r <= SECONDS_PER_DAY,
        (now_secs + r) % (SECONDS_PER_DAY as int) == target_hour * 3600,
        now_secs == target_hour * 3600 ==> r == SECONDS_PER_DAY,
{
    let target: u32 = target_hour * 3600;
    if now_secs < target {
        (target - now_secs) as u64
    } else {
        (SECONDS_PER_DAY - now_secs + target) as u64
    }
}

} // verus!
