//! Block time, in milliseconds, and cooldown gates over it.
use vstd::prelude::*;

verus! {

/// How long the feeding cooldown lasts, in seconds.
pub const FEED_COOLDOWN_SECS: u64 = 60;

/// How long the bonus cooldown lasts, in seconds. It equals the feeding
/// cooldown: a bonus can be had once a minute, not once a day.
pub const BONUS_COOLDOWN_SECS: u64 = 60;

/// One day, in seconds.
pub const ONE_DAY_SECS: u64 = 86400;

/// Milliseconds from `since` to `now`; none where the clock stands before `since`.
pub open spec fn elapsed_ms(now: u64, since: u64) -> nat {
    if now >= since {
        (now - since) as nat
    } else {
        0
    }
}

/// Whether strictly more than `secs` seconds lie between `last_time` and `now`.
pub open spec fn passed(now: u64, secs: u64, last_time: u64) -> bool {
    elapsed_ms(now, last_time) > secs * 1000
}

pub fn elapsed_since(now: u64, since: u64) -> (r: u64)
    ensures
        r == elapsed_ms(now, since),
{
    if now >= since {
        now - since
    } else {
        0
    }
}

} // verus!
