//! A pet's status and how it drifts with time and feeding.
use vstd::prelude::*;
use crate::clock::{elapsed_ms, elapsed_since};

verus! {

/// One decay tick: sixty seconds of block time.
pub const TICK_MS: u64 = 60000;

/// How far each status field drifts per tick.
pub const DECAY_PER_TICK: u64 = 5;

/// Below this total a pet is in bad condition.
pub const NORMAL_THRESHOLD: u32 = 100;

/// From this total on a pet is in good condition.
pub const GOOD_THRESHOLD: u32 = 200;

#[derive(Clone, Copy, Debug, PartialEq, Eq, Structural)]
pub struct Status {
    pub hungry: u32,
    pub health: u32,
    pub happy: u32,
}

impl Status {
    pub open spec fn zero_spec() -> Status {
        Status { hungry: 0, health: 0, happy: 0 }
    }

    pub fn zero() -> (r: Status)
        ensures
            r == Status::zero_spec(),
    {
        Status { hungry: 0, health: 0, happy: 0 }
    }
}

/// `x` held to the range of `u32`.
pub open spec fn clamp_u32(x: int) -> u32 {
    if x <= 0 {
        0
    } else if x >= u32::MAX {
        u32::MAX
    } else {
        x as u32
    }
}

/// How far the status has drifted since `last_fed_at`: five per whole minute.
pub open spec fn decay_amount(last_fed_at: u64, now: u64) -> nat {
    (elapsed_ms(now, last_fed_at) / TICK_MS as nat) * DECAY_PER_TICK as nat
}

/// `s` after a drift of `d`: hunger grows, health and happiness shrink to no
/// less than zero.
pub open spec fn decay(s: Status, d: nat) -> Status {
    Status {
        hungry: clamp_u32(s.hungry + d),
        health: clamp_u32(s.health - d),
        happy: clamp_u32(s.happy - d),
    }
}

/// The live status of a pet whose checkpoint is `checkpoint`, last fed at
/// `last_fed_at`; a pet never fed (time zero) has the zero status.
pub open spec fn current_status(checkpoint: Status, last_fed_at: u64, now: u64) -> Status {
    if last_fed_at == 0 {
        Status::zero_spec()
    } else {
        decay(checkpoint, decay_amount(last_fed_at, now))
    }
}

/// `s` after a feeding worth `n`: hunger falls to no less than zero, health
/// and happiness grow.
pub open spec fn fed(s: Status, n: u32) -> Status {
    Status {
        hungry: clamp_u32(s.hungry - n),
        health: clamp_u32(s.health + n),
        happy: clamp_u32(s.happy + n),
    }
}

/// Health plus happiness less hunger, no less than zero.
pub open spec fn total_of(s: Status) -> u32 {
    clamp_u32(s.health + s.happy - s.hungry)
}

/// 0 (bad) below 100, 1 (normal) below 200, else 2 (good).
pub open spec fn condition_of(total: u32) -> u32 {
    if total < NORMAL_THRESHOLD {
        0
    } else if total < GOOD_THRESHOLD {
        1
    } else {
        2
    }
}

pub fn decayed_status(checkpoint: Status, last_fed_at: u64, now: u64) -> (r: Status)
    ensures
        r == current_status(checkpoint, last_fed_at, now),
{
    if last_fed_at == 0 {
        return Status::zero();
    }
    let elapsed = elapsed_since(now, last_fed_at);
    let ticks = elapsed / TICK_MS;
    assert(ticks * DECAY_PER_TICK <= u64::MAX) by (nonlinear_arith)
        requires
            ticks == elapsed / 60000,
            DECAY_PER_TICK == 5,
    ;
    let delta: u64 = ticks * DECAY_PER_TICK;
    let hungry = if (u32::MAX as u64) - (checkpoint.hungry as u64) <= delta {
        u32::MAX
    } else {
        (checkpoint.hungry as u64 + delta) as u32
    };
    let health = if (checkpoint.health as u64) > delta {
        (checkpoint.health as u64 - delta) as u32
    } else {
        0
    };
    let happy = if (checkpoint.happy as u64) > delta {
        (checkpoint.happy as u64 - delta) as u32
    } else {
        0
    };
    Status { hungry, health, happy }
}

pub fn fed_status(s: Status, n: u32) -> (r: Status)
    ensures
        r == fed(s, n),
{
    let hungry = if s.hungry > n {
        s.hungry - n
    } else {
        0
    };
    Status { hungry, health: s.health.saturating_add(n), happy: s.happy.saturating_add(n) }
}

pub fn total_score(s: Status) -> (r: u32)
    ensures
        r == total_of(s),
{
    let plus: u64 = s.health as u64 + s.happy as u64;
    if plus <= s.hungry as u64 {
        0
    } else if plus - s.hungry as u64 >= u32::MAX as u64 {
        u32::MAX
    } else {
        (plus - s.hungry as u64) as u32
    }
}

pub fn condition_for(total: u32) -> (r: u32)
    ensures
        r == condition_of(total),
{
    if total < NORMAL_THRESHOLD {
        0
    } else if total < GOOD_THRESHOLD {
        1
    } else {
        2
    }
}

} // verus!
