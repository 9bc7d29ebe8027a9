//! Properties that hold across calls, proved over the store's view.
use vstd::prelude::*;
use crate::clock::{passed, BONUS_COOLDOWN_SECS, FEED_COOLDOWN_SECS};
use crate::contract::{ContractError, ContractView};
use crate::ids::IdView;
use crate::status::{condition_of, current_status, total_of, Status};
use crate::wallet::{clamp_u16, APPLE_PRICE, BONUS_AMOUNT};

verus! {

/// A checkpoint read back at the moment of the last feeding is the
/// checkpoint itself: no time has passed, so nothing has decayed. (A pet
/// never fed, at time zero, reads as the zero status instead.)
pub proof fn lemma_status_read_back(v: ContractView, t: IdView, s: Status)
    requires
        v.last_eaten_of(t) != 0,
    ensures
        v.with_status(t, s).current_status_of(t, v.last_eaten_of(t)) == s,
{
    assert(v.with_status(t, s).checkpoint_of(t) == s);
    assert(v.with_status(t, s).last_eaten_of(t) == v.last_eaten_of(t));
}

/// After any time since the last feeding, health and happiness are the
/// checkpoint's less five per whole minute, but no less than zero, and
/// hunger is the checkpoint's plus five per whole minute.
pub proof fn lemma_decay(checkpoint: Status, last_fed_at: u64, now: u64)
    requires
        last_fed_at != 0,
        now >= last_fed_at,
        checkpoint.hungry + 5 * ((now - last_fed_at) / 60000) <= u32::MAX,
    ensures
        ({
            let d = 5 * ((now - last_fed_at) / 60000);
            let s = current_status(checkpoint, last_fed_at, now);
            &&& s.health == (if checkpoint.health >= d {
                checkpoint.health - d
            } else {
                0
            })
            &&& s.happy == (if checkpoint.happy >= d {
                checkpoint.happy - d
            } else {
                0
            })
            &&& s.hungry == checkpoint.hungry + d
        }),
{
}

/// The total is health plus happiness less hunger where that is positive
/// (and fits), else zero; the condition never falls as the total grows.
pub proof fn lemma_total_and_condition(s: Status, low: u32, high: u32)
    requires
        low <= high,
    ensures
        total_of(s) >= 0,
        s.health + s.happy - s.hungry <= 0 ==> total_of(s) == 0,
        0 < s.health + s.happy - s.hungry <= u32::MAX ==> total_of(s) == s.health + s.happy
            - s.hungry,
        condition_of(low) <= condition_of(high),
{
}

/// Buying an apple and then feeding before the feeding cooldown has run out
/// fails on the cooldown; the apple just bought stays.
pub proof fn lemma_buy_then_eat_too_soon(v: ContractView, t: IdView, a: Seq<u8>, now: u64)
    requires
        v.money_of(a) >= APPLE_PRICE,
        !passed(now, FEED_COOLDOWN_SECS, v.last_eaten_of(t)),
    ensures
        v.after_buying(a).eat_error(t, a, now) == Some(ContractError::TimeHasNotPassed),
        v.after_buying(a).apples_of(a) == clamp_u16(v.apples_of(a) + 1),
{
    assert(v.after_buying(a).last_eaten_of(t) == v.last_eaten_of(t));
}

/// Two bonus requests at one and the same time: the second always fails,
/// and the balance grows by the bonus once, where the first succeeds, and
/// not at all otherwise.
pub proof fn lemma_bonus_once(v: ContractView, a: Seq<u8>, now: u64)
    requires
        v.money_of(a) + BONUS_AMOUNT <= u64::MAX,
    ensures
        ({
            let first_ok = passed(now, BONUS_COOLDOWN_SECS, v.last_bonus_of(a));
            let w = if first_ok {
                v.after_bonus(a, now)
            } else {
                v
            };
            &&& !passed(now, BONUS_COOLDOWN_SECS, w.last_bonus_of(a))
            &&& w.money_of(a) == (if first_ok {
                v.money_of(a) + BONUS_AMOUNT
            } else {
                v.money_of(a) as int
            })
        }),
{
}

/// Staking `x` on an account with nothing staked and withdrawing later pays
/// out `x` with one percent per whole ten seconds, rounded down, and leaves
/// nothing staked.
pub proof fn lemma_stake_then_withdraw(
    v: ContractView,
    a: Seq<u8>,
    x: u64,
    staked_at: u64,
    now: u64,
)
    requires
        v.staked_of(a) == 0,
        0 < x <= v.money_of(a),
        staked_at != 0,
        now >= staked_at,
        v.money_of(a) + (x * ((now - staked_at) / 10000)) / 100 <= u64::MAX,
    ensures
        ({
            let paid = x + (x * ((now - staked_at) / 10000)) / 100;
            let w = v.after_staking(a, x, staked_at);
            &&& w.accrued_of(a, now) == paid
            &&& w.after_withdrawal(a, now).staked_of(a) == 0
            &&& w.after_withdrawal(a, now).money_of(a) == v.money_of(a) - x + paid
        }),
{
    let p = (now - staked_at) / 10000;
    assert(x * p >= 0) by (nonlinear_arith)
        requires
            x >= 0,
            p >= 0,
    ;
    let w = v.after_staking(a, x, staked_at);
    assert(w.staked_of(a) == x);
    assert(w.last_staked_of(a) == staked_at);
    assert(w.money_of(a) == v.money_of(a) - x);
}

} // verus!
