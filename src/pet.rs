//! Pets: status checkpoints, lazy decay, feeding and the token URI.
use vstd::prelude::*;
use crate::clock::{passed, FEED_COOLDOWN_SECS};
use crate::contract::{Contract, ContractError, ContractView};
use crate::ids::{append_bytes, copy_bytes, AccountId, Id, IdView};
use crate::random::{draw, draw_of};
use crate::status::{condition_for, decayed_status, fed, fed_status, total_score, Status};

verus! {

/// Draws fall in `0..=FEED_DRAW_MAX`.
pub const FEED_DRAW_MAX: u8 = 100;

/// What an ordinary feeding is worth.
pub const PLAIN_FEED: u32 = 30;

/// What a lucky feeding is worth.
pub const LUCKY_FEED: u32 = 50;

/// The salt after one more draw.
pub open spec fn next_salt(salt: u64) -> u64 {
    if salt == u64::MAX {
        0
    } else {
        (salt + 1) as u64
    }
}

/// The status a feeding leaves, by its draw: below 25 an ordinary feeding,
/// below 50 full health, below 75 a lucky feeding, else death.
pub open spec fn outcome_status(random: u8, current: Status) -> Status {
    if random < 25 {
        fed(current, PLAIN_FEED)
    } else if random < 50 {
        Status { hungry: 0, health: 100, happy: 100 }
    } else if random < 75 {
        fed(current, LUCKY_FEED)
    } else {
        Status { hungry: 80, health: 0, happy: 0 }
    }
}

/// The decimal digits of `n`, most significant first.
pub open spec fn decimal(n: nat) -> Seq<u8>
    decreases n,
{
    if n < 10 {
        seq![(48 + n) as u8]
    } else {
        decimal(n / 10).push((48 + n % 10) as u8)
    }
}

/// A token identifier as text: an integer in decimal, bytes as they are.
pub open spec fn id_text(t: IdView) -> Seq<u8> {
    match t {
        IdView::U8(n) => decimal(n as nat),
        IdView::U16(n) => decimal(n as nat),
        IdView::U32(n) => decimal(n as nat),
        IdView::U64(n) => decimal(n as nat),
        IdView::U128(n) => decimal(n as nat),
        IdView::Bytes(b) => b,
    }
}

fn decimal_text(n: u128) -> (r: Vec<u8>)
    ensures
        r@ == decimal(n as nat),
    decreases n,
{
    if n < 10 {
        let mut v: Vec<u8> = Vec::new();
        v.push(48u8 + n as u8);
        assert(v@ =~= decimal(n as nat));
        v
    } else {
        let mut v = decimal_text(n / 10);
        v.push(48u8 + (n % 10) as u8);
        v
    }
}

impl ContractView {
    pub open spec fn with_status(self, t: IdView, s: Status) -> ContractView {
        ContractView { asset_status: self.asset_status.insert(t, s), ..self }
    }

    /// The store after a feeding outcome decided by `random`.
    pub open spec fn after_outcome(self, t: IdView, random: u8, now: u64) -> ContractView {
        self.with_status(t, outcome_status(random, self.current_status_of(t, now)))
    }

    /// Why a feeding fails, checked in this order: the cooldown, the apples,
    /// the token.
    pub open spec fn eat_error(self, t: IdView, a: Seq<u8>, now: u64) -> Option<ContractError> {
        if !passed(now, FEED_COOLDOWN_SECS, self.last_eaten_of(t)) {
            Some(ContractError::TimeHasNotPassed)
        } else if self.apples_of(a) == 0 {
            Some(ContractError::NotEnoughApple)
        } else if !self.token_exists(t) {
            Some(ContractError::PSP34Error)
        } else {
            None
        }
    }

    /// The store after a successful feeding: fed at `now`, one apple less,
    /// one draw more, and the outcome of that draw.
    pub open spec fn after_eating(self, t: IdView, a: Seq<u8>, now: u64) -> ContractView {
        let spent = ContractView {
            last_eaten: self.last_eaten.insert(t, now),
            apple_number: self.apple_number.insert(a, (self.apples_of(a) - 1) as u16),
            salt: next_salt(self.salt),
            ..self
        };
        spent.after_outcome(t, draw_of(now, self.salt, FEED_DRAW_MAX), now)
    }
}

impl Contract {
    /// Overwrites the checkpoint of an existing token.
    pub fn set_status(&mut self, token_id: Id, hungry: u32, health: u32, happy: u32) -> (r: Result<
        (),
        ContractError,
    >)
        requires
            old(self).wf(),
        ensures
            final(self).wf(),
            r == (if old(self)@.token_exists(token_id@) {
                Ok(())
            } else {
                Err(ContractError::PSP34Error)
            }),
            r is Err ==> final(self)@ == old(self)@,
            r is Ok ==> final(self)@ == old(self)@.with_status(
                token_id@,
                Status { hungry, health, happy },
            ),
    {
        match self.ensure_exists_and_get_owner(&token_id) {
            Err(e) => Err(e),
            Ok(_) => {
                self.asset_status.insert(&token_id, Status { hungry, health, happy });
                Ok(())
            },
        }
    }

    /// The stored checkpoint, if any.
    pub fn get_status(&self, token_id: Id) -> (r: Option<Status>)
        requires
            self.wf(),
        ensures
            r == (if self@.asset_status.contains_key(token_id@) {
                Some(self@.asset_status[token_id@])
            } else {
                None
            }),
    {
        self.asset_status.get(&token_id)
    }

    fn current_status(&self, token_id: &Id, now: u64) -> (r: Status)
        requires
            self.wf(),
        ensures
            r == self@.current_status_of(token_id@, now),
    {
        let last_checked_time = self.last_eaten.get_or(token_id, 0);
        let original_status = self.asset_status.get_or(token_id, Status::zero());
        decayed_status(original_status, last_checked_time, now)
    }

    /// The live status at `now`, decayed from the checkpoint; it changes
    /// nothing.
    pub fn get_current_status(&self, token_id: Id, now: u64) -> (r: Option<Status>)
        requires
            self.wf(),
        ensures
            r == Some(self@.current_status_of(token_id@, now)),
    {
        Some(self.current_status(&token_id, now))
    }

    /// Feeds an existing token by `number` from its live status and stores
    /// the result as its checkpoint.
    pub fn change_some_status(&mut self, token_id: Id, number: u32, now: u64) -> (r: Result<
        (),
        ContractError,
    >)
        requires
            old(self).wf(),
        ensures
            final(self).wf(),
            r == (if old(self)@.token_exists(token_id@) {
                Ok(())
            } else {
                Err(ContractError::PSP34Error)
            }),
            r is Err ==> final(self)@ == old(self)@,
            r is Ok ==> final(self)@ == old(self)@.with_status(
                token_id@,
                fed(old(self)@.current_status_of(token_id@, now), number),
            ),
    {
        match self.ensure_exists_and_get_owner(&token_id) {
            Err(e) => Err(e),
            Ok(_) => {
                let original_status = self.current_status(&token_id, now);
                self.asset_status.insert(&token_id, fed_status(original_status, number));
                Ok(())
            },
        }
    }

    pub fn get_total_status(&self, token_id: Id, now: u64) -> (r: u32)
        requires
            self.wf(),
        ensures
            r == self@.total_status_of(token_id@, now),
    {
        total_score(self.current_status(&token_id, now))
    }

    pub fn get_condition(&self, token_id: Id, now: u64) -> (r: u32)
        requires
            self.wf(),
        ensures
            r == self@.condition_at(token_id@, now),
    {
        condition_for(total_score(self.current_status(&token_id, now)))
    }

    fn condition_url(&self, token_id: &Id, now: u64) -> (r: Vec<u8>)
        requires
            self.wf(),
        ensures
            r@ == self@.condition_url_of(token_id@, now),
    {
        let condition = condition_for(total_score(self.current_status(token_id, now)));
        if condition == 0 {
            self.get_bad_uri()
        } else if condition == 1 {
            self.get_normal_uri()
        } else {
            self.get_good_uri()
        }
    }

    /// The base URI for the pet's condition at `now`.
    pub fn get_condition_url(&self, token_id: Id, now: u64) -> (r: Vec<u8>)
        requires
            self.wf(),
        ensures
            r@ == self@.condition_url_of(token_id@, now),
    {
        self.condition_url(&token_id, now)
    }

    /// The base URI for the pet's condition at `now`, followed by the token
    /// identifier as text.
    pub fn token_uri(&self, token_id: Id, now: u64) -> (r: Vec<u8>)
        requires
            self.wf(),
        ensures
            r@ == self@.condition_url_of(token_id@, now) + id_text(token_id@),
    {
        let id_string = match &token_id {
            Id::U8(n) => decimal_text(*n as u128),
            Id::U16(n) => decimal_text(*n as u128),
            Id::U32(n) => decimal_text(*n as u128),
            Id::U64(n) => decimal_text(*n as u128),
            Id::U128(n) => decimal_text(*n),
            Id::Bytes(b) => copy_bytes(b),
        };
        let mut uri = self.condition_url(&token_id, now);
        append_bytes(&mut uri, &id_string);
        uri
    }

    pub fn get_last_eaten(&self, token_id: Id) -> (r: u64)
        requires
            self.wf(),
        ensures
            r == self@.last_eaten_of(token_id@),
    {
        self.last_eaten.get_or(&token_id, 0)
    }

    pub fn set_last_eaten(&mut self, token_id: Id, current_time: u64)
        requires
            old(self).wf(),
        ensures
            final(self).wf(),
            final(self)@ == (ContractView {
                last_eaten: old(self)@.last_eaten.insert(token_id@, current_time),
                ..old(self)@
            }),
    {
        self.last_eaten.insert(&token_id, current_time);
    }

    /// A lucky feeding: worth more than an ordinary one.
    pub fn set_lucky_status(&mut self, token_id: Id, now: u64) -> (r: Result<(), ContractError>)
        requires
            old(self).wf(),
        ensures
            final(self).wf(),
            r == (if old(self)@.token_exists(token_id@) {
                Ok(())
            } else {
                Err(ContractError::PSP34Error)
            }),
            r is Err ==> final(self)@ == old(self)@,
            r is Ok ==> final(self)@ == old(self)@.with_status(
                token_id@,
                fed(old(self)@.current_status_of(token_id@, now), LUCKY_FEED),
            ),
    {
        self.change_some_status(token_id, LUCKY_FEED, now)
    }

    /// Full health: no hunger, health and happiness at one hundred.
    pub fn set_full_status(&mut self, token_id: Id) -> (r: Result<(), ContractError>)
        requires
            old(self).wf(),
        ensures
            final(self).wf(),
            r == (if old(self)@.token_exists(token_id@) {
                Ok(())
            } else {
                Err(ContractError::PSP34Error)
            }),
            r is Err ==> final(self)@ == old(self)@,
            r is Ok ==> final(self)@ == old(self)@.with_status(
                token_id@,
                Status { hungry: 0, health: 100, happy: 100 },
            ),
    {
        self.set_status(token_id, 0, 100, 100)
    }

    /// Death: hunger at eighty, no health, no happiness.
    pub fn set_death_status(&mut self, token_id: Id) -> (r: Result<(), ContractError>)
        requires
            old(self).wf(),
        ensures
            final(self).wf(),
            r == (if old(self)@.token_exists(token_id@) {
                Ok(())
            } else {
                Err(ContractError::PSP34Error)
            }),
            r is Err ==> final(self)@ == old(self)@,
            r is Ok ==> final(self)@ == old(self)@.with_status(
                token_id@,
                Status { hungry: 80, health: 0, happy: 0 },
            ),
    {
        self.set_status(token_id, 80, 0, 0)
    }

    /// A draw in `0..=max_value` from the digest of `now` and the salt; the
    /// salt moves on by one.
    pub fn get_pseudo_random(&mut self, now: u64, max_value: u8) -> (r: u8)
        requires
            old(self).wf(),
        ensures
            final(self).wf(),
            r == draw_of(now, old(self).salt, max_value),
            r <= max_value,
            final(self)@ == (ContractView { salt: next_salt(old(self).salt), ..old(self)@ }),
    {
        let number = draw(now, self.salt, max_value);
        self.salt = if self.salt == u64::MAX {
            0
        } else {
            self.salt + 1
        };
        number
    }

    /// Applies the outcome of a feeding whose draw was `random`, to an
    /// existing token.
    pub fn apply_feeding_outcome(&mut self, token_id: Id, random: u8, now: u64) -> (r: Result<
        (),
        ContractError,
    >)
        requires
            old(self).wf(),
        ensures
            final(self).wf(),
            r == (if old(self)@.token_exists(token_id@) {
                Ok(())
            } else {
                Err(ContractError::PSP34Error)
            }),
            r is Err ==> final(self)@ == old(self)@,
            r is Ok ==> final(self)@ == old(self)@.after_outcome(token_id@, random, now),
    {
        if random < 25 {
            self.change_some_status(token_id, PLAIN_FEED, now)
        } else if random < 50 {
            self.set_full_status(token_id)
        } else if random < 75 {
            self.set_lucky_status(token_id, now)
        } else {
            self.set_death_status(token_id)
        }
    }

    /// Feeds a pet one apple of `account_id`: once the feeding cooldown has
    /// run out, with an apple to spend and an existing token, it records the
    /// feeding at `now`, spends the apple, draws, and applies the outcome.
    /// On failure nothing changes, the salt included.
    pub fn eat_an_apple(&mut self, token_id: Id, account_id: AccountId, now: u64) -> (r:
        Result<(), ContractError>)
        requires
            old(self).wf(),
        ensures
            final(self).wf(),
            r == (match old(self)@.eat_error(token_id@, account_id@, now) {
                Some(e) => Err(e),
                None => Ok(()),
            }),
            r is Err ==> final(self)@ == old(self)@,
            r is Ok ==> final(self)@ == old(self)@.after_eating(token_id@, account_id@, now),
    {
        let last_eaten = self.last_eaten.get_or(&token_id, 0);
        if !self.five_minutes_has_passed(last_eaten, now) {
            return Err(ContractError::TimeHasNotPassed);
        }
        if self.get_your_apple(account_id) < 1 {
            return Err(ContractError::NotEnoughApple);
        }
        if self.ensure_exists_and_get_owner(&token_id).is_err() {
            return Err(ContractError::PSP34Error);
        }
        self.last_eaten.insert(&token_id, now);
        let spent = self.subtract_your_apple(account_id);
        assert(spent is Ok);
        let random = self.get_pseudo_random(now, FEED_DRAW_MAX);
        self.apply_feeding_outcome(token_id, random, now)
    }
}

} // verus!
