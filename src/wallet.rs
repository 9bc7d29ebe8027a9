//! Accounts: apples, money, staking and the periodic bonus.
use vstd::prelude::*;
use crate::clock::{passed, BONUS_COOLDOWN_SECS};
use crate::contract::{Contract, ContractError, ContractView};
use crate::ids::AccountId;
use crate::staking::{accrued_balance, clamp_u64};

verus! {

/// The price of one apple.
pub const APPLE_PRICE: u64 = 20;

/// What one bonus pays.
pub const BONUS_AMOUNT: u64 = 100;

/// `x` held to the range of `u16`.
pub open spec fn clamp_u16(x: int) -> u16 {
    if x <= 0 {
        0
    } else if x >= u16::MAX {
        u16::MAX
    } else {
        x as u16
    }
}

impl ContractView {
    /// The store after an apple is bought: the price paid, one apple more.
    pub open spec fn after_buying(self, a: Seq<u8>) -> ContractView {
        ContractView {
            your_money: self.your_money.insert(a, (self.money_of(a) - APPLE_PRICE) as u64),
            apple_number: self.apple_number.insert(a, clamp_u16(self.apples_of(a) + 1)),
            ..self
        }
    }

    /// The store after a bonus is paid at `now`.
    pub open spec fn after_bonus(self, a: Seq<u8>, now: u64) -> ContractView {
        ContractView {
            last_bonus: self.last_bonus.insert(a, now),
            your_money: self.your_money.insert(a, clamp_u64(self.money_of(a) + BONUS_AMOUNT)),
            ..self
        }
    }

    /// The store after `x` is staked at `now`.
    pub open spec fn after_staking(self, a: Seq<u8>, x: u64, now: u64) -> ContractView {
        ContractView {
            your_money: self.your_money.insert(a, (self.money_of(a) - x) as u64),
            your_staked_money: self.your_staked_money.insert(a, clamp_u64(self.staked_of(a) + x)),
            last_staked: self.last_staked.insert(a, now),
            ..self
        }
    }

    /// The store after the stake and its interest up to `now` are paid out.
    pub open spec fn after_withdrawal(self, a: Seq<u8>, now: u64) -> ContractView {
        ContractView {
            your_staked_money: self.your_staked_money.insert(a, 0),
            your_money: self.your_money.insert(
                a,
                clamp_u64(self.money_of(a) + self.accrued_of(a, now)),
            ),
            ..self
        }
    }
}

impl Contract {
    pub fn get_your_apple(&self, account_id: AccountId) -> (r: u16)
        requires
            self.wf(),
        ensures
            r == self@.apples_of(account_id@),
    {
        self.apple_number.get_or(&account_id, 0)
    }

    pub fn get_your_money(&self, account_id: AccountId) -> (r: u64)
        requires
            self.wf(),
        ensures
            r == self@.money_of(account_id@),
    {
        self.your_money.get_or(&account_id, 0)
    }

    pub fn set_your_money(&mut self, account_id: AccountId, after_money: u64)
        requires
            old(self).wf(),
        ensures
            final(self).wf(),
            final(self)@ == (ContractView {
                your_money: old(self)@.your_money.insert(account_id@, after_money),
                ..old(self)@
            }),
    {
        self.your_money.insert(&account_id, after_money);
    }

    pub fn set_your_apple(&mut self, account_id: AccountId, after_apple: u16)
        requires
            old(self).wf(),
        ensures
            final(self).wf(),
            final(self)@ == (ContractView {
                apple_number: old(self)@.apple_number.insert(account_id@, after_apple),
                ..old(self)@
            }),
    {
        self.apple_number.insert(&account_id, after_apple);
    }

    /// Credits `change_money`, held to the range of `u64`.
    pub fn plus_your_money(&mut self, account_id: AccountId, change_money: u64)
        requires
            old(self).wf(),
        ensures
            final(self).wf(),
            final(self)@ == (ContractView {
                your_money: old(self)@.your_money.insert(
                    account_id@,
                    clamp_u64(old(self)@.money_of(account_id@) + change_money),
                ),
                ..old(self)@
            }),
    {
        let money = self.get_your_money(account_id);
        self.set_your_money(account_id, money.saturating_add(change_money));
    }

    /// Debits `change_money`; fails, changing nothing, where the balance is
    /// smaller.
    pub fn subtract_your_money(&mut self, account_id: AccountId, change_money: u64) -> (r: Result<
        (),
        ContractError,
    >)
        requires
            old(self).wf(),
        ensures
            final(self).wf(),
            r == (if old(self)@.money_of(account_id@) < change_money {
                Err(ContractError::NotEnoughMoney)
            } else {
                Ok(())
            }),
            r is Err ==> final(self)@ == old(self)@,
            r is Ok ==> final(self)@ == (ContractView {
                your_money: old(self)@.your_money.insert(
                    account_id@,
                    (old(self)@.money_of(account_id@) - change_money) as u64,
                ),
                ..old(self)@
            }),
    {
        let money = self.get_your_money(account_id);
        if money < change_money {
            Err(ContractError::NotEnoughMoney)
        } else {
            self.set_your_money(account_id, money - change_money);
            Ok(())
        }
    }

    /// Takes one apple; fails, changing nothing, where there is none.
    pub fn subtract_your_apple(&mut self, account_id: AccountId) -> (r: Result<(), ContractError>)
        requires
            old(self).wf(),
        ensures
            final(self).wf(),
            r == (if old(self)@.apples_of(account_id@) == 0 {
                Err(ContractError::NotEnoughApple)
            } else {
                Ok(())
            }),
            r is Err ==> final(self)@ == old(self)@,
            r is Ok ==> final(self)@ == (ContractView {
                apple_number: old(self)@.apple_number.insert(
                    account_id@,
                    (old(self)@.apples_of(account_id@) - 1) as u16,
                ),
                ..old(self)@
            }),
    {
        let apple_number = self.get_your_apple(account_id);
        if apple_number < 1 {
            Err(ContractError::NotEnoughApple)
        } else {
            self.set_your_apple(account_id, apple_number - 1);
            Ok(())
        }
    }

    /// Pays the apple price, then adds one apple (held to the range of
    /// `u16`); fails, changing nothing, where the money does not suffice.
    pub fn buy_an_apple(&mut self, account_id: AccountId) -> (r: Result<(), ContractError>)
        requires
            old(self).wf(),
        ensures
            final(self).wf(),
            r == (if old(self)@.money_of(account_id@) < APPLE_PRICE {
                Err(ContractError::NotEnoughMoney)
            } else {
                Ok(())
            }),
            r is Err ==> final(self)@ == old(self)@,
            r is Ok ==> final(self)@ == old(self)@.after_buying(account_id@),
    {
        match self.subtract_your_money(account_id, APPLE_PRICE) {
            Err(e) => Err(e),
            Ok(()) => {
                let after_apple = self.get_your_apple(account_id).saturating_add(1);
                self.set_your_apple(account_id, after_apple);
                Ok(())
            },
        }
    }

    /// Moves `stake_money` from the balance to the staked balance and
    /// restarts the accrual clock at `now`; fails, changing nothing, where the
    /// amount is zero or more than the balance.
    pub fn stake_your_money(&mut self, account_id: AccountId, stake_money: u64, now: u64) -> (r:
        Result<(), ContractError>)
        requires
            old(self).wf(),
        ensures
            final(self).wf(),
            r == (if stake_money == 0 || old(self)@.money_of(account_id@) < stake_money {
                Err(ContractError::NotEnoughMoney)
            } else {
                Ok(())
            }),
            r is Err ==> final(self)@ == old(self)@,
            r is Ok ==> final(self)@ == old(self)@.after_staking(account_id@, stake_money, now),
    {
        let current_money = self.get_your_money(account_id);
        let current_staked_money = self.your_staked_money.get_or(&account_id, 0);
        if stake_money == 0 || current_money < stake_money {
            return Err(ContractError::NotEnoughMoney);
        }
        self.your_money.insert(&account_id, current_money - stake_money);
        self.your_staked_money.insert(&account_id, current_staked_money.saturating_add(stake_money));
        self.last_staked.insert(&account_id, now);
        Ok(())
    }

    /// The staked balance with its interest up to `now`; it changes nothing.
    pub fn get_your_staked_money(&self, account_id: AccountId, now: u64) -> (r: u64)
        requires
            self.wf(),
        ensures
            r == self@.accrued_of(account_id@, now),
    {
        let staked_money = self.your_staked_money.get_or(&account_id, 0);
        let last_staked_time = self.last_staked.get_or(&account_id, 0);
        accrued_balance(staked_money, last_staked_time, now)
    }

    /// Pays out the staked balance with its interest and empties the stake;
    /// fails, changing nothing, where that would pay nothing.
    pub fn withdraw_your_money(&mut self, account_id: AccountId, now: u64) -> (r: Result<
        (),
        ContractError,
    >)
        requires
            old(self).wf(),
        ensures
            final(self).wf(),
            r == (if old(self)@.accrued_of(account_id@, now) == 0 {
                Err(ContractError::NotEnoughMoney)
            } else {
                Ok(())
            }),
            r is Err ==> final(self)@ == old(self)@,
            r is Ok ==> final(self)@ == old(self)@.after_withdrawal(account_id@, now),
    {
        let staked_money = self.get_your_staked_money(account_id, now);
        let current_money = self.get_your_money(account_id);
        if staked_money == 0 {
            return Err(ContractError::NotEnoughMoney);
        }
        self.your_staked_money.insert(&account_id, 0);
        self.your_money.insert(&account_id, current_money.saturating_add(staked_money));
        Ok(())
    }

    pub fn get_last_bonus(&self, account_id: AccountId) -> (r: u64)
        requires
            self.wf(),
        ensures
            r == self@.last_bonus_of(account_id@),
    {
        self.last_bonus.get_or(&account_id, 0)
    }

    pub fn set_last_bonus(&mut self, account_id: AccountId, current_time: u64)
        requires
            old(self).wf(),
        ensures
            final(self).wf(),
            final(self)@ == (ContractView {
                last_bonus: old(self)@.last_bonus.insert(account_id@, current_time),
                ..old(self)@
            }),
    {
        self.last_bonus.insert(&account_id, current_time);
    }

    /// Credits the bonus and records `now`; fails, changing nothing, until
    /// the bonus cooldown has run out since the last bonus.
    pub fn daily_bonus(&mut self, account_id: AccountId, now: u64) -> (r: Result<(), ContractError>)
        requires
            old(self).wf(),
        ensures
            final(self).wf(),
            r == (if passed(now, BONUS_COOLDOWN_SECS, old(self)@.last_bonus_of(account_id@)) {
                Ok(())
            } else {
                Err(ContractError::TimeHasNotPassed)
            }),
            r is Err ==> final(self)@ == old(self)@,
            r is Ok ==> final(self)@ == old(self)@.after_bonus(account_id@, now),
    {
        let last_bonus = self.get_last_bonus(account_id);
        if !self.has_passed(now, BONUS_COOLDOWN_SECS, last_bonus) {
            return Err(ContractError::TimeHasNotPassed);
        }
        self.set_last_bonus(account_id, now);
        self.plus_your_money(account_id, BONUS_AMOUNT);
        Ok(())
    }

    /// Whether `caller` is `account_id`.
    pub fn is_account_id(&self, account_id: AccountId, caller: AccountId) -> (r: bool)
        ensures
            r == (caller@ == account_id@),
    {
        caller.equals(&account_id)
    }
}

} // verus!
