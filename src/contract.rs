//! The store: token owners, pet status, accounts, and the settings of the
//! owner of the store.
use vstd::prelude::*;
use vstd::string::StringSliceAdditionalSpecFns;
use crate::clock::{elapsed_since, passed, BONUS_COOLDOWN_SECS, FEED_COOLDOWN_SECS, ONE_DAY_SECS};
use crate::ids::{copy_bytes, AccountId, Id, IdView};
use crate::staking::accrued;
use crate::status::{current_status, total_of, condition_of, Status};
use crate::table::{Table, TableKey};

verus! {

pub const DEFAULT_BAD_URI: &'static str = "ipfs://QmV1VxGsrM4MLNn1qwR9Hmu5DGFfWjzHmhHFXpTT2fevMQ/";

pub const DEFAULT_NORMAL_URI: &'static str = "ipfs://QmTBf9GJLiw97v84Q7aEPPFHUXdyqXWC6AUp97VnLFZtWr/";

pub const DEFAULT_GOOD_URI: &'static str = "ipfs://QmQUxL1RSWbZAWhQfWnJJrMVZsPm4Stc5C64kRuSnXe56Q/";

/// Apples an account starts with when the owner sets it up.
pub const DEFAULT_APPLES: u16 = 10;

/// Money an account starts with when the owner sets it up.
pub const DEFAULT_MONEY: u64 = 500;

#[derive(Clone, Copy, Debug, PartialEq, Eq, Structural)]
pub enum ContractError {
    /// The fungible-token ledger refused a transfer.
    PSP22Error,
    /// The token ledger refused: the token does not exist, or exists already.
    PSP34Error,
    NotEnoughMoney,
    NotEnoughApple,
    /// The caller is not the account that the action needs.
    InvalidAccountId,
    /// A cooldown has not run out yet.
    TimeHasNotPassed,
}

pub struct Contract {
    pub owner: AccountId,
    /// Who owns each minted token.
    pub token_owner: Table<Id, AccountId>,
    /// Each pet's last status checkpoint.
    pub asset_status: Table<Id, Status>,
    pub normal_uri: Vec<u8>,
    pub good_uri: Vec<u8>,
    pub bad_uri: Vec<u8>,
    /// Advanced by one at each random draw.
    pub salt: u64,
    /// When each pet was last fed; zero for never.
    pub last_eaten: Table<Id, u64>,
    /// When each account last took its bonus; zero for never.
    pub last_bonus: Table<AccountId, u64>,
    /// When each account last staked; zero for never.
    pub last_staked: Table<AccountId, u64>,
    pub apple_number: Table<AccountId, u16>,
    pub your_money: Table<AccountId, u64>,
    pub your_staked_money: Table<AccountId, u64>,
}

/// The store as maps over identifier views.
pub struct ContractView {
    pub owner: Seq<u8>,
    pub token_owner: Map<IdView, AccountId>,
    pub asset_status: Map<IdView, Status>,
    pub normal_uri: Seq<u8>,
    pub good_uri: Seq<u8>,
    pub bad_uri: Seq<u8>,
    pub salt: u64,
    pub last_eaten: Map<IdView, u64>,
    pub last_bonus: Map<Seq<u8>, u64>,
    pub last_staked: Map<Seq<u8>, u64>,
    pub apple_number: Map<Seq<u8>, u16>,
    pub your_money: Map<Seq<u8>, u64>,
    pub your_staked_money: Map<Seq<u8>, u64>,
}

impl View for Contract {
    type V = ContractView;

    open spec fn view(&self) -> ContractView {
        ContractView {
            owner: self.owner@,
            token_owner: self.token_owner@,
            asset_status: self.asset_status@,
            normal_uri: self.normal_uri@,
            good_uri: self.good_uri@,
            bad_uri: self.bad_uri@,
            salt: self.salt,
            last_eaten: self.last_eaten@,
            last_bonus: self.last_bonus@,
            last_staked: self.last_staked@,
            apple_number: self.apple_number@,
            your_money: self.your_money@,
            your_staked_money: self.your_staked_money@,
        }
    }
}

impl ContractView {
    /// A fresh store with the given owner: no tokens, no accounts, no URIs.
    pub open spec fn initial(owner: Seq<u8>) -> ContractView {
        ContractView {
            owner,
            token_owner: Map::empty(),
            asset_status: Map::empty(),
            normal_uri: Seq::empty(),
            good_uri: Seq::empty(),
            bad_uri: Seq::empty(),
            salt: 0,
            last_eaten: Map::empty(),
            last_bonus: Map::empty(),
            last_staked: Map::empty(),
            apple_number: Map::empty(),
            your_money: Map::empty(),
            your_staked_money: Map::empty(),
        }
    }

    pub open spec fn token_exists(self, t: IdView) -> bool {
        self.token_owner.contains_key(t)
    }

    /// The stored checkpoint of a pet, zero where there is none.
    pub open spec fn checkpoint_of(self, t: IdView) -> Status {
        if self.asset_status.contains_key(t) {
            self.asset_status[t]
        } else {
            Status::zero_spec()
        }
    }

    pub open spec fn last_eaten_of(self, t: IdView) -> u64 {
        if self.last_eaten.contains_key(t) {
            self.last_eaten[t]
        } else {
            0
        }
    }

    /// The live, decayed status of a pet at `now`.
    pub open spec fn current_status_of(self, t: IdView, now: u64) -> Status {
        current_status(self.checkpoint_of(t), self.last_eaten_of(t), now)
    }

    pub open spec fn total_status_of(self, t: IdView, now: u64) -> u32 {
        total_of(self.current_status_of(t, now))
    }

    pub open spec fn condition_at(self, t: IdView, now: u64) -> u32 {
        condition_of(self.total_status_of(t, now))
    }

    /// The base URI that goes with a pet's condition at `now`.
    pub open spec fn condition_url_of(self, t: IdView, now: u64) -> Seq<u8> {
        let c = self.condition_at(t, now);
        if c == 0 {
            self.bad_uri
        } else if c == 1 {
            self.normal_uri
        } else {
            self.good_uri
        }
    }

    pub open spec fn apples_of(self, a: Seq<u8>) -> u16 {
        if self.apple_number.contains_key(a) {
            self.apple_number[a]
        } else {
            0
        }
    }

    pub open spec fn money_of(self, a: Seq<u8>) -> u64 {
        if self.your_money.contains_key(a) {
            self.your_money[a]
        } else {
            0
        }
    }

    pub open spec fn staked_of(self, a: Seq<u8>) -> u64 {
        if self.your_staked_money.contains_key(a) {
            self.your_staked_money[a]
        } else {
            0
        }
    }

    pub open spec fn last_staked_of(self, a: Seq<u8>) -> u64 {
        if self.last_staked.contains_key(a) {
            self.last_staked[a]
        } else {
            0
        }
    }

    pub open spec fn last_bonus_of(self, a: Seq<u8>) -> u64 {
        if self.last_bonus.contains_key(a) {
            self.last_bonus[a]
        } else {
            0
        }
    }

    /// The staked balance of an account with its interest up to `now`.
    pub open spec fn accrued_of(self, a: Seq<u8>, now: u64) -> u64 {
        accrued(self.staked_of(a), self.last_staked_of(a), now)
    }
}

impl Contract {
    /// All tables keep their keys distinct.
    pub open spec fn wf(&self) -> bool {
        &&& self.token_owner.wf()
        &&& self.asset_status.wf()
        &&& self.last_eaten.wf()
        &&& self.last_bonus.wf()
        &&& self.last_staked.wf()
        &&& self.apple_number.wf()
        &&& self.your_money.wf()
        &&& self.your_staked_money.wf()
    }

    pub fn new() -> (r: Contract)
        ensures
            r.wf(),
            r@ == ContractView::initial(Seq::new(32, |i: int| 0u8)),
    {
        let r = Contract::new_with_owner(AccountId([0u8; 32]));
        proof {
            assert(r@.owner =~= Seq::new(32, |i: int| 0u8));
        }
        r
    }

    pub fn new_with_owner(owner: AccountId) -> (r: Contract)
        ensures
            r.wf(),
            r@ == ContractView::initial(owner@),
    {
        Contract {
            owner,
            token_owner: Table::new(),
            asset_status: Table::new(),
            normal_uri: Vec::new(),
            good_uri: Vec::new(),
            bad_uri: Vec::new(),
            salt: 0,
            last_eaten: Table::new(),
            last_bonus: Table::new(),
            last_staked: Table::new(),
            apple_number: Table::new(),
            your_money: Table::new(),
            your_staked_money: Table::new(),
        }
    }

    pub fn set_owner(&mut self, owner: AccountId)
        requires
            old(self).wf(),
        ensures
            final(self).wf(),
            final(self)@ == (ContractView { owner: owner@, ..old(self)@ }),
    {
        self.owner = owner;
    }

    /// Whether `caller` is the owner of the store.
    fn is_owner(&self, caller: &AccountId) -> (r: bool)
        ensures
            r == (caller@ == self@.owner),
    {
        self.owner.equals(caller)
    }

    /// Sets the three URIs to their defaults and gives `account_id` its
    /// starting apples and money; only the owner may.
    pub fn set_default(&mut self, caller: AccountId, account_id: AccountId) -> (r: Result<
        (),
        ContractError,
    >)
        requires
            old(self).wf(),
        ensures
            final(self).wf(),
            r == (if caller@ == old(self)@.owner {
                Ok(())
            } else {
                Err(ContractError::InvalidAccountId)
            }),
            r is Err ==> final(self)@ == old(self)@,
            r is Ok ==> final(self)@ == (ContractView {
                bad_uri: DEFAULT_BAD_URI.spec_bytes(),
                normal_uri: DEFAULT_NORMAL_URI.spec_bytes(),
                good_uri: DEFAULT_GOOD_URI.spec_bytes(),
                apple_number: old(self)@.apple_number.insert(account_id@, DEFAULT_APPLES),
                your_money: old(self)@.your_money.insert(account_id@, DEFAULT_MONEY),
                ..old(self)@
            }),
    {
        if !self.is_owner(&caller) {
            return Err(ContractError::InvalidAccountId);
        }
        self.bad_uri = vstd::slice::slice_to_vec(DEFAULT_BAD_URI.as_bytes());
        self.normal_uri = vstd::slice::slice_to_vec(DEFAULT_NORMAL_URI.as_bytes());
        self.good_uri = vstd::slice::slice_to_vec(DEFAULT_GOOD_URI.as_bytes());
        self.set_your_apple(account_id, DEFAULT_APPLES);
        self.set_your_money(account_id, DEFAULT_MONEY);
        Ok(())
    }

    pub fn set_normal_uri(&mut self, caller: AccountId, normal_uri: Vec<u8>) -> (r: Result<
        (),
        ContractError,
    >)
        requires
            old(self).wf(),
        ensures
            final(self).wf(),
            r == (if caller@ == old(self)@.owner {
                Ok(())
            } else {
                Err(ContractError::InvalidAccountId)
            }),
            r is Err ==> final(self)@ == old(self)@,
            r is Ok ==> final(self)@ == (ContractView { normal_uri: normal_uri@, ..old(self)@ }),
    {
        if !self.is_owner(&caller) {
            return Err(ContractError::InvalidAccountId);
        }
        self.normal_uri = normal_uri;
        Ok(())
    }

    pub fn get_normal_uri(&self) -> (r: Vec<u8>)
        ensures
            r@ == self@.normal_uri,
    {
        copy_bytes(&self.normal_uri)
    }

    pub fn set_good_uri(&mut self, caller: AccountId, good_uri: Vec<u8>) -> (r: Result<
        (),
        ContractError,
    >)
        requires
            old(self).wf(),
        ensures
            final(self).wf(),
            r == (if caller@ == old(self)@.owner {
                Ok(())
            } else {
                Err(ContractError::InvalidAccountId)
            }),
            r is Err ==> final(self)@ == old(self)@,
            r is Ok ==> final(self)@ == (ContractView { good_uri: good_uri@, ..old(self)@ }),
    {
        if !self.is_owner(&caller) {
            return Err(ContractError::InvalidAccountId);
        }
        self.good_uri = good_uri;
        Ok(())
    }

    pub fn get_good_uri(&self) -> (r: Vec<u8>)
        ensures
            r@ == self@.good_uri,
    {
        copy_bytes(&self.good_uri)
    }

    pub fn set_bad_uri(&mut self, caller: AccountId, bad_uri: Vec<u8>) -> (r: Result<
        (),
        ContractError,
    >)
        requires
            old(self).wf(),
        ensures
            final(self).wf(),
            r == (if caller@ == old(self)@.owner {
                Ok(())
            } else {
                Err(ContractError::InvalidAccountId)
            }),
            r is Err ==> final(self)@ == old(self)@,
            r is Ok ==> final(self)@ == (ContractView { bad_uri: bad_uri@, ..old(self)@ }),
    {
        if !self.is_owner(&caller) {
            return Err(ContractError::InvalidAccountId);
        }
        self.bad_uri = bad_uri;
        Ok(())
    }

    pub fn get_bad_uri(&self) -> (r: Vec<u8>)
        ensures
            r@ == self@.bad_uri,
    {
        copy_bytes(&self.bad_uri)
    }
    /// Records `account` as the owner of a new token; fails, changing
    /// nothing, where the token exists already.
    pub fn mint(&mut self, account: AccountId, id: Id) -> (r: Result<(), ContractError>)
        requires
            old(self).wf(),
        ensures
            final(self).wf(),
            r == (if old(self)@.token_exists(id@) {
                Err(ContractError::PSP34Error)
            } else {
                Ok(())
            }),
            r is Err ==> final(self)@ == old(self)@,
            r is Ok ==> final(self)@ == (ContractView {
                token_owner: old(self)@.token_owner.insert(id@, account),
                ..old(self)@
            }),
    {
        if self.token_owner.get(&id).is_some() {
            return Err(ContractError::PSP34Error);
        }
        self.token_owner.insert(&id, account);
        Ok(())
    }

    pub fn owner_of(&self, id: Id) -> (r: Option<AccountId>)
        requires
            self.wf(),
        ensures
            r == (if self@.token_exists(id@) {
                Some(self@.token_owner[id@])
            } else {
                None
            }),
    {
        self.token_owner.get(&id)
    }

    /// The owner of a token; fails where the token does not exist.
    pub fn ensure_exists_and_get_owner(&self, id: &Id) -> (r: Result<AccountId, ContractError>)
        requires
            self.wf(),
        ensures
            r == (if self@.token_exists(id@) {
                Ok(self@.token_owner[id@])
            } else {
                Err(ContractError::PSP34Error)
            }),
    {
        match self.token_owner.get(id) {
            Some(owner) => Ok(owner),
            None => Err(ContractError::PSP34Error),
        }
    }

    /// Whether the token exists and `caller` owns it.
    pub fn is_nft_owner(&self, token_id: Id, caller: AccountId) -> (r: bool)
        requires
            self.wf(),
        ensures
            r == (self@.token_exists(token_id@) && self@.token_owner[token_id@]@ == caller@),
    {
        match self.token_owner.get(&token_id) {
            Some(owner) => owner.equals(&caller),
            None => false,
        }
    }

    /// Whether strictly more than `check_time` seconds lie between
    /// `last_time` and `now` (both in milliseconds).
    pub fn has_passed(&self, now: u64, check_time: u64, last_time: u64) -> (r: bool)
        ensures
            r == passed(now, check_time, last_time),
    {
        let time_since_last_time = elapsed_since(now, last_time);
        (time_since_last_time as u128) > (check_time as u128) * 1000
    }

    /// Whether the feeding cooldown has run out since `last_time`.
    pub fn five_minutes_has_passed(&self, last_time: u64, now: u64) -> (r: bool)
        ensures
            r == passed(now, FEED_COOLDOWN_SECS, last_time),
    {
        self.has_passed(now, FEED_COOLDOWN_SECS, last_time)
    }

    /// Whether a day has gone by since `last_time`.
    pub fn one_day_has_passed(&self, last_time: u64, now: u64) -> (r: bool)
        ensures
            r == passed(now, ONE_DAY_SECS, last_time),
    {
        self.has_passed(now, ONE_DAY_SECS, last_time)
    }
}

} // verus!
