use pet_economy::contract::{Contract, ContractError};
use pet_economy::ids::{AccountId, Id};
use pet_economy::random::draw;
use pet_economy::staking::accrued_balance;
use pet_economy::status::{condition_for, decayed_status, fed_status, total_score, Status};

fn alice() -> AccountId {
    AccountId([0x01; 32])
}

fn bob() -> AccountId {
    AccountId([0x02; 32])
}

fn pet(contract: &mut Contract, id: u32) -> Id {
    let token = Id::U32(id);
    contract.mint(alice(), token.clone()).unwrap();
    token
}

#[test]
fn status_reads_back_at_feeding_time() {
    let mut contract = Contract::new();
    let token = pet(&mut contract, 1);
    contract.set_last_eaten(token.clone(), 5000);
    contract.set_status(token.clone(), 7, 8, 9).unwrap();
    assert_eq!(
        contract.get_current_status(token.clone(), 5000),
        Some(Status { hungry: 7, health: 8, happy: 9 })
    );
}

#[test]
fn never_fed_pet_reads_as_zero() {
    let mut contract = Contract::new();
    let token = pet(&mut contract, 1);
    contract.set_status(token.clone(), 7, 8, 9).unwrap();
    assert_eq!(
        contract.get_current_status(token.clone(), 1_000_000),
        Some(Status { hungry: 0, health: 0, happy: 0 })
    );
}

#[test]
fn decay_counts_whole_minutes_only() {
    let s = Status { hungry: 10, health: 50, happy: 12 };
    assert_eq!(decayed_status(s, 1000, 60_999), s);
    assert_eq!(decayed_status(s, 1000, 61_000), Status { hungry: 15, health: 45, happy: 7 });
    assert_eq!(decayed_status(s, 1000, 181_000), Status { hungry: 25, health: 35, happy: 0 });
}

#[test]
fn decay_with_clock_behind_feeding_is_none() {
    let s = Status { hungry: 10, health: 50, happy: 12 };
    assert_eq!(decayed_status(s, 90_000, 1000), s);
}

#[test]
fn hunger_saturates_at_largest_value() {
    let s = Status { hungry: u32::MAX - 3, health: 1, happy: 1 };
    assert_eq!(decayed_status(s, 1, 60_001).hungry, u32::MAX);
}

#[test]
fn feeding_saturates_health_and_floors_hunger() {
    let s = Status { hungry: 10, health: u32::MAX - 1, happy: 4 };
    assert_eq!(fed_status(s, 30), Status { hungry: 0, health: u32::MAX, happy: 34 });
}

#[test]
fn total_is_never_negative() {
    assert_eq!(total_score(Status { hungry: 595, health: 0, happy: 0 }), 0);
    assert_eq!(total_score(Status { hungry: 5, health: 95, happy: 95 }), 185);
    assert_eq!(total_score(Status { hungry: 0, health: u32::MAX, happy: u32::MAX }), u32::MAX);
}

#[test]
fn condition_thresholds() {
    assert_eq!(condition_for(0), 0);
    assert_eq!(condition_for(99), 0);
    assert_eq!(condition_for(100), 1);
    assert_eq!(condition_for(199), 1);
    assert_eq!(condition_for(200), 2);
    assert_eq!(condition_for(u32::MAX), 2);
}

#[test]
fn condition_follows_total() {
    let mut contract = Contract::new();
    let token = pet(&mut contract, 3);
    contract.set_last_eaten(token.clone(), 1000);
    contract.set_status(token.clone(), 0, 100, 100).unwrap();
    assert_eq!(contract.get_condition(token.clone(), 1000), 2);
    contract.set_status(token.clone(), 50, 100, 50).unwrap();
    assert_eq!(contract.get_condition(token.clone(), 1000), 1);
    contract.set_status(token.clone(), 80, 0, 0).unwrap();
    assert_eq!(contract.get_condition(token.clone(), 1000), 0);
}

#[test]
fn buy_then_eat_too_soon_fails_on_cooldown() {
    let mut contract = Contract::new();
    let token = pet(&mut contract, 1);
    contract.set_your_money(alice(), 20);
    contract.set_last_eaten(token.clone(), 100_000);
    contract.buy_an_apple(alice()).unwrap();
    assert_eq!(
        contract.eat_an_apple(token.clone(), alice(), 160_000),
        Err(ContractError::TimeHasNotPassed)
    );
    assert_eq!(contract.get_your_apple(alice()), 1);
    assert_eq!(contract.get_your_money(alice()), 0);
    assert_eq!(contract.get_last_eaten(token), 100_000);
}

#[test]
fn eat_without_apple_fails_and_changes_nothing() {
    let mut contract = Contract::new();
    let token = pet(&mut contract, 1);
    assert_eq!(
        contract.eat_an_apple(token.clone(), alice(), 6_000_000),
        Err(ContractError::NotEnoughApple)
    );
    assert_eq!(contract.get_last_eaten(token), 0);
    assert_eq!(contract.salt, 0);
}

#[test]
fn eat_on_unknown_token_fails_and_keeps_apple() {
    let mut contract = Contract::new();
    contract.set_your_apple(alice(), 1);
    assert_eq!(
        contract.eat_an_apple(Id::U8(9), alice(), 6_000_000),
        Err(ContractError::PSP34Error)
    );
    assert_eq!(contract.get_your_apple(alice()), 1);
    assert_eq!(contract.get_last_eaten(Id::U8(9)), 0);
    assert_eq!(contract.salt, 0);
}

#[test]
fn eating_applies_the_drawn_outcome() {
    // the first draw at this time with salt 0 is 17: an ordinary feeding
    let mut contract = Contract::new();
    let token = pet(&mut contract, 1);
    contract.set_your_apple(alice(), 1);
    contract.eat_an_apple(token.clone(), alice(), 6_000_000).unwrap();
    assert_eq!(contract.get_last_eaten(token.clone()), 6_000_000);
    assert_eq!(contract.salt, 1);
    assert_eq!(
        contract.get_status(token),
        Some(Status { hungry: 0, health: 30, happy: 30 })
    );
}

#[test]
fn draw_hashes_time_and_salt() {
    assert_eq!(draw(6_000_000, 0, 100), 17);
    assert_eq!(draw(6_000_000, 1, 100), 73);
    assert_eq!(draw(1000, 0, 255), 82);
    assert_eq!(draw(123_456_789, 5, 9), 3);
}

#[test]
fn pseudo_random_advances_salt() {
    let mut contract = Contract::new();
    assert_eq!(contract.get_pseudo_random(6_000_000, 100), 17);
    assert_eq!(contract.salt, 1);
    assert_eq!(contract.get_pseudo_random(6_000_000, 100), 73);
    assert_eq!(contract.salt, 2);
}

#[test]
fn feeding_outcomes_by_draw() {
    let mut contract = Contract::new();
    let token = pet(&mut contract, 1);
    contract.set_last_eaten(token.clone(), 1000);
    contract.set_status(token.clone(), 40, 10, 20).unwrap();
    contract.apply_feeding_outcome(token.clone(), 24, 1000).unwrap();
    assert_eq!(contract.get_status(token.clone()), Some(Status { hungry: 10, health: 40, happy: 50 }));
    contract.apply_feeding_outcome(token.clone(), 60, 1000).unwrap();
    assert_eq!(contract.get_status(token.clone()), Some(Status { hungry: 0, health: 90, happy: 100 }));
    contract.apply_feeding_outcome(token.clone(), 25, 1000).unwrap();
    assert_eq!(contract.get_status(token.clone()), Some(Status { hungry: 0, health: 100, happy: 100 }));
    contract.apply_feeding_outcome(token.clone(), 75, 1000).unwrap();
    assert_eq!(contract.get_status(token.clone()), Some(Status { hungry: 80, health: 0, happy: 0 }));
    assert_eq!(
        contract.apply_feeding_outcome(Id::U8(2), 10, 1000),
        Err(ContractError::PSP34Error)
    );
}

#[test]
fn change_some_status_feeds_from_live_status() {
    let mut contract = Contract::new();
    let token = pet(&mut contract, 1);
    contract.set_last_eaten(token.clone(), 1000);
    contract.set_status(token.clone(), 100, 100, 100).unwrap();
    contract.change_some_status(token.clone(), 30, 61_000).unwrap();
    assert_eq!(contract.get_status(token), Some(Status { hungry: 75, health: 125, happy: 125 }));
}

#[test]
fn stake_then_accrue_then_withdraw() {
    let mut contract = Contract::new();
    contract.set_your_money(alice(), 100);
    contract.stake_your_money(alice(), 100, 1000).unwrap();
    assert_eq!(contract.get_your_money(alice()), 0);
    // twenty-five seconds: two whole periods
    assert_eq!(contract.get_your_staked_money(alice(), 26_000), 102);
    contract.withdraw_your_money(alice(), 26_000).unwrap();
    assert_eq!(contract.get_your_money(alice()), 102);
    assert_eq!(contract.get_your_staked_money(alice(), 26_000), 0);
}

#[test]
fn accrual_rounds_down() {
    assert_eq!(accrued_balance(150, 1000, 11_000), 151);
    assert_eq!(accrued_balance(99, 1000, 11_000), 99);
    assert_eq!(accrued_balance(0, 1000, 11_000), 0);
    assert_eq!(accrued_balance(100, 0, 11_000), 0);
    assert_eq!(accrued_balance(u64::MAX, 1, u64::MAX), u64::MAX);
}

#[test]
fn stake_refuses_zero_and_too_much() {
    let mut contract = Contract::new();
    contract.set_your_money(alice(), 50);
    assert_eq!(contract.stake_your_money(alice(), 0, 1000), Err(ContractError::NotEnoughMoney));
    assert_eq!(contract.stake_your_money(alice(), 51, 1000), Err(ContractError::NotEnoughMoney));
    assert_eq!(contract.get_your_money(alice()), 50);
    assert_eq!(contract.get_your_staked_money(alice(), 100_000), 0);
}

#[test]
fn withdraw_with_nothing_staked_fails() {
    let mut contract = Contract::new();
    contract.set_your_money(alice(), 50);
    assert_eq!(contract.withdraw_your_money(alice(), 1000), Err(ContractError::NotEnoughMoney));
    assert_eq!(contract.get_your_money(alice()), 50);
}

#[test]
fn bonus_once_per_moment() {
    let mut contract = Contract::new();
    contract.set_your_money(alice(), 5);
    assert!(contract.daily_bonus(alice(), 100_000).is_ok());
    assert_eq!(contract.daily_bonus(alice(), 100_000), Err(ContractError::TimeHasNotPassed));
    assert_eq!(contract.get_your_money(alice()), 105);
    assert_eq!(contract.get_last_bonus(alice()), 100_000);
    // exactly sixty seconds later is not yet enough, one more is
    assert!(contract.daily_bonus(alice(), 160_000).is_err());
    assert!(contract.daily_bonus(alice(), 160_001).is_ok());
    assert_eq!(contract.get_your_money(alice()), 205);
}

#[test]
fn reading_status_twice_gives_the_same() {
    let mut contract = Contract::new();
    let token = pet(&mut contract, 1);
    contract.set_last_eaten(token.clone(), 1000);
    contract.set_status(token.clone(), 3, 200, 150).unwrap();
    let first = contract.get_current_status(token.clone(), 500_000);
    let second = contract.get_current_status(token.clone(), 500_000);
    assert_eq!(first, second);
    assert_eq!(contract.get_status(token), Some(Status { hungry: 3, health: 200, happy: 150 }));
}

#[test]
fn set_status_on_unknown_token_fails() {
    let mut contract = Contract::new();
    assert_eq!(contract.set_status(Id::U64(4), 1, 2, 3), Err(ContractError::PSP34Error));
    assert_eq!(contract.change_some_status(Id::U64(4), 1, 0), Err(ContractError::PSP34Error));
    assert_eq!(contract.get_status(Id::U64(4)), None);
}

#[test]
fn minting_twice_fails() {
    let mut contract = Contract::new();
    assert!(contract.mint(alice(), Id::Bytes(vec![1, 2])).is_ok());
    assert_eq!(contract.mint(bob(), Id::Bytes(vec![1, 2])), Err(ContractError::PSP34Error));
    assert!(contract.is_nft_owner(Id::Bytes(vec![1, 2]), alice()));
    assert!(!contract.is_nft_owner(Id::Bytes(vec![1, 2]), bob()));
    assert!(!contract.is_nft_owner(Id::Bytes(vec![1]), alice()));
}

#[test]
fn only_owner_changes_settings() {
    let mut contract = Contract::new_with_owner(alice());
    assert_eq!(contract.set_default(bob(), bob()), Err(ContractError::InvalidAccountId));
    assert_eq!(contract.set_good_uri(bob(), vec![1]), Err(ContractError::InvalidAccountId));
    assert_eq!(contract.get_good_uri(), Vec::<u8>::new());
    assert_eq!(contract.get_your_money(bob()), 0);
    assert!(contract.set_good_uri(alice(), vec![1]).is_ok());
    assert_eq!(contract.get_good_uri(), vec![1]);
}

#[test]
fn token_uri_appends_identifier() {
    let mut contract = Contract::new_with_owner(alice());
    contract.set_default(alice(), alice()).unwrap();
    let token = pet(&mut contract, 407);
    contract.set_last_eaten(token.clone(), 1000);
    contract.set_status(token.clone(), 0, 50, 50).unwrap();
    assert_eq!(
        contract.token_uri(token.clone(), 1000),
        Vec::from("ipfs://QmTBf9GJLiw97v84Q7aEPPFHUXdyqXWC6AUp97VnLFZtWr/407")
    );
    let named = Id::Bytes(Vec::from("cat"));
    contract.mint(alice(), named.clone()).unwrap();
    assert_eq!(
        contract.token_uri(named, 1000),
        Vec::from("ipfs://QmV1VxGsrM4MLNn1qwR9Hmu5DGFfWjzHmhHFXpTT2fevMQ/cat")
    );
    let big = Id::U128(u128::MAX);
    assert_eq!(
        contract.token_uri(big, 0),
        Vec::from("ipfs://QmV1VxGsrM4MLNn1qwR9Hmu5DGFfWjzHmhHFXpTT2fevMQ/340282366920938463463374607431768211455")
    );
}

#[test]
fn cooldown_gates() {
    let contract = Contract::new();
    assert!(!contract.five_minutes_has_passed(1000, 61_000));
    assert!(contract.five_minutes_has_passed(1000, 61_001));
    assert!(!contract.one_day_has_passed(0, 86_400_000));
    assert!(contract.one_day_has_passed(0, 86_400_001));
    assert!(!contract.has_passed(0, 0, 5));
    assert!(contract.is_account_id(alice(), alice()));
    assert!(!contract.is_account_id(alice(), bob()));
}

#[test]
fn plus_money_saturates() {
    let mut contract = Contract::new();
    contract.set_your_money(alice(), u64::MAX - 1);
    contract.plus_your_money(alice(), 10);
    assert_eq!(contract.get_your_money(alice()), u64::MAX);
    assert_eq!(contract.subtract_your_money(alice(), 5), Ok(()));
    assert_eq!(contract.get_your_money(alice()), u64::MAX - 5);
    assert_eq!(contract.subtract_your_apple(alice()), Err(ContractError::NotEnoughApple));
}
