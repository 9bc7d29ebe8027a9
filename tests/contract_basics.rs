use pet_economy::contract::Contract;
use pet_economy::ids::{AccountId, Id};
use pet_economy::status::Status;

fn alice() -> AccountId {
    AccountId([0x01; 32])
}

#[test]
fn default_apple_value() {
    let contract = Contract::new();
    let account = AccountId([0x0; 32]);
    assert_eq!(contract.get_your_apple(account), 0);
}

#[test]
fn set_and_get_apple() {
    let mut contract = Contract::new();
    let account = AccountId([0x1; 32]);
    contract.set_your_apple(account, 10);
    assert_eq!(contract.get_your_apple(account), 10);
}

#[test]
fn set_default_works() {
    let mut contract = Contract::new_with_owner(alice());

    assert!(contract.set_default(alice(), alice()).is_ok());

    assert_eq!(
        contract.get_bad_uri(),
        Vec::from("ipfs://QmV1VxGsrM4MLNn1qwR9Hmu5DGFfWjzHmhHFXpTT2fevMQ/")
    );
    assert_eq!(
        contract.get_normal_uri(),
        Vec::from("ipfs://QmTBf9GJLiw97v84Q7aEPPFHUXdyqXWC6AUp97VnLFZtWr/")
    );
    assert_eq!(
        contract.get_good_uri(),
        Vec::from("ipfs://QmQUxL1RSWbZAWhQfWnJJrMVZsPm4Stc5C64kRuSnXe56Q/")
    );
    assert_eq!(contract.get_your_apple(alice()), 10);
    assert_eq!(contract.get_your_money(alice()), 500);
}

#[test]
fn get_current_status_works() {
    let mut contract = Contract::new_with_owner(alice());
    let token_id: Id = Id::U32(1);
    assert!(contract.mint(alice(), token_id.clone()).is_ok());

    contract.set_status(token_id.clone(), 100, 100, 100).unwrap();
    let initial_status = contract.get_status(token_id.clone()).unwrap();
    assert_eq!(initial_status, Status { hungry: 100, health: 100, happy: 100 });

    // fed at one second
    contract.set_last_eaten(token_id.clone(), 1 * 1000);

    // sixty-one seconds: one whole minute later
    let now = 61 * 1000;
    let status_after_time = contract.get_current_status(token_id.clone(), now).unwrap();
    let expected_status = Status { hungry: 105, health: 95, happy: 95 };
    assert_eq!(status_after_time, expected_status);

    let total_status = contract.get_total_status(token_id.clone(), now);
    assert_eq!(total_status, 85);

    // six thousand seconds: ninety-nine whole minutes later
    let now = 6000 * 1000;
    let status_after_many_time_passed =
        contract.get_current_status(token_id.clone(), now).unwrap();
    let expected_status_many_time_passed = Status { hungry: 595, health: 0, happy: 0 };
    assert_eq!(status_after_many_time_passed, expected_status_many_time_passed);

    let total_status_many_time_passed = contract.get_total_status(token_id.clone(), now);
    assert_eq!(total_status_many_time_passed, 0);
}

#[test]
fn buy_an_apple_works() {
    let mut contract = Contract::new();
    contract.set_your_money(alice(), 50);
    assert!(contract.buy_an_apple(alice()).is_ok());
    assert_eq!(contract.get_your_apple(alice()), 1);
}

#[test]
fn buy_an_apple_fails_without_enough_money() {
    let mut contract = Contract::new();
    assert!(contract.buy_an_apple(alice()).is_err());
}

#[test]
fn get_your_apple_works() {
    let contract = Contract::new();
    assert_eq!(contract.get_your_apple(alice()), 0);
}

#[test]
fn eat_an_apple_works() {
    let mut contract = Contract::new();
    let token_id: Id = Id::U32(1);
    assert!(contract.mint(alice(), token_id.clone()).is_ok());

    contract.set_your_money(alice(), 50);
    contract.buy_an_apple(alice()).unwrap();

    contract.set_last_eaten(token_id.clone(), 1 * 1000);

    let now = 6000 * 1000;
    assert!(contract.eat_an_apple(token_id, alice(), now).is_ok());
    assert_eq!(contract.get_your_apple(alice()), 0);
}

#[test]
fn eat_an_apple_works_without_enough_time() {
    let mut contract = Contract::new();
    let token_id: Id = Id::U32(1);
    assert!(contract.mint(alice(), token_id.clone()).is_ok());

    contract.set_your_money(alice(), 50);
    contract.buy_an_apple(alice()).unwrap();

    contract.set_last_eaten(token_id.clone(), 590 * 1000);

    // only ten seconds later
    let now = 600 * 1000;
    assert!(contract.eat_an_apple(token_id, alice(), now).is_err());
    assert_eq!(contract.get_your_apple(alice()), 1);
}
