use erc20::{AccountId, Erc20, Error, Transfer};

fn alice() -> AccountId {
    AccountId::from_bytes([1u8; 32])
}

fn bob() -> AccountId {
    AccountId::from_bytes([2u8; 32])
}

fn charlie() -> AccountId {
    AccountId::from_bytes([3u8; 32])
}

#[test]
fn name_works() {
    let erc20 = Erc20::new(alice(), "Hivve".to_string(), 10000000);
    assert_eq!(erc20.name(), "Hivve".to_string());
}

#[test]
fn total_supply_works() {
    let erc20 = Erc20::new(alice(), "Hivve".to_string(), 10000000);
    assert_eq!(erc20.total_supply(), 10000000);
}

#[test]
fn balance_of_works() {
    let erc20 = Erc20::new(alice(), "Hivve".to_string(), 1000000);
    assert_eq!(erc20.balance_of(alice()), 1000000);
}

#[test]
fn transfer_works() {
    let mut erc20 = Erc20::new(alice(), "Hivve".to_string(), 100000);

    assert!(erc20.transfer(alice(), bob(), 100).is_ok());
    assert_eq!(erc20.balance_of(bob()), 100);
    assert_eq!(erc20.balance_of(alice()), 100000 - 100);
}

#[test]
fn construction_credits_creator_only() {
    let erc20 = Erc20::new(alice(), "Hivve".to_string(), 10_000_000);
    assert_eq!(erc20.name(), "Hivve");
    assert_eq!(erc20.total_supply(), 10_000_000);
    assert_eq!(erc20.balance_of(alice()), 10_000_000);
    assert_eq!(erc20.balance_of(bob()), 0);
    assert_eq!(erc20.owner(), alice());
    assert_eq!(erc20.allowance(alice(), bob()), 0);
}

#[test]
fn zero_supply_ledger() {
    let mut erc20 = Erc20::new(alice(), "Empty".to_string(), 0);
    assert_eq!(erc20.balance_of(alice()), 0);
    assert_eq!(erc20.transfer(alice(), bob(), 0).is_ok(), true);
    assert_eq!(erc20.transfer(alice(), bob(), 1), Err(Error::InsufficientBalance));
}

#[test]
fn transfer_returns_notification() {
    let mut erc20 = Erc20::new(alice(), "Hivve".to_string(), 100000);
    let event = erc20.transfer(alice(), bob(), 100).unwrap();
    assert_eq!(
        event,
        Transfer { from: Some(alice()), to: Some(bob()), value: 100 }
    );
    assert_eq!(erc20.balance_of(bob()) + erc20.balance_of(alice()), 100000);
}

#[test]
fn transfer_from_empty_account_fails() {
    let mut erc20 = Erc20::new(alice(), "Hivve".to_string(), 100000);
    let before = erc20.balance_of(bob());
    assert_eq!(erc20.transfer(charlie(), bob(), 1), Err(Error::InsufficientBalance));
    assert_eq!(erc20.balance_of(bob()), before);
    assert_eq!(erc20.balance_of(charlie()), 0);
    assert_eq!(erc20.balance_of(alice()), 100000);
}

#[test]
fn transfer_more_than_balance_fails() {
    let mut erc20 = Erc20::new(alice(), "Hivve".to_string(), 100);
    assert_eq!(erc20.transfer(alice(), bob(), 101), Err(Error::InsufficientBalance));
    assert_eq!(erc20.balance_of(alice()), 100);
    assert_eq!(erc20.balance_of(bob()), 0);
}

#[test]
fn transfer_whole_balance() {
    let mut erc20 = Erc20::new(alice(), "Hivve".to_string(), 500);
    assert!(erc20.transfer(alice(), bob(), 500).is_ok());
    assert_eq!(erc20.balance_of(alice()), 0);
    assert_eq!(erc20.balance_of(bob()), 500);
    assert!(erc20.transfer(bob(), charlie(), 200).is_ok());
    assert_eq!(erc20.balance_of(bob()), 300);
    assert_eq!(erc20.balance_of(charlie()), 200);
    assert_eq!(
        erc20.balance_of(alice()) + erc20.balance_of(bob()) + erc20.balance_of(charlie()),
        500
    );
}

#[test]
fn self_transfer_keeps_balance() {
    let mut erc20 = Erc20::new(alice(), "Hivve".to_string(), 1000);
    let event = erc20.transfer(alice(), alice(), 700).unwrap();
    assert_eq!(event.from, Some(alice()));
    assert_eq!(event.to, Some(alice()));
    assert_eq!(event.value, 700);
    assert_eq!(erc20.balance_of(alice()), 1000);
    assert!(erc20.transfer(alice(), alice(), 1000).is_ok());
    assert_eq!(erc20.balance_of(alice()), 1000);
    assert_eq!(erc20.transfer(alice(), alice(), 1001), Err(Error::InsufficientBalance));
}

#[test]
fn largest_supply() {
    let mut erc20 = Erc20::new(alice(), "Max".to_string(), u128::MAX);
    assert!(erc20.transfer(alice(), bob(), u128::MAX).is_ok());
    assert_eq!(erc20.balance_of(bob()), u128::MAX);
    assert!(erc20.transfer(bob(), alice(), 1).is_ok());
    assert_eq!(erc20.balance_of(alice()), 1);
    assert_eq!(erc20.balance_of(bob()), u128::MAX - 1);
}

#[test]
fn reads_are_repeatable() {
    let mut erc20 = Erc20::new(alice(), "Hivve".to_string(), 1000);
    erc20.approve(alice(), bob(), 7);
    assert_eq!(erc20.balance_of(alice()), erc20.balance_of(alice()));
    assert_eq!(erc20.balance_of(bob()), erc20.balance_of(bob()));
    assert_eq!(erc20.allowance(alice(), bob()), erc20.allowance(alice(), bob()));
    assert_eq!(erc20.name(), erc20.name());
    assert_eq!(erc20.total_supply(), erc20.total_supply());
}

#[test]
fn approve_overwrites() {
    let mut erc20 = Erc20::new(alice(), "Hivve".to_string(), 1000);
    erc20.approve(alice(), bob(), 50);
    assert_eq!(erc20.allowance(alice(), bob()), 50);
    erc20.approve(alice(), bob(), 10);
    assert_eq!(erc20.allowance(alice(), bob()), 10);
    assert_eq!(erc20.allowance(bob(), alice()), 0);
    assert_eq!(erc20.balance_of(alice()), 1000);
}

#[test]
fn transfer_from_spends_allowance() {
    let mut erc20 = Erc20::new(alice(), "Hivve".to_string(), 1000);
    erc20.approve(alice(), bob(), 50);
    let event = erc20.transfer_from(bob(), alice(), charlie(), 30).unwrap();
    assert_eq!(
        event,
        Transfer { from: Some(alice()), to: Some(charlie()), value: 30 }
    );
    assert_eq!(erc20.balance_of(alice()), 970);
    assert_eq!(erc20.balance_of(charlie()), 30);
    assert_eq!(erc20.balance_of(bob()), 0);
    assert_eq!(erc20.allowance(alice(), bob()), 20);
}

#[test]
fn transfer_from_without_allowance_fails() {
    let mut erc20 = Erc20::new(alice(), "Hivve".to_string(), 1000);
    erc20.approve(alice(), bob(), 5);
    assert_eq!(
        erc20.transfer_from(bob(), alice(), charlie(), 6),
        Err(Error::InsufficientAllowance)
    );
    assert_eq!(erc20.allowance(alice(), bob()), 5);
    assert_eq!(erc20.balance_of(alice()), 1000);
    assert_eq!(erc20.balance_of(charlie()), 0);
}

#[test]
fn transfer_from_checks_balance_first() {
    let mut erc20 = Erc20::new(alice(), "Hivve".to_string(), 1000);
    assert_eq!(
        erc20.transfer_from(bob(), alice(), charlie(), 1001),
        Err(Error::InsufficientBalance)
    );
    assert_eq!(
        erc20.transfer_from(bob(), alice(), charlie(), 1),
        Err(Error::InsufficientAllowance)
    );
}

#[test]
fn account_ids_compare_by_bytes() {
    let mut bytes = [1u8; 32];
    bytes[31] = 9;
    let near = AccountId::from_bytes(bytes);
    let mut erc20 = Erc20::new(alice(), "Hivve".to_string(), 10);
    assert!(erc20.transfer(alice(), near, 4).is_ok());
    assert_eq!(erc20.balance_of(near), 4);
    assert_eq!(erc20.balance_of(alice()), 6);
    assert_eq!(near.to_bytes(), bytes);
}
