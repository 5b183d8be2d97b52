use nft_market::errors::Error;
use nft_market::ledger::{ExistenceRequirement, Ledger};

#[test]
fn fresh_accounts_are_empty() {
    let ledger = Ledger::new(1);
    assert_eq!(ledger.free_balance(5), 0);
    assert_eq!(ledger.reserved_balance(5), 0);
}

#[test]
fn deposit_and_reserve_roundtrip() {
    let mut ledger = Ledger::new(1);
    ledger.deposit_free(5, 100).unwrap();
    assert_eq!(ledger.free_balance(5), 100);

    assert_eq!(ledger.reserve(5, 30), Ok(()));
    assert_eq!(ledger.free_balance(5), 70);
    assert_eq!(ledger.reserved_balance(5), 30);

    // Releasing more than is reserved releases exactly what is there.
    ledger.unreserve(5, 1000);
    assert_eq!(ledger.free_balance(5), 100);
    assert_eq!(ledger.reserved_balance(5), 0);
}

#[test]
fn reserve_needs_free_balance() {
    let mut ledger = Ledger::new(1);
    ledger.deposit_free(5, 10).unwrap();
    assert_eq!(ledger.reserve(5, 11), Err(Error::InsufficientBalance));
    assert_eq!(ledger.free_balance(5), 10);
}

#[test]
fn deposit_overflow_is_rejected() {
    let mut ledger = Ledger::new(1);
    ledger.deposit_free(5, u64::MAX).unwrap();
    assert_eq!(ledger.deposit_free(5, 1), Err(Error::NumOverflow));
    assert_eq!(ledger.free_balance(5), u64::MAX);
}

#[test]
fn transfer_moves_free_balance() {
    let mut ledger = Ledger::new(1);
    ledger.deposit_free(1, 100).unwrap();
    assert_eq!(ledger.transfer(1, 2, 40, ExistenceRequirement::AllowDeath), Ok(()));
    assert_eq!(ledger.free_balance(1), 60);
    assert_eq!(ledger.free_balance(2), 40);
}

#[test]
fn transfer_requires_funds() {
    let mut ledger = Ledger::new(1);
    ledger.deposit_free(1, 10).unwrap();
    assert_eq!(
        ledger.transfer(1, 2, 11, ExistenceRequirement::AllowDeath),
        Err(Error::InsufficientBalance)
    );
}

#[test]
fn keep_alive_refuses_to_drain_the_source() {
    let mut ledger = Ledger::new(10);
    ledger.deposit_free(1, 100).unwrap();
    // 95 would leave only 5 in total, below the minimum balance of 10.
    assert_eq!(
        ledger.transfer(1, 2, 95, ExistenceRequirement::KeepAlive),
        Err(Error::CanNotTransferCurrency)
    );
    assert_eq!(ledger.free_balance(1), 100);
    // AllowDeath does not care.
    assert_eq!(ledger.transfer(1, 2, 95, ExistenceRequirement::AllowDeath), Ok(()));
    assert_eq!(ledger.free_balance(1), 5);
    // Reserved balance counts toward staying alive.
    let mut l2 = Ledger::new(10);
    l2.deposit_free(1, 100).unwrap();
    l2.reserve(1, 50).unwrap();
    assert_eq!(l2.transfer(1, 2, 50, ExistenceRequirement::KeepAlive), Ok(()));
    assert_eq!(l2.free_balance(1), 0);
    assert_eq!(l2.reserved_balance(1), 50);
}

#[test]
fn transfer_to_oneself_moves_nothing() {
    let mut ledger = Ledger::new(1);
    ledger.deposit_free(1, 100).unwrap();
    assert_eq!(ledger.transfer(1, 1, 40, ExistenceRequirement::KeepAlive), Ok(()));
    assert_eq!(ledger.free_balance(1), 100);
    assert_eq!(
        ledger.transfer(1, 1, 101, ExistenceRequirement::KeepAlive),
        Err(Error::InsufficientBalance)
    );
}
