use nft_market::errors::Error;
use nft_market::owners::{
    acquire, check_owner_has_enough_supply, find_index_owner, has_sufficient_holding,
    partial_transfer,
};
use nft_market::types::Owners;

fn list() -> Vec<Owners> {
    vec![
        Owners { total_supply: 5, address: 10 },
        Owners { total_supply: 7, address: 20 },
        Owners { total_supply: 3, address: 10 },
    ]
}

#[test]
fn find_index_owner_takes_first_match() {
    let owners = list();
    assert_eq!(find_index_owner(&owners, 10), Ok(0));
    assert_eq!(find_index_owner(&owners, 20), Ok(1));
    assert_eq!(find_index_owner(&owners, 99), Err(Error::OwnerNotFound));
}

#[test]
fn holding_checks() {
    let owners = list();
    assert!(has_sufficient_holding(&owners, 20, 7));
    assert!(!has_sufficient_holding(&owners, 20, 8));
    // The second record of owner 10 counts as well.
    assert!(has_sufficient_holding(&owners, 10, 3));
    assert_eq!(check_owner_has_enough_supply(&owners, 10, 5), Ok(0));
    assert_eq!(
        check_owner_has_enough_supply(&owners, 10, 6),
        Err(Error::OwnerNotHaveEnoughTotalSupply)
    );
}

#[test]
fn acquire_appends_without_merging() {
    let mut owners = list();
    acquire(&mut owners, 10, 4);
    assert_eq!(owners.len(), 4);
    assert_eq!(owners[3], Owners { total_supply: 4, address: 10 });
    // The earlier records of owner 10 are untouched.
    assert_eq!(owners[0], Owners { total_supply: 5, address: 10 });
}

#[test]
fn partial_transfer_debits_first_record() {
    let mut owners = list();
    assert_eq!(partial_transfer(&mut owners, 10, 2), Ok(0));
    assert_eq!(owners[0], Owners { total_supply: 3, address: 10 });
    assert_eq!(owners.len(), 3);
}

#[test]
fn partial_transfer_removes_emptied_record() {
    let mut owners = list();
    assert_eq!(partial_transfer(&mut owners, 20, 7), Ok(1));
    assert_eq!(owners.len(), 2);
    assert_eq!(owners[0].address, 10);
    assert_eq!(owners[1].address, 10);
}

#[test]
fn partial_transfer_underflow_leaves_list_unchanged() {
    // A request above the held quantity fails with ArithmeticUnderflow and
    // changes nothing.
    let mut owners = list();
    assert_eq!(partial_transfer(&mut owners, 20, 8), Err(Error::ArithmeticUnderflow));
    assert_eq!(owners, list());
    assert_eq!(partial_transfer(&mut owners, 99, 1), Err(Error::OwnerNotFound));
    assert_eq!(owners, list());
}
