use nft_market::errors::Error;
use nft_market::market::Market;
use nft_market::types::{Owners, ShareProfitsInfo};

fn whole_share(owner: u64) -> Vec<ShareProfitsInfo> {
    vec![ShareProfitsInfo { percentage: 100, owner_address: owner }]
}

/// Issuer 1 with a minted NFT (collection 0, NFT 0) holding `supply` units
/// bought at the mint price.
fn market_with_holding(price: u64, royalty: u64, supply: u64) -> Market {
    let mut market = Market::new(1);
    market.do_create_collection(1, vec![1]).unwrap();
    market.mint_nft(1, 0, vec![7], royalty, whole_share(1), price, 0).unwrap();
    market.deposit_free(1, 1_000_000).unwrap();
    market.buy_nft(1, 0, 0, supply).unwrap();
    market
}

#[test]
fn buy_nft_pays_every_stakeholder() {
    let mut market = Market::new(1);
    market.do_create_collection(1, vec![1]).unwrap();
    let shares = vec![
        ShareProfitsInfo { percentage: 50, owner_address: 8 },
        ShareProfitsInfo { percentage: 50, owner_address: 9 },
    ];
    market.mint_nft(1, 0, vec![7], 0, shares, 100, 0).unwrap();
    market.deposit_free(2, 10_000).unwrap();

    market.buy_nft(2, 0, 0, 3).unwrap();
    // The price itself goes into escrow; each stakeholder receives
    // price * supply * percentage / 100 = 100 * 3 * 50 / 100 = 150.
    assert_eq!(market.ledger.reserved_balance(2), 100);
    assert_eq!(market.ledger.free_balance(2), 10_000 - 100 - 150 - 150);
    assert_eq!(market.ledger.free_balance(8), 150);
    assert_eq!(market.ledger.free_balance(9), 150);
    let nft = market.get_nft(0, 0).unwrap();
    assert_eq!(nft.owners.as_ref().unwrap()[0], Owners { total_supply: 3, address: 2 });
    assert_eq!(market.user_nfts.get(&2).unwrap(), &vec![(0, 0)]);
}

#[test]
fn buy_nft_needs_funds() {
    let mut market = Market::new(1);
    market.do_create_collection(1, vec![1]).unwrap();
    market.mint_nft(1, 0, vec![7], 0, whole_share(1), 100, 0).unwrap();
    market.deposit_free(2, 99).unwrap();
    assert_eq!(market.buy_nft(2, 0, 0, 1), Err(Error::CanNotReserveCurrency));
    assert_eq!(market.ledger.free_balance(2), 99);
    assert_eq!(market.buy_nft(2, 0, 9, 1), Err(Error::NFTNotFound));
}

#[test]
fn buy_nft_rolls_back_when_a_share_cannot_be_paid() {
    let mut market = Market::new(1);
    market.do_create_collection(1, vec![1]).unwrap();
    market.mint_nft(1, 0, vec![7], 0, whole_share(9), 100, 0).unwrap();
    // Enough to reserve the price, not enough to also pay the stakeholder
    // 100 * 2 * 100 / 100 = 200.
    market.deposit_free(2, 250).unwrap();
    assert_eq!(market.buy_nft(2, 0, 0, 2), Err(Error::InsufficientBalance));
    // Nothing stuck: the reservation was rolled back with everything else.
    assert_eq!(market.ledger.free_balance(2), 250);
    assert_eq!(market.ledger.reserved_balance(2), 0);
    assert_eq!(market.get_nft(0, 0).unwrap().owners.as_ref().unwrap().len(), 0);
}

#[test]
fn sell_nft_splits_price_into_royalty_fee_and_remainder() {
    // Royalty 10%, platform fee 10% of the royalty.
    let mut market = market_with_holding(10, 10, 10);
    let issuer_before = market.ledger.free_balance(1);
    market.deposit_free(2, 1_000).unwrap();

    market.sell_nft(1, 2, 0, 0, 150, 0, 4).unwrap();
    // royalty 15, fee 1, remainder 134; issuer and seller are both 1.
    assert_eq!(market.ledger.free_balance(2), 1_000 - 150);
    assert_eq!(market.ledger.free_balance(1), issuer_before + 150);
    let owners = market.get_nft(0, 0).unwrap().owners.clone().unwrap();
    assert_eq!(owners.len(), 2);
    assert_eq!(owners[0], Owners { total_supply: 6, address: 1 });
    assert_eq!(owners[1], Owners { total_supply: 4, address: 2 });
    assert_eq!(market.user_nfts.get(&2).unwrap(), &vec![(0, 0)]);
}

#[test]
fn sell_nft_removes_a_drained_seller() {
    let mut market = market_with_holding(10, 0, 5);
    market.deposit_free(2, 1_000).unwrap();
    market.sell_nft(1, 2, 0, 0, 100, 0, 5).unwrap();
    let owners = market.get_nft(0, 0).unwrap().owners.clone().unwrap();
    assert_eq!(owners, vec![Owners { total_supply: 5, address: 2 }]);
    // The emptied seller's personal index entry is gone.
    assert_eq!(market.user_nfts.get(&1).unwrap(), &Vec::<(u64, u64)>::new());
}

#[test]
fn sell_nft_underflow_rolls_everything_back() {
    let mut market = market_with_holding(10, 10, 5);
    market.deposit_free(2, 1_000).unwrap();
    let issuer_free = market.ledger.free_balance(1);

    // Selling 6 units out of a holding of 5 fails after the money moved,
    // and the money moves back.
    assert_eq!(market.sell_nft(1, 2, 0, 0, 100, 0, 6), Err(Error::ArithmeticUnderflow));
    assert_eq!(market.ledger.free_balance(2), 1_000);
    assert_eq!(market.ledger.free_balance(1), issuer_free);
    let owners = market.get_nft(0, 0).unwrap().owners.clone().unwrap();
    assert_eq!(owners, vec![Owners { total_supply: 5, address: 1 }]);
}

#[test]
fn sell_nft_keep_alive_failure_rolls_everything_back() {
    // Minimum balance 50: the remainder transfer would drain the buyer
    // below it, so the whole settlement aborts.
    let mut market = Market::new(50);
    market.do_create_collection(1, vec![1]).unwrap();
    market.mint_nft(1, 0, vec![7], 10, whole_share(1), 10, 0).unwrap();
    market.deposit_free(1, 1_000).unwrap();
    market.buy_nft(1, 0, 0, 5).unwrap();
    market.deposit_free(2, 100).unwrap();

    let issuer_free = market.ledger.free_balance(1);
    assert_eq!(market.sell_nft(1, 2, 0, 0, 100, 0, 5), Err(Error::CanNotTransferCurrency));
    assert_eq!(market.ledger.free_balance(2), 100);
    assert_eq!(market.ledger.free_balance(1), issuer_free);
    let owners = market.get_nft(0, 0).unwrap().owners.clone().unwrap();
    assert_eq!(owners, vec![Owners { total_supply: 5, address: 1 }]);
}

#[test]
fn sell_nft_rejects_strangers() {
    let mut market = market_with_holding(10, 0, 5);
    market.deposit_free(2, 1_000).unwrap();
    assert_eq!(market.sell_nft(4, 2, 0, 0, 10, 0, 1), Err(Error::OwnerNotFound));
    assert_eq!(market.sell_nft(1, 2, 0, 9, 10, 0, 1), Err(Error::NFTNotFound));
}
