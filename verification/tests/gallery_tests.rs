use nft_market::errors::Error;
use nft_market::market::Market;
use nft_market::types::make_pair_key;

#[test]
fn test_create_market_place_works() {
    let mut market = Market::new(1);
    let origin: u64 = 0;
    let metadata: Vec<u8> = vec![0u8; 32];
    let fee: u64 = 100;
    let export_fee: u64 = 10;
    let import_fee: u64 = 10;
    let max_royalty: u64 = 5;
    let royalty_fee: u64 = 3;
    let hash_id: u64 = 32;

    market
        .create_market_place(origin, metadata, hash_id, fee, export_fee, import_fee, max_royalty, royalty_fee)
        .unwrap();

    let key = make_pair_key(origin, hash_id);
    let store = market.marketplaces.get(&key).unwrap();
    assert_eq!(store.fee, fee);
    assert_eq!(store.export_fee, export_fee);
    assert_eq!(store.import_fee, import_fee);
    assert_eq!(store.max_royalty, max_royalty);
    assert_eq!(store.royalty_fee, royalty_fee);
    assert_eq!(store.owner, origin);
    assert_eq!(store.issuer, origin);
}

#[test]
fn market_place_fee_lookup() {
    let mut market = Market::new(1);
    market.create_market_place(7, vec![1, 2], 9, 100, 10, 10, 5, 3).unwrap();
    assert_eq!(market.get_market_place_fee(7, 9), Ok((5, 3)));
    assert_eq!(market.get_market_place_fee(7, 8), Err(Error::MarketNotFound));
}

#[test]
fn royalty_ceiling_is_enforced_per_store() {
    let mut market = Market::new(1);
    market.create_market_place(7, vec![1], 9, 100, 10, 10, 5, 3).unwrap();
    assert_eq!(market.check_allow_royalty(7, 9, 5), Ok(()));
    assert_eq!(
        market.check_allow_royalty(7, 9, 6),
        Err(Error::NotAllowSetRoyaltyOverThanStoreConfig)
    );
    assert_eq!(market.check_allow_royalty(8, 9, 1), Err(Error::MarketNotFound));
}

#[test]
fn store_fee_is_paid_to_the_owner() {
    let mut market = Market::new(1);
    market.create_market_place(7, vec![1], 9, 25, 0, 0, 5, 3).unwrap();
    market.deposit_free(4, 100).unwrap();
    assert_eq!(market.send_fee_to_market_place_owner(4, 7, 9), Ok(()));
    assert_eq!(market.ledger.free_balance(4), 75);
    assert_eq!(market.ledger.free_balance(7), 25);
    assert_eq!(
        market.send_fee_to_market_place_owner(4, 7, 8),
        Err(Error::MarketNotFound)
    );
    // A broke payer cannot pay the fee.
    assert_eq!(
        market.send_fee_to_market_place_owner(5, 7, 9),
        Err(Error::ErrorTransferMarketPlaceFee)
    );
    assert_eq!(market.send_royalty_fee_to_market_place_owner(4, 7, 9, 10), Ok(()));
    assert_eq!(market.ledger.free_balance(7), 35);
}

#[test]
fn change_owner_sells_the_store() {
    let mut market = Market::new(1);
    market.create_market_place(7, vec![1], 9, 25, 0, 0, 5, 3).unwrap();
    market.deposit_free(8, 100).unwrap();

    assert_eq!(market.change_owner(7, 8, 9, 60), Ok(()));
    // The new owner paid the original owner and holds the store now.
    assert_eq!(market.ledger.free_balance(8), 40);
    assert_eq!(market.ledger.free_balance(7), 60);
    let store = market.marketplaces.get(&make_pair_key(8, 9)).unwrap();
    assert_eq!(store.owner, 8);
    assert_eq!(store.issuer, 7);
    assert!(market.marketplaces.get(&make_pair_key(7, 9)).is_none());

    // Selling a store one does not own fails.
    assert_eq!(market.change_owner(7, 8, 9, 1), Err(Error::MarketNotFound));
}

#[test]
fn change_owner_needs_a_solvent_buyer() {
    let mut market = Market::new(1);
    market.create_market_place(7, vec![1], 9, 25, 0, 0, 5, 3).unwrap();
    assert_eq!(market.change_owner(7, 8, 9, 60), Err(Error::InsufficientBalance));
    // The store did not move.
    assert!(market.marketplaces.get(&make_pair_key(7, 9)).is_some());
}

#[test]
fn change_marketplace_info_rewrites_listing_data() {
    let mut market = Market::new(1);
    market.create_market_place(7, vec![1], 9, 25, 1, 2, 5, 3).unwrap();
    assert_eq!(
        market.change_marketplace_info(7, 9, vec![9, 9], 30, 4, 5, 6, 7),
        Ok(())
    );
    let store = market.marketplaces.get(&make_pair_key(7, 9)).unwrap();
    assert_eq!(store.metadata, vec![9, 9]);
    assert_eq!(store.fee, 30);
    assert_eq!(store.export_fee, 4);
    assert_eq!(store.import_fee, 5);
    assert_eq!(store.max_royalty, 6);
    assert_eq!(store.royalty_fee, 7);
    assert_eq!(store.owner, 7);
    assert_eq!(
        market.change_marketplace_info(8, 9, vec![], 0, 0, 0, 0, 0),
        Err(Error::MarketNotFound)
    );
}
