use nft_market::errors::Error;
use nft_market::market::Market;
use nft_market::types::{make_pair_key, Owners, ShareProfitsInfo, NFT};

fn whole_share(owner: u64) -> Vec<ShareProfitsInfo> {
    vec![ShareProfitsInfo { percentage: 100, owner_address: owner }]
}

#[test]
fn collection_id_space_can_run_out() {
    let mut market = Market::new(1);
    market.next_collection_id = u64::MAX;
    assert_eq!(market.do_create_collection(1, vec![]), Err(Error::NoAvailableCollectionId));
}

#[test]
fn nft_id_space_can_run_out() {
    let mut market = Market::new(1);
    market.do_create_collection(1, vec![]).unwrap();
    market.next_nft_id.insert(0, u64::MAX);
    assert_eq!(
        market.mint_nft(1, 0, vec![], 0, whole_share(1), 1, 0),
        Err(Error::NoAvailableNFTId)
    );
}

#[test]
fn album_id_space_can_run_out() {
    let mut market = Market::new(1);
    market.do_create_collection(1, vec![]).unwrap();
    market.next_album_id.insert(0, u64::MAX);
    assert_eq!(market.mint_album(1, 0, vec![], 0, vec![], 0), Err(Error::NoAvailableCollectionId));
}

#[test]
fn selling_an_item_without_an_owner_list_fails() {
    let mut market = Market::new(1);
    // An NFT that never carried an owner list at all: the only kind of
    // token that can still be burned.
    market.nfts.insert(
        make_pair_key(0, 0),
        NFT {
            metadata: vec![],
            issuer: 1,
            owners: None,
            share_profits: whole_share(1),
            price: 10,
            royalty: 0,
            end_date: 0,
        },
    );
    market.deposit_free(2, 100).unwrap();
    assert_eq!(market.sell_nft(1, 2, 0, 0, 10, 0, 1), Err(Error::OwnersEmpty));
    assert_eq!(market.ledger.free_balance(2), 100);
    // Such an NFT can be burned.
    assert_eq!(market.burn_nft(1, 0, 0), Ok(()));
    assert!(market.get_nft(0, 0).is_err());
}

#[test]
fn draining_a_seller_without_an_index_entry_fails() {
    let mut market = Market::new(1);
    // A holding whose owner never appeared in the personal bought index.
    market.nfts.insert(
        make_pair_key(0, 0),
        NFT {
            metadata: vec![],
            issuer: 1,
            owners: Some(vec![Owners { total_supply: 5, address: 3 }]),
            share_profits: whole_share(1),
            price: 10,
            royalty: 0,
            end_date: 0,
        },
    );
    market.deposit_free(2, 1_000).unwrap();
    let seller_owners = vec![Owners { total_supply: 5, address: 3 }];
    // Draining the holding needs the index entry to clean up.
    assert_eq!(market.sell_nft(3, 2, 0, 0, 100, 0, 5), Err(Error::NotNFTOwner));
    assert_eq!(market.ledger.free_balance(2), 1_000);
    assert_eq!(
        market.get_nft(0, 0).unwrap().owners.clone().unwrap(),
        seller_owners
    );
    // A partial sale does not touch the index and goes through.
    assert_eq!(market.sell_nft(3, 2, 0, 0, 100, 0, 4), Ok(()));
}
