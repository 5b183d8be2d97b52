use nft_market::errors::Error;
use nft_market::market::Market;
use nft_market::types::ShareProfitsInfo;

fn whole_share(owner: u64) -> Vec<ShareProfitsInfo> {
    vec![ShareProfitsInfo { percentage: 100, owner_address: owner }]
}

fn market_with_collection(issuer: u64) -> Market {
    let mut market = Market::new(1);
    market.do_create_collection(issuer, vec![1, 2, 3]).unwrap();
    market
}

#[test]
fn collection_ids_count_up() {
    let mut market = Market::new(1);
    market.do_create_collection(1, vec![0xaa]).unwrap();
    market.do_create_collection(2, vec![0xbb]).unwrap();
    assert_eq!(market.next_collection_id, 2);
    assert_eq!(market.get_collection(0).unwrap().issuer, 1);
    assert_eq!(market.get_collection(1).unwrap().issuer, 2);
    assert_eq!(market.get_collection(2).err(), Some(Error::CollectionNotFound));
    // The artist index lists the new collection.
    assert_eq!(market.artist_collections.get(&1).unwrap().len(), 1);
}

#[test]
fn create_collection_checks_the_store() {
    let mut market = Market::new(1);
    assert_eq!(
        market.create_collection(1, vec![0xaa], 7, 9),
        Err(Error::MarketNotFound)
    );
    market.create_market_place(7, vec![1], 9, 0, 0, 0, 5, 3).unwrap();
    assert_eq!(market.create_collection(1, vec![0xaa], 7, 9), Ok(()));
}

#[test]
fn update_collection_is_owner_only() {
    let mut market = market_with_collection(1);
    assert_eq!(market.update_collection(2, vec![9], 0), Err(Error::NoPermission));
    assert_eq!(market.update_collection(1, vec![9], 1), Err(Error::CollectionNotFound));
    assert_eq!(market.update_collection(1, vec![9], 0), Ok(()));
    assert_eq!(market.get_collection(0).unwrap().metadata, vec![9]);
}

#[test]
fn mint_nft_stores_the_token() {
    let mut market = market_with_collection(1);
    market.mint_nft(1, 0, vec![7], 10, whole_share(1), 50, 0).unwrap();
    let nft = market.get_nft(0, 0).unwrap();
    assert_eq!(nft.issuer, 1);
    assert_eq!(nft.price, 50);
    assert_eq!(nft.royalty, 10);
    assert_eq!(nft.owners.as_ref().unwrap().len(), 0);
    // The issuer's personal index lists the mint.
    assert_eq!(market.user_nfts.get(&1).unwrap(), &vec![(0, 0)]);
    // Ids advance per collection.
    market.mint_nft(1, 0, vec![8], 0, whole_share(1), 1, 0).unwrap();
    assert!(market.get_nft(0, 1).is_ok());
}

#[test]
fn mint_nft_rejections() {
    let mut market = market_with_collection(1);
    assert_eq!(
        market.mint_nft(1, 5, vec![], 0, whole_share(1), 1, 0),
        Err(Error::CollectionNotFound)
    );
    assert_eq!(
        market.mint_nft(2, 0, vec![], 0, whole_share(2), 1, 0),
        Err(Error::NoPermission)
    );
    // The stock ceiling is ten percent.
    assert_eq!(
        market.mint_nft(1, 0, vec![], 11, whole_share(1), 1, 0),
        Err(Error::NotAllowToSetRoyalty)
    );
    // Percentages must sum to one hundred.
    assert_eq!(
        market.mint_nft(
            1,
            0,
            vec![],
            0,
            vec![ShareProfitsInfo { percentage: 60, owner_address: 1 }],
            1,
            0
        ),
        Err(Error::InvalidPercentageSum)
    );
}

#[test]
fn update_nft_only_before_first_owner() {
    let mut market = market_with_collection(1);
    market.mint_nft(1, 0, vec![7], 10, whole_share(1), 50, 0).unwrap();
    assert_eq!(market.update_nft(1, 0, 0, vec![8], whole_share(1), 60, 1), Ok(()));
    let nft = market.get_nft(0, 0).unwrap();
    assert_eq!(nft.price, 60);
    assert_eq!(nft.metadata, vec![8]);
    assert_eq!(nft.royalty, 10);

    // Once somebody owns a share, edits are refused.
    market.deposit_free(2, 10_000).unwrap();
    market.buy_nft(2, 0, 0, 1).unwrap();
    assert_eq!(
        market.update_nft(1, 0, 0, vec![9], whole_share(1), 70, 1),
        Err(Error::NFTHasOwner)
    );
}

#[test]
fn update_share_profit_nft_replaces_the_list() {
    let mut market = market_with_collection(1);
    market.mint_nft(1, 0, vec![7], 0, whole_share(1), 50, 0).unwrap();
    let new_list = vec![
        ShareProfitsInfo { percentage: 40, owner_address: 2 },
        ShareProfitsInfo { percentage: 60, owner_address: 3 },
    ];
    assert_eq!(market.update_share_profit_nft(1, 0, 0, new_list.clone()), Ok(()));
    assert_eq!(market.get_nft(0, 0).unwrap().share_profits, new_list);
    assert_eq!(
        market.update_share_profit_nft(2, 0, 0, new_list),
        Err(Error::NoPermission)
    );
}

#[test]
fn burn_nft_rules() {
    let mut market = market_with_collection(1);
    market.mint_nft(1, 0, vec![7], 0, whole_share(1), 50, 0).unwrap();
    // A minted NFT carries an (empty) owner list, and only a token that
    // never acquired one can be burned.
    assert_eq!(market.burn_nft(1, 0, 0), Err(Error::NoPermission));
    assert_eq!(market.burn_nft(1, 0, 9), Err(Error::NFTNotFound));
    assert_eq!(market.burn_nft(2, 0, 0), Err(Error::NoPermission));
}

#[test]
fn likes_toggle() {
    let mut market = market_with_collection(1);
    market.mint_nft(1, 0, vec![7], 0, whole_share(1), 50, 0).unwrap();
    assert_eq!(market.like_item_nft(5, 0, 9), Err(Error::NFTNotFound));
    market.like_item_nft(5, 0, 0).unwrap();
    assert_eq!(market.nft_likes.get(&5).unwrap(), &vec![(0, 0)]);
    // Liking again unlikes.
    market.like_item_nft(5, 0, 0).unwrap();
    assert_eq!(market.nft_likes.get(&5).unwrap(), &Vec::<(u64, u64)>::new());
}

#[test]
fn set_config_replaces_the_ceiling() {
    let mut market = market_with_collection(1);
    assert_eq!(market.get_config().max_allow_royalty_percent, 10);
    market.set_config(7, 42).unwrap();
    assert_eq!(market.get_config().royalty_fee, 7);
    assert_eq!(market.get_config().max_allow_royalty_percent, 42);
    // A royalty of 42 is allowed now.
    market.mint_nft(1, 0, vec![], 42, whole_share(1), 1, 0).unwrap();
}

#[test]
fn auction_permission_needs_holdings() {
    let mut market = market_with_collection(1);
    market.mint_nft(1, 0, vec![7], 0, whole_share(1), 10, 0).unwrap();
    // The freshly minted NFT has an empty owner list: nobody holds supply.
    assert_eq!(
        market.has_permission_add_nft_in_auction(1, 0, 0, 5),
        Err(Error::OwnerNotHaveEnoughTotalSupply)
    );
    market.deposit_free(1, 1_000).unwrap();
    market.buy_nft(1, 0, 0, 5).unwrap();
    assert_eq!(market.has_permission_add_nft_in_auction(1, 0, 0, 5), Ok(()));
    assert_eq!(
        market.has_permission_add_nft_in_auction(1, 0, 0, 6),
        Err(Error::OwnerNotHaveEnoughTotalSupply)
    );
    assert_eq!(
        market.has_permission_add_nft_in_auction(1, 0, 9, 1),
        Err(Error::NFTNotFound)
    );
    assert_eq!(
        market.has_permission_add_nft_in_auction(1, 9, 0, 1),
        Err(Error::CollectionNotFound)
    );
}
