use nft_market::errors::Error;
use nft_market::market::Market;
use nft_market::types::{AlbumTracks, Owners, ShareProfitsInfo};

fn track(price: u64, stakeholder: u64) -> AlbumTracks {
    AlbumTracks {
        track_id: None,
        metadata: vec![1],
        owners: None,
        share_profits: vec![ShareProfitsInfo { percentage: 100, owner_address: stakeholder }],
        price,
    }
}

fn market_with_album() -> Market {
    let mut market = Market::new(1);
    market.do_create_collection(1, vec![1]).unwrap();
    market
        .mint_album(1, 0, vec![2], 10, vec![track(10, 8), track(20, 9)], 0)
        .unwrap();
    market
}

#[test]
fn mint_album_allocates_track_ids() {
    let market = market_with_album();
    let album = market.get_album(0, 0).unwrap();
    assert_eq!(album.issuer, 1);
    assert_eq!(album.royalty, 10);
    assert_eq!(album.owners.as_ref().unwrap().len(), 0);
    // The album took id 0, its tracks the two ids after it.
    assert_eq!(album.tracks[0].track_id, Some(1));
    assert_eq!(album.tracks[1].track_id, Some(2));
    // The counter stands past all of them.
    assert_eq!(market.next_album_id.get(&0), Some(&3));
}

#[test]
fn mint_album_rejections() {
    let mut market = Market::new(1);
    market.do_create_collection(1, vec![1]).unwrap();
    assert_eq!(market.mint_album(2, 0, vec![], 0, vec![], 0), Err(Error::NoPermission));
    assert_eq!(
        market.mint_album(1, 9, vec![], 0, vec![], 0),
        Err(Error::CollectionNotFound)
    );
    assert_eq!(
        market.mint_album(1, 0, vec![], 11, vec![], 0),
        Err(Error::NotAllowToSetRoyalty)
    );
}

#[test]
fn buy_album_reserves_and_pays_per_track() {
    let mut market = market_with_album();
    market.deposit_free(2, 10_000).unwrap();
    market.buy_album(2, 0, 0, 3).unwrap();
    // Per track: the total price (price * 3) goes into escrow and the
    // stakeholder receives price * 3 * 100 / 100.
    assert_eq!(market.ledger.reserved_balance(2), 30 + 60);
    assert_eq!(market.ledger.free_balance(8), 30);
    assert_eq!(market.ledger.free_balance(9), 60);
    assert_eq!(market.ledger.free_balance(2), 10_000 - 30 - 60 - 30 - 60);
    let album = market.get_album(0, 0).unwrap();
    assert_eq!(album.owners.as_ref().unwrap()[0], Owners { total_supply: 3, address: 2 });
    assert_eq!(market.user_albums.get(&2).unwrap(), &vec![(0, 0)]);
}

#[test]
fn buy_album_rolls_back_on_failure() {
    let mut market = market_with_album();
    // Enough for the first track (escrow 30 + share 30), not for the
    // second (escrow 60 + share 60).
    market.deposit_free(2, 100).unwrap();
    assert_eq!(market.buy_album(2, 0, 0, 3), Err(Error::CanNotReserveCurrency));
    assert_eq!(market.ledger.free_balance(2), 100);
    assert_eq!(market.ledger.reserved_balance(2), 0);
    assert_eq!(market.ledger.free_balance(8), 0);
    assert_eq!(market.get_album(0, 0).unwrap().owners.as_ref().unwrap().len(), 0);
    assert_eq!(market.buy_album(2, 0, 9, 1), Err(Error::AlbumNotFound));
}

#[test]
fn sell_album_settles_and_moves_the_holding() {
    let mut market = market_with_album();
    market.deposit_free(2, 10_000).unwrap();
    market.buy_album(2, 0, 0, 3).unwrap();
    market.deposit_free(5, 1_000).unwrap();

    let seller_free = market.ledger.free_balance(2);
    let issuer_free = market.ledger.free_balance(1);
    // Price 100, royalty 10% -> 10 to the issuer, fee 10% of that -> 1,
    // remainder 89 to the seller.
    market.sell_album(2, 5, 0, 0, 100, 0, 2).unwrap();
    assert_eq!(market.ledger.free_balance(5), 1_000 - 100);
    assert_eq!(market.ledger.free_balance(1), issuer_free + 11);
    assert_eq!(market.ledger.free_balance(2), seller_free + 89);
    let owners = market.get_album(0, 0).unwrap().owners.clone().unwrap();
    assert_eq!(owners.len(), 2);
    assert_eq!(owners[0], Owners { total_supply: 1, address: 2 });
    assert_eq!(owners[1], Owners { total_supply: 2, address: 5 });
    assert_eq!(market.user_albums.get(&5).unwrap(), &vec![(0, 0)]);
}

#[test]
fn sell_album_underflow_rolls_back() {
    let mut market = market_with_album();
    market.deposit_free(2, 10_000).unwrap();
    market.buy_album(2, 0, 0, 3).unwrap();
    market.deposit_free(5, 1_000).unwrap();
    assert_eq!(market.sell_album(2, 5, 0, 0, 100, 0, 4), Err(Error::ArithmeticUnderflow));
    assert_eq!(market.ledger.free_balance(5), 1_000);
    let owners = market.get_album(0, 0).unwrap().owners.clone().unwrap();
    assert_eq!(owners, vec![Owners { total_supply: 3, address: 2 }]);
}

#[test]
fn album_likes_toggle() {
    let mut market = market_with_album();
    assert_eq!(market.like_item_album(5, 0, 9), Err(Error::NFTNotFound));
    market.like_item_album(5, 0, 0).unwrap();
    assert_eq!(market.album_likes.get(&5).unwrap(), &vec![(0, 0)]);
    market.like_item_album(5, 0, 0).unwrap();
    assert_eq!(market.album_likes.get(&5).unwrap(), &Vec::<(u64, u64)>::new());
}

#[test]
fn update_share_profit_album_touches_matching_tracks_only() {
    let mut market = market_with_album();
    let new_list = vec![ShareProfitsInfo { percentage: 100, owner_address: 7 }];
    assert_eq!(market.update_share_profit_album(1, 0, 0, 2, new_list.clone()), Ok(()));
    let album = market.get_album(0, 0).unwrap();
    // Track with id 2 was rewritten, track with id 1 kept.
    assert_eq!(album.tracks[0].share_profits[0].owner_address, 8);
    assert_eq!(album.tracks[1].share_profits, new_list);
    assert_eq!(
        market.update_share_profit_album(2, 0, 0, 2, new_list),
        Err(Error::NoPermission)
    );
}

#[test]
fn burn_album_rules() {
    let mut market = market_with_album();
    // A minted album carries an (empty) owner list, and only an album
    // that never acquired one can be burned.
    assert_eq!(market.burn_album(1, 0, 0), Err(Error::NoPermission));
    assert_eq!(market.burn_album(1, 0, 9), Err(Error::AlbumNotFound));
    assert_eq!(market.burn_album(2, 0, 0), Err(Error::NoPermission));
}

#[test]
fn album_auction_permission() {
    let mut market = market_with_album();
    assert_eq!(
        market.has_permission_add_album_in_auction(2, 0, 0, 1),
        Err(Error::OwnerNotHaveEnoughTotalSupply)
    );
    market.deposit_free(2, 10_000).unwrap();
    market.buy_album(2, 0, 0, 3).unwrap();
    assert_eq!(market.has_permission_add_album_in_auction(2, 0, 0, 3), Ok(()));
    assert_eq!(
        market.has_permission_add_album_in_auction(2, 0, 9, 1),
        Err(Error::AlbumNotFound)
    );
}
