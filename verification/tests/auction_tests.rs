use nft_market::errors::Error;
use nft_market::market::Market;
use nft_market::types::{AuctionKey, Event, Owners, ShareProfitsInfo};

fn whole_share(owner: u64) -> Vec<ShareProfitsInfo> {
    vec![ShareProfitsInfo { percentage: 100, owner_address: owner }]
}

const A: u64 = 1;
const B: u64 = 2;
const C: u64 = 3;
const D: u64 = 4;

/// Issuer `A` holds 10 units of NFT (0, 0), minted at price 10, and an
/// auction over them is open under nonce 1 with the given start price.
fn market_with_auction(start_price: u64) -> (Market, AuctionKey) {
    let mut market = Market::new(1);
    market.do_create_collection(A, vec![1]).unwrap();
    market.mint_nft(A, 0, vec![7], 10, whole_share(A), 10, 0).unwrap();
    market.deposit_free(A, 1_000).unwrap();
    market.buy_nft(A, 0, 0, 10).unwrap();
    market.create_auction(A, 0, 0, start_price, 10, 0, 1).unwrap();
    (market, AuctionKey { issuer: A, nonce: 1 })
}

#[test]
fn create_auction_needs_holdings() {
    let mut market = Market::new(1);
    market.do_create_collection(A, vec![1]).unwrap();
    market.mint_nft(A, 0, vec![7], 10, whole_share(A), 10, 0).unwrap();
    // The freshly minted NFT has an empty owner list.
    assert_eq!(
        market.create_auction(A, 0, 0, 100, 10, 0, 1),
        Err(Error::OwnerNotHaveEnoughTotalSupply)
    );
    market.deposit_free(A, 1_000).unwrap();
    market.buy_nft(A, 0, 0, 10).unwrap();
    assert_eq!(market.create_auction(A, 0, 0, 100, 10, 0, 1), Ok(()));
    // The same nonce cannot be used twice.
    assert_eq!(
        market.create_auction(A, 0, 0, 100, 10, 0, 1),
        Err(Error::InvalidNextAuctionId)
    );
}

#[test]
fn bid_rejections() {
    let (mut market, key) = market_with_auction(100);
    market.deposit_free(B, 1_000).unwrap();
    // Not enough free balance for the offer.
    assert_eq!(market.bid(C, key, 150, 30), Err(Error::InsufficientBalance));
    // Unknown auction.
    market.deposit_free(C, 1_000).unwrap();
    let wrong = AuctionKey { issuer: A, nonce: 9 };
    assert_eq!(market.bid(C, wrong, 150, 30), Err(Error::AuctionKeyNotFound));
    // The issuer may not bid on their own auction.
    market.deposit_free(A, 1_000).unwrap();
    assert_eq!(market.bid(A, key, 150, 10), Err(Error::OriginProhibited));
    // The offer must beat the start price (the placeholder highest bid).
    assert_eq!(market.bid(B, key, 100, 20), Err(Error::PriceTooLow));
    market.bid(B, key, 150, 20).unwrap();
    // Matching the current highest bid is not enough.
    market.deposit_free(C, 1_000).unwrap();
    assert_eq!(market.bid(C, key, 150, 30), Err(Error::PriceTooLow));
}

#[test]
fn leader_and_escrow_follow_the_bids() {
    let (mut market, key) = market_with_auction(100);
    market.deposit_free(B, 1_000).unwrap();
    market.deposit_free(C, 1_000).unwrap();

    market.bid(B, key, 150, 20).unwrap();
    let k = nft_market::types::make_pair_key(A, 1);
    let st = market.auctions.get(&k).unwrap();
    assert_eq!(st.auction.highest_bid, 150);
    assert_eq!(st.auction.highest_bidder, B);
    // The whole bid is in escrow, and nothing else is.
    assert_eq!(market.ledger.reserved_balance(B), 150);
    assert_eq!(market.ledger.free_balance(B), 850);

    market.bid(C, key, 200, 30).unwrap();
    let st = market.auctions.get(&k).unwrap();
    assert_eq!(st.auction.highest_bid, 200);
    assert_eq!(st.auction.highest_bidder, C);
    // The outbid bidder's escrow was fully released; only the leader's
    // recorded slot price is reserved.
    assert_eq!(market.ledger.reserved_balance(B), 0);
    assert_eq!(market.ledger.free_balance(B), 1_000);
    assert_eq!(market.ledger.reserved_balance(C), 200);
    assert_eq!(st.bids.len(), 2);
}

#[test]
fn rebid_on_own_slot_releases_the_old_escrow() {
    let (mut market, key) = market_with_auction(100);
    market.deposit_free(B, 1_000).unwrap();
    market.bid(B, key, 150, 20).unwrap();
    market.bid(B, key, 300, 20).unwrap();
    assert_eq!(market.ledger.reserved_balance(B), 300);
    assert_eq!(market.ledger.free_balance(B), 700);
    let k = nft_market::types::make_pair_key(A, 1);
    assert_eq!(market.auctions.get(&k).unwrap().bids.len(), 1);
}

#[test]
fn extend_raises_the_threshold() {
    let (mut market, key) = market_with_auction(100);
    assert_eq!(market.extend(B, key, 200, 50), Err(Error::OwnerRequired));
    assert_eq!(
        market.extend(A, AuctionKey { issuer: A, nonce: 9 }, 200, 50),
        Err(Error::AuctionKeyNotFound)
    );
    market.deposit_free(B, 1_000).unwrap();
    market.bid(B, key, 150, 20).unwrap();
    // Lowering below the recorded bid on that slot is refused.
    assert_eq!(market.extend(A, key, 120, 20), Err(Error::AuctionAssigned));
    // Extending against another slot is accepted.
    assert_eq!(market.extend(A, key, 200, 50), Ok(()));
    let k = nft_market::types::make_pair_key(A, 1);
    assert_eq!(market.auctions.get(&k).unwrap().auction.start_price, 200);
}

#[test]
fn retract_returns_the_escrow_and_promotes_the_next_bid() {
    let (mut market, key) = market_with_auction(100);
    market.deposit_free(B, 1_000).unwrap();
    market.deposit_free(C, 1_000).unwrap();
    market.bid(B, key, 150, 20).unwrap();
    market.bid(C, key, 200, 30).unwrap();

    assert_eq!(market.retract(B, key, 30), Err(Error::TopBidRequired));
    assert_eq!(market.retract(C, key, 99), Err(Error::TopBidRequired));
    market.retract(C, key, 30).unwrap();
    assert_eq!(market.ledger.reserved_balance(C), 0);
    assert_eq!(market.ledger.free_balance(C), 1_000);
    let k = nft_market::types::make_pair_key(A, 1);
    let st = market.auctions.get(&k).unwrap();
    // B's slot is promoted (B's escrow was already released on outbid:
    // the recorded bid survives, its money does not).
    assert_eq!(st.auction.highest_bid, 150);
    assert_eq!(st.auction.highest_bidder, B);
    assert_eq!(st.bids.len(), 1);
}

#[test]
fn retract_of_the_last_bid_resets_the_auction() {
    let (mut market, key) = market_with_auction(100);
    market.deposit_free(B, 1_000).unwrap();
    market.bid(B, key, 150, 20).unwrap();
    market.retract(B, key, 20).unwrap();
    assert_eq!(market.ledger.reserved_balance(B), 0);
    let k = nft_market::types::make_pair_key(A, 1);
    let st = market.auctions.get(&k).unwrap();
    assert_eq!(st.auction.highest_bid, 100);
    assert_eq!(st.auction.highest_bidder, A);
    assert_eq!(st.bids.len(), 0);
}

#[test]
fn confirm_requires_an_adequate_bid() {
    let (mut market, key) = market_with_auction(100);
    market.deposit_free(B, 1_000).unwrap();
    market.bid(B, key, 150, 20).unwrap();
    // Raising the start price above the recorded bid makes it inadequate.
    market.extend(A, key, 200, 50).unwrap();

    let free_a = market.ledger.free_balance(A);
    let free_b = market.ledger.free_balance(B);
    assert_eq!(market.confirm(A, key, 20), Err(Error::AuctionNotAssigned));
    // No ledger or catalog mutation took place.
    assert_eq!(market.ledger.free_balance(A), free_a);
    assert_eq!(market.ledger.free_balance(B), free_b);
    assert_eq!(market.ledger.reserved_balance(B), 150);
    let k = nft_market::types::make_pair_key(A, 1);
    assert!(market.auctions.get(&k).is_some());
    let owners = market.get_nft(0, 0).unwrap().owners.clone().unwrap();
    assert_eq!(owners, vec![Owners { total_supply: 10, address: A }]);

    assert_eq!(market.confirm(A, key, 99), Err(Error::AuctionNotAssigned));
    assert_eq!(market.confirm(B, key, 20), Err(Error::OwnerRequired));
}

#[test]
fn auction_end_to_end() {
    // Issuer A auctions 10 units of item (0, 1) at start price 100.
    let mut market = Market::new(1);
    market.do_create_collection(A, vec![1]).unwrap();
    market.mint_nft(A, 0, vec![6], 10, whole_share(A), 10, 0).unwrap(); // NFT 0, unused
    market.mint_nft(A, 0, vec![7], 10, whole_share(A), 10, 0).unwrap(); // NFT 1, auctioned
    market.deposit_free(A, 1_000).unwrap();
    market.buy_nft(A, 0, 1, 10).unwrap();
    market.create_auction(A, 0, 1, 100, 10, 0, 1).unwrap();
    let key = AuctionKey { issuer: A, nonce: 1 };

    // B bids 150 and leads.
    market.deposit_free(B, 1_000).unwrap();
    market.bid(B, key, 150, 20).unwrap();
    let k = nft_market::types::make_pair_key(A, 1);
    assert_eq!(market.auctions.get(&k).unwrap().auction.highest_bid, 150);

    // D's lower bid is rejected.
    market.deposit_free(D, 1_000).unwrap();
    assert_eq!(market.bid(D, key, 120, 40), Err(Error::PriceTooLow));

    // A confirms B's bid: the reserved 150 pays royalty 15 and fee 1 to
    // the issuer and 134 to the seller (both A here).
    let free_a = market.ledger.free_balance(A);
    market.confirm(A, key, 20).unwrap();
    assert_eq!(market.ledger.free_balance(B), 850);
    assert_eq!(market.ledger.reserved_balance(B), 0);
    assert_eq!(market.ledger.free_balance(A), free_a + 150);
    assert_eq!(market.ledger.reserved_balance(A), 0);
    // B holds the whole quantity; A's record is gone.
    let owners = market.get_nft(0, 1).unwrap().owners.clone().unwrap();
    assert_eq!(owners, vec![Owners { total_supply: 10, address: B }]);
    // The auction and its bid slots are gone.
    assert!(market.auctions.get(&k).is_none());
    // The log ends with the sale and the confirmation.
    let n = market.events.len();
    assert_eq!(market.events[n - 1], Event::Confirmed { auction_key: key });
    assert_eq!(
        market.events[n - 2],
        Event::NFTSold { collection_id: 0, token_id: 1, price: 150, seller: A, buyer: B, royalty: 10 }
    );
}
