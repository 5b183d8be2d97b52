//! The auction state machine: opening an auction, bidding with currency
//! escrow, extending the start price, retracting a bid and confirming the
//! sale, together with the escrow-conservation invariant they maintain.

use vstd::prelude::*;

use crate::catalog::nft_auction_permission;
use crate::settlement::{sold_nft_core, spec_sell_nft};
use crate::errors::Error;
use crate::ledger::{account_of, free_of, reserved_of, spec_unreserve, AccountState};
use crate::market::{
    bids_wf, eq_albums, eq_collections, eq_config, eq_ledger, eq_likes, eq_marketplaces, eq_nfts,
    eq_user_indexes, same_state, Market,
};
use crate::types::{
    make_pair_key, pair_key, AccountId, AuctionKey, AuctionState, Balance, BidSlot, Event, HashId,
    NFTAuction,
};

verus! {

/// Whether `i` is the first index of a slot with this hash.
pub open spec fn is_first_slot_index(s: Seq<BidSlot>, hash: HashId, i: int) -> bool {
    &&& 0 <= i < s.len()
    &&& s[i].hash == hash
    &&& forall|j: int| 0 <= j < i ==> s[j].hash != hash
}

/// The index of the bid slot recorded under `hash`, if any. Well-formed
/// auctions never carry two slots with one hash, so this is the only one.
pub open spec fn slot_lookup(s: Seq<BidSlot>, hash: HashId) -> Option<int> {
    if exists|i: int| is_first_slot_index(s, hash, i) {
        Some(choose|i: int| is_first_slot_index(s, hash, i))
    } else {
        Option::None
    }
}

/// The bid slot recorded under `hash`, if any.
pub open spec fn slot_at(s: Seq<BidSlot>, hash: HashId) -> Option<BidSlot> {
    match slot_lookup(s, hash) {
        Some(i) => Some(s[i]),
        Option::None => Option::None,
    }
}

/// A witness for the first slot index pins down `slot_lookup`.
proof fn lemma_slot_lookup_some(s: Seq<BidSlot>, hash: HashId, i: int)
    requires
        is_first_slot_index(s, hash, i),
    ensures
        slot_lookup(s, hash) == Some(i),
{
    let w = choose|k: int| is_first_slot_index(s, hash, k);
    if w < i {
        assert(s[w].hash != hash);
    }
    if i < w {
        assert(s[i].hash != hash);
    }
}

/// Finds the bid slot recorded under `hash`.
fn find_slot(bids: &Vec<BidSlot>, hash: HashId) -> (r: Option<usize>)
    ensures
        match r {
            Some(i) => slot_lookup(bids@, hash) == Some(i as int),
            Option::None => slot_lookup(bids@, hash) is None && forall|j: int|
                0 <= j < bids@.len() ==> bids@[j].hash != hash,
        },
{
    let mut k: usize = 0;
    while k < bids.len()
        invariant
            0 <= k <= bids@.len(),
            forall|j: int| 0 <= j < k ==> bids@[j].hash != hash,
        decreases bids@.len() - k,
    {
        if bids[k].hash == hash {
            proof {
                lemma_slot_lookup_some(bids@, hash, k as int);
            }
            return Some(k);
        }
        k += 1;
    }
    Option::None
}

/// Whether `j` is the earliest slot carrying the maximum price of `s`: the
/// deterministic tie-break when a retraction promotes a new leader.
pub open spec fn is_first_max_slot(s: Seq<BidSlot>, j: int) -> bool {
    &&& 0 <= j < s.len()
    &&& forall|t: int| 0 <= t < s.len() ==> (#[trigger] s[t]).price <= s[j].price
    &&& forall|t: int| 0 <= t < j ==> (#[trigger] s[t]).price < s[j].price
}

/// What [`Market::create_auction`] rejects, in the order the checks run:
/// the issuer must pass the auction-listing permission check for the item,
/// and no auction may already stand under `(issuer, nonce)`.
pub open spec fn create_auction_check(
    a: Market,
    issuer: AccountId,
    cid: u64,
    nid: u64,
    total_supply: u64,
    nonce: u64,
) -> Result<(), Error> {
    match nft_auction_permission(a, issuer, cid, nid, total_supply) {
        Err(e) => Err(e),
        Ok(()) => if a.auctions@.contains_key(pair_key(issuer, nonce)) {
            Err(Error::InvalidNextAuctionId)
        } else {
            Ok(())
        },
    }
}

/// The state change of a successful auction creation: the auction stands
/// under `(issuer, nonce)` with no bids, the issuer as placeholder leader
/// at the start price, and `AuctionCreated` logged.
pub open spec fn created_auction_post(
    a: Market,
    b: Market,
    issuer: AccountId,
    cid: u64,
    nid: u64,
    start_price: Balance,
    total_supply: u64,
    deposit: Balance,
    nonce: u64,
) -> bool {
    let k = pair_key(issuer, nonce);
    &&& b.auctions@.contains_key(k)
    &&& b.auctions@[k].auction == (NFTAuction {
        collection_id: cid,
        nft_id: nid,
        issuer,
        start_price,
        highest_bid: start_price,
        total_supply,
        highest_bidder: issuer,
        deposit,
    })
    &&& b.auctions@[k].bids@ == Seq::<BidSlot>::empty()
    &&& b.auctions@.remove(k) == a.auctions@.remove(k)
    &&& b.events@ == a.events@.push(
        Event::AuctionCreated { auction_key: AuctionKey { issuer, nonce }, start_price },
    )
    &&& eq_ledger(a, b)
    &&& eq_config(a, b)
    &&& eq_collections(a, b)
    &&& eq_nfts(a, b)
    &&& eq_albums(a, b)
    &&& eq_user_indexes(a, b)
    &&& eq_likes(a, b)
    &&& eq_marketplaces(a, b)
}

/// What [`Market::extend`] rejects, in the order the checks run: the
/// auction must exist, only its issuer may extend it, and a recorded bid
/// under `hash` priced above the new start price blocks the change.
pub open spec fn extend_check(
    a: Market,
    owner: AccountId,
    key: AuctionKey,
    new_price: Balance,
    hash: HashId,
) -> Result<(), Error> {
    let k = pair_key(key.issuer, key.nonce);
    if !a.auctions@.contains_key(k) {
        Err(Error::AuctionKeyNotFound)
    } else if owner != key.issuer {
        Err(Error::OwnerRequired)
    } else {
        match slot_at(a.auctions@[k].bids@, hash) {
            Some(s) => if s.price > new_price {
                Err(Error::AuctionAssigned)
            } else {
                Ok(())
            },
            Option::None => Ok(()),
        }
    }
}

impl Market {
    /// Opens an auction for `total_supply` units of an NFT. The issuer
    /// must hold that much of the item; the fresh account nonce that keys
    /// the auction comes from the caller, since only the surrounding
    /// chain knows the issuer's nonce.
    pub fn create_auction(
        &mut self,
        issuer: AccountId,
        collection_id: u64,
        nft_id: u64,
        start_price: Balance,
        total_supply: u64,
        deposit: Balance,
        nonce: u64,
    ) -> (r: Result<(), Error>)
        requires
            old(self).wf(),
        ensures
            final(self).wf(),
            match create_auction_check(
                *old(self),
                issuer,
                collection_id,
                nft_id,
                total_supply,
                nonce,
            ) {
                Err(e) => r == Err::<(), Error>(e) && same_state(*old(self), *final(self)),
                Ok(()) => r is Ok && created_auction_post(
                    *old(self),
                    *final(self),
                    issuer,
                    collection_id,
                    nft_id,
                    start_price,
                    total_supply,
                    deposit,
                    nonce,
                ),
            },
            (sole_auction_escrow(*old(self)) && (forall|kk: u128|
                !old(self).auctions@.contains_key(kk))) ==> sole_auction_escrow(*final(self)),
    {
        match self.has_permission_add_nft_in_auction(issuer, collection_id, nft_id, total_supply) {
            Ok(()) => {},
            Err(e) => {
                return Err(e);
            },
        }
        let k = make_pair_key(issuer, nonce);
        if self.auctions.contains_key(&k) {
            return Err(Error::InvalidNextAuctionId);
        }
        let st = AuctionState {
            auction: NFTAuction {
                collection_id,
                nft_id,
                issuer,
                start_price,
                highest_bid: start_price,
                total_supply,
                highest_bidder: issuer,
                deposit,
            },
            bids: Vec::new(),
        };
        self.auctions.insert(k, st);
        self.events.push(
            Event::AuctionCreated { auction_key: AuctionKey { issuer, nonce }, start_price },
        );
        proof {
            let kk = pair_key(issuer, nonce);
            assert(self.auctions@.remove(kk) =~= old(self).auctions@.remove(kk));
            if sole_auction_escrow(*old(self)) && (forall|x: u128|
                !old(self).auctions@.contains_key(x)) {
                assert forall|x1: u128, x2: u128|
                    #[trigger] self.auctions@.contains_key(x1)
                        && #[trigger] self.auctions@.contains_key(x2) implies x1 == x2 by {
                    if x1 != kk {
                        assert(self.auctions@.remove(kk).contains_key(x1));
                    }
                    if x2 != kk {
                        assert(self.auctions@.remove(kk).contains_key(x2));
                    }
                }
                assert(kk == pair_key(self.auctions@[kk].auction.issuer, nonce));
            }
        }
        Ok(())
    }

    /// Raises (or rewrites) an auction's start price; only the issuer
    /// may, and only when no recorded bid under `hash` already clears the
    /// old threshold above the new price. The highest bid is untouched.
    pub fn extend(
        &mut self,
        owner: AccountId,
        auction_key: AuctionKey,
        new_price: Balance,
        hash: HashId,
    ) -> (r: Result<(), Error>)
        requires
            old(self).wf(),
        ensures
            final(self).wf(),
            match extend_check(*old(self), owner, auction_key, new_price, hash) {
                Err(e) => r == Err::<(), Error>(e) && same_state(*old(self), *final(self)),
                Ok(()) => {
                    let k = pair_key(auction_key.issuer, auction_key.nonce);
                    let st0 = old(self).auctions@[k];
                    let st1 = final(self).auctions@[k];
                    &&& r is Ok
                    &&& final(self).auctions@.contains_key(k)
                    &&& st1.auction == (NFTAuction { start_price: new_price, ..st0.auction })
                    &&& st1.bids@ == st0.bids@
                    &&& final(self).auctions@.remove(k) == old(self).auctions@.remove(k)
                    &&& eq_ledger(*old(self), *final(self))
                    &&& eq_config(*old(self), *final(self))
                    &&& eq_collections(*old(self), *final(self))
                    &&& eq_nfts(*old(self), *final(self))
                    &&& eq_albums(*old(self), *final(self))
                    &&& eq_user_indexes(*old(self), *final(self))
                    &&& eq_likes(*old(self), *final(self))
                    &&& eq_marketplaces(*old(self), *final(self))
                    &&& final(self).events@ == old(self).events@
                },
            },
    {
        let k = make_pair_key(auction_key.issuer, auction_key.nonce);
        let mut st = match self.auctions.remove(&k) {
            Some(st) => st,
            None => {
                proof {
                    assert(self.auctions@ =~= old(self).auctions@);
                }
                return Err(Error::AuctionKeyNotFound);
            },
        };
        if owner != auction_key.issuer {
            self.auctions.insert(k, st);
            proof {
                assert(self.auctions@ =~= old(self).auctions@);
            }
            return Err(Error::OwnerRequired);
        }
        match find_slot(&st.bids, hash) {
            Some(i) => {
                if st.bids[i].price > new_price {
                    self.auctions.insert(k, st);
                    proof {
                        assert(self.auctions@ =~= old(self).auctions@);
                    }
                    return Err(Error::AuctionAssigned);
                }
            },
            None => {},
        }
        st.auction.start_price = new_price;
        self.auctions.insert(k, st);
        proof {
            assert(self.auctions@.remove(pair_key(auction_key.issuer, auction_key.nonce)) =~= old(
                self,
            ).auctions@.remove(pair_key(auction_key.issuer, auction_key.nonce)));
        }
        Ok(())
    }

    /// Places a bid: the bidder's whole `price` goes into escrow, the
    /// previous holder of the bid slot and the previous leader get their
    /// escrows back, and the bidder becomes the leader. The bid must beat
    /// both the current highest bid and whatever the slot last recorded.
    pub fn bid(
        &mut self,
        bidder: AccountId,
        auction_key: AuctionKey,
        price: Balance,
        hash: HashId,
    ) -> (r: Result<(), Error>)
        requires
            old(self).wf(),
        ensures
            final(self).wf(),
            match bid_check(*old(self), bidder, auction_key, price, hash) {
                Err(e) => r == Err::<(), Error>(e) && same_state(*old(self), *final(self)),
                Ok(()) => r is Ok && bid_post(
                    *old(self),
                    *final(self),
                    bidder,
                    auction_key,
                    price,
                    hash,
                ),
            },
            sole_auction_escrow(*old(self)) ==> sole_auction_escrow(*final(self)),
    {
        let k = make_pair_key(auction_key.issuer, auction_key.nonce);
        if self.ledger.free_balance(bidder) < price {
            return Err(Error::InsufficientBalance);
        }
        let mut st = match self.auctions.remove(&k) {
            Some(st) => st,
            None => {
                proof {
                    assert(self.auctions@ =~= old(self).auctions@);
                }
                return Err(Error::AuctionKeyNotFound);
            },
        };
        if bidder == auction_key.issuer {
            self.auctions.insert(k, st);
            proof {
                assert(self.auctions@ =~= old(self).auctions@);
            }
            return Err(Error::OriginProhibited);
        }
        if price <= st.auction.highest_bid {
            self.auctions.insert(k, st);
            proof {
                assert(self.auctions@ =~= old(self).auctions@);
            }
            return Err(Error::PriceTooLow);
        }
        match find_slot(&st.bids, hash) {
            Some(i) => {
                let prev = st.bids[i];
                if price <= prev.price {
                    self.auctions.insert(k, st);
                    proof {
                        assert(self.auctions@ =~= old(self).auctions@);
                    }
                    return Err(Error::AuctionAssigned);
                }
                self.ledger.unreserve(prev.bidder, prev.price);
                st.bids[i] = BidSlot { hash, bidder, price };
                proof {
                    assert(bids_wf(old(self).auctions@[k].bids@));
                    assert forall|x: int, y: int| 0 <= x < y < st.bids@.len() implies st.bids@[x].hash
                        != st.bids@[y].hash by {
                        assert(old(self).auctions@[k].bids@[i as int].hash == hash);
                    }
                }
            },
            None => {
                st.bids.push(BidSlot { hash, bidder, price });
                proof {
                    assert(bids_wf(old(self).auctions@[k].bids@));
                    assert forall|x: int, y: int| 0 <= x < y < st.bids@.len() implies st.bids@[x].hash
                        != st.bids@[y].hash by {
                        if y == st.bids@.len() - 1 {
                            assert(old(self).auctions@[k].bids@[x].hash != hash);
                        }
                    }
                }
            },
        }
        if st.auction.highest_bid > 0 {
            self.ledger.unreserve(st.auction.highest_bidder, st.auction.highest_bid);
        }
        match self.ledger.reserve(bidder, price) {
            Ok(()) => {},
            Err(_) => {
                proof {
                    assert(false);
                }
                return Err(Error::InsufficientBalance);
            },
        }
        st.auction.highest_bid = price;
        st.auction.highest_bidder = bidder;
        self.auctions.insert(k, st);
        self.events.push(Event::Bid { auction_key, bidder, price, hash });
        proof {
            let kk = pair_key(auction_key.issuer, auction_key.nonce);
            assert(self.auctions@.remove(kk) =~= old(self).auctions@.remove(kk));
            if sole_auction_escrow(*old(self)) {
                let st0 = old(self).auctions@[kk];
                assert(auction_escrow_ok(st0, old(self).ledger@));
                let n = choose|n: u64| kk == pair_key(st0.auction.issuer, n);
                crate::types::lemma_pair_key_injective(
                    st0.auction.issuer,
                    n,
                    auction_key.issuer,
                    auction_key.nonce,
                );
                lemma_bid_escrow(
                    old(self).ledger@,
                    st0,
                    self.auctions@[kk],
                    bidder,
                    price,
                    hash,
                    self.ledger@,
                );
                assert forall|x1: u128, x2: u128|
                    #[trigger] self.auctions@.contains_key(x1) && #[trigger] self.auctions@.contains_key(x2)
                        implies x1 == x2 by {
                    if x1 != kk {
                        assert(self.auctions@.remove(kk).contains_key(x1));
                        assert(old(self).auctions@.contains_key(x1));
                    }
                    if x2 != kk {
                        assert(self.auctions@.remove(kk).contains_key(x2));
                        assert(old(self).auctions@.contains_key(x2));
                    }
                }
                assert(self.auctions@[kk].auction.issuer == st0.auction.issuer);
                assert(kk == pair_key(self.auctions@[kk].auction.issuer, n));
            }
        }
        Ok(())
    }
}


/// Escrow accounting of one auction against the ledger: only the current
/// leader has money in escrow, exactly the highest bid, and the leader's
/// bid is recorded in some slot at exactly that price. Before any bid
/// (leader still the issuer) nothing at all is in escrow.
pub open spec fn auction_escrow_ok(st: AuctionState, lm: Map<AccountId, AccountState>) -> bool {
    let au = st.auction;
    if au.highest_bidder != au.issuer {
        &&& reserved_of(lm, au.highest_bidder) == au.highest_bid
        &&& exists|i: int|
            0 <= i < st.bids@.len() && (#[trigger] st.bids@[i]).bidder == au.highest_bidder
                && st.bids@[i].price == au.highest_bid
        &&& forall|acct: AccountId|
            acct != au.highest_bidder ==> #[trigger] reserved_of(lm, acct) == 0
    } else {
        forall|acct: AccountId| #[trigger] reserved_of(lm, acct) == 0
    }
}

/// The escrow-conservation invariant for a market running one auction:
/// at most one auction is open, it stands under its issuer's key, its
/// escrow matches [`auction_escrow_ok`], and with no auction open nothing
/// is in escrow at all. `create_auction` establishes it on a fresh
/// market, `bid` and `confirm` preserve it, and so does `retract` while
/// it does not promote an already-released slot (see the operations'
/// contracts).
pub open spec fn sole_auction_escrow(m: Market) -> bool {
    &&& forall|k1: u128, k2: u128|
        #[trigger] m.auctions@.contains_key(k1) && #[trigger] m.auctions@.contains_key(k2)
            ==> k1 == k2
    &&& forall|k: u128| #[trigger]
        m.auctions@.contains_key(k) ==> auction_escrow_ok(m.auctions@[k], m.ledger@)
    &&& forall|k: u128| #[trigger]
        m.auctions@.contains_key(k) ==> (exists|n: u64|
            k == pair_key(m.auctions@[k].auction.issuer, n))
    &&& ((forall|k: u128| !m.auctions@.contains_key(k)) ==> (forall|acct: AccountId|
        reserved_of(m.ledger@, acct) == 0))
}

/// A bid moves the whole escrow to the new leader: under
/// [`auction_escrow_ok`], releasing the previous slot's escrow and the
/// previous leader's escrow and then reserving the new price leaves
/// exactly the new bidder's price in escrow, recorded in the updated
/// slot.
proof fn lemma_bid_escrow(
    L0: Map<AccountId, AccountState>,
    st0: AuctionState,
    st1: AuctionState,
    bidder: AccountId,
    price: Balance,
    hash: HashId,
    L1: Map<AccountId, AccountState>,
)
    requires
        auction_escrow_ok(st0, L0),
        L1 == spec_bid_ledger(L0, slot_at(st0.bids@, hash), st0.auction, bidder, price),
        bidder != st0.auction.issuer,
        price > 0,
        st1.auction == (NFTAuction {
            highest_bid: price,
            highest_bidder: bidder,
            ..st0.auction
        }),
        match slot_lookup(st0.bids@, hash) {
            Some(i) => st1.bids@ == st0.bids@.update(i, BidSlot { hash, bidder, price }),
            Option::None => st1.bids@ == st0.bids@.push(BidSlot { hash, bidder, price }),
        },
    ensures
        auction_escrow_ok(st1, L1),
{
    let au0 = st0.auction;
    let prev = slot_at(st0.bids@, hash);
    let m1 = match prev {
        Some(s) => spec_unreserve(L0, s.bidder, s.price),
        Option::None => L0,
    };
    let m2 = if au0.highest_bid > 0 {
        spec_unreserve(m1, au0.highest_bidder, au0.highest_bid)
    } else {
        m1
    };
    assert forall|acct: AccountId| reserved_of(m2, acct) == 0 by {
        if au0.highest_bidder != au0.issuer {
            assert(reserved_of(L0, au0.highest_bidder) == au0.highest_bid);
            if acct != au0.highest_bidder {
                assert(reserved_of(L0, acct) == 0);
            }
        } else {
            assert(reserved_of(L0, acct) == 0);
            assert(reserved_of(L0, au0.highest_bidder) == 0);
            match prev {
                Some(s) => {
                    assert(reserved_of(L0, s.bidder) == 0);
                },
                Option::None => {},
            }
        }
    }
    assert(reserved_of(m2, bidder) == 0);
    assert(account_of(m2, bidder).reserved == 0);
    assert(L1 == m2.insert(
        bidder,
        AccountState {
            free: (account_of(m2, bidder).free - price) as u64,
            reserved: (account_of(m2, bidder).reserved + price) as u64,
        },
    ));
    assert(reserved_of(L1, bidder) == price);
    assert forall|acct: AccountId| acct != bidder implies #[trigger] reserved_of(L1, acct)
        == 0 by {
        assert(reserved_of(L1, acct) == reserved_of(m2, acct));
    }
    match slot_lookup(st0.bids@, hash) {
        Some(i) => {
            assert(st1.bids@[i].bidder == bidder && st1.bids@[i].price == price);
        },
        Option::None => {
            let j = st1.bids@.len() - 1;
            assert(st1.bids@[j].bidder == bidder && st1.bids@[j].price == price);
        },
    }
}


/// A successful transfer moves free balance only: every account's
/// reserved balance is untouched.
proof fn lemma_transfer_preserves_reserved(
    m: Map<AccountId, AccountState>,
    min_balance: u64,
    from: AccountId,
    to: AccountId,
    amount: u64,
    req: crate::ledger::ExistenceRequirement,
)
    ensures
        match crate::ledger::spec_transfer(m, min_balance, from, to, amount, req) {
            Ok(m2) => forall|x: AccountId| #[trigger]
                reserved_of(m2, x) == reserved_of(m, x),
            Err(_) => true,
        },
{
}

/// A successful sale settlement leaves every reserved balance exactly
/// where the two opening escrow releases left it: the transfers move
/// free balance only.
proof fn lemma_sell_ledger_reserved(
    m: Map<AccountId, AccountState>,
    min_balance: u64,
    buyer: AccountId,
    seller: AccountId,
    issuer: AccountId,
    price: u64,
    auction_start_price: u64,
    royalty: u64,
    royalty_fee: u64,
)
    ensures
        match crate::settlement::spec_sell_ledger(
            m,
            min_balance,
            buyer,
            seller,
            issuer,
            price,
            auction_start_price,
            royalty,
            royalty_fee,
        ) {
            Ok(m2) => forall|x: AccountId| #[trigger]
                reserved_of(m2, x) == reserved_of(
                    spec_unreserve(spec_unreserve(m, buyer, price), seller, auction_start_price),
                    x,
                ),
            Err(_) => true,
        },
{
    let m1 = spec_unreserve(m, buyer, price);
    let m2 = spec_unreserve(m1, seller, auction_start_price);
    match crate::calc::spec_royalty_and_fee(royalty, price, royalty_fee) {
        Ok(rf) => {
            let ra = rf.0;
            let fa = rf.1;
            if ra + fa <= u64::MAX && price >= ra + fa {
                let req = crate::ledger::ExistenceRequirement::KeepAlive;
                lemma_transfer_preserves_reserved(m2, min_balance, buyer, issuer, ra, req);
                match crate::ledger::spec_transfer(m2, min_balance, buyer, issuer, ra, req) {
                    Ok(m3) => {
                        lemma_transfer_preserves_reserved(m3, min_balance, buyer, issuer, fa, req);
                        match crate::ledger::spec_transfer(m3, min_balance, buyer, issuer, fa, req) {
                            Ok(m4) => {
                                lemma_transfer_preserves_reserved(
                                    m4,
                                    min_balance,
                                    buyer,
                                    seller,
                                    (price - ra - fa) as u64,
                                    req,
                                );
                            },
                            Err(_) => {},
                        }
                    },
                    Err(_) => {},
                }
            }
        },
        Err(_) => {},
    }
}

/// What [`Market::bid`] rejects, in the order the checks run: the bidder
/// must be able to cover the whole price from free balance, the auction
/// must exist, the issuer may not bid, the price must beat the current
/// highest bid, and it must beat whatever the bid slot last recorded.
pub open spec fn bid_check(
    a: Market,
    bidder: AccountId,
    key: AuctionKey,
    price: Balance,
    hash: HashId,
) -> Result<(), Error> {
    let k = pair_key(key.issuer, key.nonce);
    if free_of(a.ledger@, bidder) < price {
        Err(Error::InsufficientBalance)
    } else if !a.auctions@.contains_key(k) {
        Err(Error::AuctionKeyNotFound)
    } else if bidder == key.issuer {
        Err(Error::OriginProhibited)
    } else if price <= a.auctions@[k].auction.highest_bid {
        Err(Error::PriceTooLow)
    } else {
        match slot_at(a.auctions@[k].bids@, hash) {
            Some(s) => if price <= s.price {
                Err(Error::AuctionAssigned)
            } else {
                Ok(())
            },
            Option::None => Ok(()),
        }
    }
}

/// The leader fields after one accepted bid: the offered price becomes
/// the highest bid and the bidder the leader; everything else is kept.
pub open spec fn leader_after_bid(au: NFTAuction, bidder: AccountId, price: Balance) -> NFTAuction {
    NFTAuction { highest_bid: price, highest_bidder: bidder, ..au }
}

/// The ledger after a successful bid: the previous slot holder's recorded
/// escrow and the previous leader's escrow are released (releases beyond
/// what is actually reserved release only what is there), then the whole
/// new price moves from the bidder's free balance into escrow.
pub open spec fn spec_bid_ledger(
    m: Map<AccountId, AccountState>,
    prev: Option<BidSlot>,
    au: NFTAuction,
    bidder: AccountId,
    price: Balance,
) -> Map<AccountId, AccountState> {
    let m1 = match prev {
        Some(s) => spec_unreserve(m, s.bidder, s.price),
        Option::None => m,
    };
    let m2 = if au.highest_bid > 0 {
        spec_unreserve(m1, au.highest_bidder, au.highest_bid)
    } else {
        m1
    };
    let acct = account_of(m2, bidder);
    m2.insert(
        bidder,
        AccountState {
            free: (acct.free - price) as u64,
            reserved: (acct.reserved + price) as u64,
        },
    )
}

/// The state change of a successful bid: the slot under `hash` records
/// `(bidder, price)` (updated in place, or appended as a fresh slot), the
/// auction's leader becomes `(bidder, price)`, the ledger moves as
/// [`spec_bid_ledger`] says, and `Bid` is logged.
pub open spec fn bid_post(
    a: Market,
    b: Market,
    bidder: AccountId,
    key: AuctionKey,
    price: Balance,
    hash: HashId,
) -> bool {
    let k = pair_key(key.issuer, key.nonce);
    let st0 = a.auctions@[k];
    let st1 = b.auctions@[k];
    &&& b.auctions@.contains_key(k)
    &&& st1.auction == leader_after_bid(st0.auction, bidder, price)
    &&& match slot_lookup(st0.bids@, hash) {
        Some(i) => st1.bids@ == st0.bids@.update(i, BidSlot { hash, bidder, price }),
        Option::None => st1.bids@ == st0.bids@.push(BidSlot { hash, bidder, price }),
    }
    &&& b.auctions@.remove(k) == a.auctions@.remove(k)
    &&& b.ledger@ == spec_bid_ledger(a.ledger@, slot_at(st0.bids@, hash), st0.auction, bidder, price)
    &&& b.ledger.min_balance == a.ledger.min_balance
    &&& b.events@ == a.events@.push(Event::Bid { auction_key: key, bidder, price, hash })
    &&& eq_config(a, b)
    &&& eq_collections(a, b)
    &&& eq_nfts(a, b)
    &&& eq_albums(a, b)
    &&& eq_user_indexes(a, b)
    &&& eq_likes(a, b)
    &&& eq_marketplaces(a, b)
}


/// What [`Market::retract`] rejects, in the order the checks run: the
/// auction must exist, a bid slot must stand under `hash`, and only the
/// bidder that slot records may retract it.
pub open spec fn retract_check(
    a: Market,
    bidder: AccountId,
    key: AuctionKey,
    hash: HashId,
) -> Result<(), Error> {
    let k = pair_key(key.issuer, key.nonce);
    if !a.auctions@.contains_key(k) {
        Err(Error::AuctionKeyNotFound)
    } else {
        match slot_at(a.auctions@[k].bids@, hash) {
            Option::None => Err(Error::TopBidRequired),
            Some(s) => if s.bidder != bidder {
                Err(Error::TopBidRequired)
            } else {
                Ok(())
            },
        }
    }
}

/// The state change of a successful retraction: the slot's escrow is
/// released and the slot removed; the earliest remaining slot with the
/// highest price becomes the leader, or the auction falls back to the
/// issuer at the start price when no slot remains. `Retracted` is logged.
pub open spec fn retracted_post(
    a: Market,
    b: Market,
    bidder: AccountId,
    key: AuctionKey,
    hash: HashId,
) -> bool {
    let k = pair_key(key.issuer, key.nonce);
    let st0 = a.auctions@[k];
    let st1 = b.auctions@[k];
    match slot_lookup(st0.bids@, hash) {
        Option::None => false,
        Some(i) => {
            let s = st0.bids@[i];
            let remaining = st0.bids@.remove(i);
            &&& b.auctions@.contains_key(k)
            &&& st1.bids@ == remaining
            &&& if remaining.len() == 0 {
                st1.auction == (NFTAuction {
                    highest_bid: st0.auction.start_price,
                    highest_bidder: st0.auction.issuer,
                    ..st0.auction
                })
            } else {
                exists|j: int| #[trigger]
                    is_first_max_slot(remaining, j) && st1.auction == (NFTAuction {
                        highest_bid: remaining[j].price,
                        highest_bidder: remaining[j].bidder,
                        ..st0.auction
                    })
            }
            &&& b.auctions@.remove(k) == a.auctions@.remove(k)
            &&& b.ledger@ == spec_unreserve(a.ledger@, bidder, s.price)
            &&& b.ledger.min_balance == a.ledger.min_balance
            &&& b.events@ == a.events@.push(
                Event::Retracted { auction_key: key, bidder, price: s.price },
            )
            &&& eq_config(a, b)
            &&& eq_collections(a, b)
            &&& eq_nfts(a, b)
            &&& eq_albums(a, b)
            &&& eq_user_indexes(a, b)
            &&& eq_likes(a, b)
            &&& eq_marketplaces(a, b)
        },
    }
}

/// Why [`Market::confirm`] fails, or the ledger it commits: the auction
/// must exist, only its issuer may confirm, the bid slot under `hash`
/// must exist and clear the start price, and the settlement of
/// [`spec_sell_nft`] must go through at the slot's price.
pub open spec fn confirm_check(
    a: Market,
    owner: AccountId,
    key: AuctionKey,
    hash: HashId,
) -> Result<Map<AccountId, AccountState>, Error> {
    let k = pair_key(key.issuer, key.nonce);
    if !a.auctions@.contains_key(k) {
        Err(Error::AuctionKeyNotFound)
    } else if owner != key.issuer {
        Err(Error::OwnerRequired)
    } else {
        let au = a.auctions@[k].auction;
        match slot_at(a.auctions@[k].bids@, hash) {
            Option::None => Err(Error::AuctionNotAssigned),
            Some(s) => if s.price < au.start_price {
                Err(Error::AuctionNotAssigned)
            } else {
                spec_sell_nft(
                    a,
                    owner,
                    s.bidder,
                    au.collection_id,
                    au.nft_id,
                    s.price,
                    au.start_price,
                    au.total_supply,
                )
            },
        }
    }
}

/// The state change of a successful confirmation: the sale settles as
/// [`sold_nft_core`] describes at the slot's price, the auction and all
/// its bid slots are dropped, and `NFTSold` then `Confirmed` are logged.
pub open spec fn confirmed_post(
    a: Market,
    b: Market,
    owner: AccountId,
    key: AuctionKey,
    hash: HashId,
) -> bool {
    let k = pair_key(key.issuer, key.nonce);
    let st0 = a.auctions@[k];
    let au = st0.auction;
    match slot_at(st0.bids@, hash) {
        Option::None => false,
        Some(s) => {
            &&& sold_nft_core(
                a,
                b,
                owner,
                s.bidder,
                au.collection_id,
                au.nft_id,
                s.price,
                au.total_supply,
            )
            &&& b.auctions@ == a.auctions@.remove(k)
            &&& b.events@ == a.events@.push(
                Event::NFTSold {
                    collection_id: au.collection_id,
                    token_id: au.nft_id,
                    price: s.price,
                    seller: owner,
                    buyer: s.bidder,
                    royalty: a.nfts@[pair_key(au.collection_id, au.nft_id)].royalty,
                },
            ).push(Event::Confirmed { auction_key: key })
        },
    }
}

impl Market {
    /// Retracts the bid recorded under `hash`: releases that bidder's
    /// escrow, removes the slot, and promotes the earliest remaining slot
    /// with the highest price to leader (the issuer at the start price
    /// when none remains).
    pub fn retract(&mut self, bidder: AccountId, auction_key: AuctionKey, hash: HashId) -> (r:
        Result<(), Error>)
        requires
            old(self).wf(),
        ensures
            final(self).wf(),
            match retract_check(*old(self), bidder, auction_key, hash) {
                Err(e) => r == Err::<(), Error>(e) && same_state(*old(self), *final(self)),
                Ok(()) => r is Ok && retracted_post(
                    *old(self),
                    *final(self),
                    bidder,
                    auction_key,
                    hash,
                ),
            },
            (sole_auction_escrow(*old(self)) && (r is Err || old(self).auctions@[pair_key(
                auction_key.issuer,
                auction_key.nonce,
            )].bids@.len() <= 1)) ==> sole_auction_escrow(*final(self)),
    {
        let k = make_pair_key(auction_key.issuer, auction_key.nonce);
        let mut st = match self.auctions.remove(&k) {
            Some(st) => st,
            None => {
                proof {
                    assert(self.auctions@ =~= old(self).auctions@);
                }
                return Err(Error::AuctionKeyNotFound);
            },
        };
        let i = match find_slot(&st.bids, hash) {
            Some(i) => i,
            None => {
                self.auctions.insert(k, st);
                proof {
                    assert(self.auctions@ =~= old(self).auctions@);
                }
                return Err(Error::TopBidRequired);
            },
        };
        let s = st.bids[i];
        if s.bidder != bidder {
            self.auctions.insert(k, st);
            proof {
                assert(self.auctions@ =~= old(self).auctions@);
            }
            return Err(Error::TopBidRequired);
        }
        self.ledger.unreserve(bidder, s.price);
        st.bids.remove(i);
        proof {
            assert(bids_wf(old(self).auctions@[k].bids@));
            assert forall|x: int, y: int| 0 <= x < y < st.bids@.len() implies st.bids@[x].hash
                != st.bids@[y].hash by {
                let bids0 = old(self).auctions@[k].bids@;
                let ox: int = if x < i { x } else { x + 1 };
                let oy: int = if y < i { y } else { y + 1 };
                assert(st.bids@[x] == bids0[ox]);
                assert(st.bids@[y] == bids0[oy]);
            }
        }
        if st.bids.len() == 0 {
            st.auction.highest_bid = st.auction.start_price;
            st.auction.highest_bidder = st.auction.issuer;
        } else {
            let mut best: usize = 0;
            let mut t: usize = 1;
            while t < st.bids.len()
                invariant
                    0 < st.bids@.len(),
                    0 <= best < t <= st.bids@.len(),
                    forall|u: int| 0 <= u < t ==> (#[trigger] st.bids@[u]).price <= st.bids@[
                        best as int
                    ].price,
                    forall|u: int| 0 <= u < best ==> (#[trigger] st.bids@[u]).price < st.bids@[
                        best as int
                    ].price,
                decreases st.bids@.len() - t,
            {
                if st.bids[t].price > st.bids[best].price {
                    best = t;
                }
                t += 1;
            }
            proof {
                assert(is_first_max_slot(st.bids@, best as int));
            }
            st.auction.highest_bid = st.bids[best].price;
            st.auction.highest_bidder = st.bids[best].bidder;
        }
        self.auctions.insert(k, st);
        self.events.push(Event::Retracted { auction_key, bidder, price: s.price });
        proof {
            let kk = pair_key(auction_key.issuer, auction_key.nonce);
            assert(self.auctions@.remove(kk) =~= old(self).auctions@.remove(kk));
            if sole_auction_escrow(*old(self)) && old(self).auctions@[kk].bids@.len() <= 1 {
                let st0 = old(self).auctions@[kk];
                let au0 = st0.auction;
                assert(auction_escrow_ok(st0, old(self).ledger@));
                assert(st0.bids@.len() == 1);
                assert forall|acct: AccountId| #[trigger]
                    reserved_of(self.ledger@, acct) == 0 by {
                    if au0.highest_bidder != au0.issuer {
                        let i = choose|i: int|
                            0 <= i < st0.bids@.len() && (#[trigger] st0.bids@[i]).bidder
                                == au0.highest_bidder && st0.bids@[i].price == au0.highest_bid;
                        assert(i == 0);
                        assert(s == st0.bids@[0]);
                        assert(s.bidder == au0.highest_bidder && s.price == au0.highest_bid);
                        if acct != au0.highest_bidder {
                            assert(reserved_of(old(self).ledger@, acct) == 0);
                        }
                    } else {
                        assert(reserved_of(old(self).ledger@, acct) == 0);
                        assert(reserved_of(old(self).ledger@, bidder) == 0);
                    }
                }
                assert forall|x1: u128, x2: u128|
                    #[trigger] self.auctions@.contains_key(x1)
                        && #[trigger] self.auctions@.contains_key(x2) implies x1 == x2 by {
                    if x1 != kk {
                        assert(self.auctions@.remove(kk).contains_key(x1));
                        assert(old(self).auctions@.contains_key(x1));
                    }
                    if x2 != kk {
                        assert(self.auctions@.remove(kk).contains_key(x2));
                        assert(old(self).auctions@.contains_key(x2));
                    }
                }
                let n = choose|n: u64| kk == pair_key(st0.auction.issuer, n);
                assert(kk == pair_key(self.auctions@[kk].auction.issuer, n));
                assert(self.auctions@[kk].auction.highest_bidder == self.auctions@[
                    kk
                ].auction.issuer);
            }
        }
        Ok(())
    }

    /// Confirms the auction at the bid recorded under `hash`: settles the
    /// sale from the issuer to that bidder at the slot's price via
    /// [`Market::sell_nft`], then drops the auction with all its bid
    /// slots. A failed settlement commits nothing.
    pub fn confirm(&mut self, owner: AccountId, auction_key: AuctionKey, hash: HashId) -> (r:
        Result<(), Error>)
        requires
            old(self).wf(),
        ensures
            final(self).wf(),
            match confirm_check(*old(self), owner, auction_key, hash) {
                Err(e) => r == Err::<(), Error>(e) && same_state(*old(self), *final(self)),
                Ok(m2) => r is Ok && final(self).ledger@ == m2 && confirmed_post(
                    *old(self),
                    *final(self),
                    owner,
                    auction_key,
                    hash,
                ),
            },
            (sole_auction_escrow(*old(self)) && (r is Err || (match slot_at(
                old(self).auctions@[pair_key(auction_key.issuer, auction_key.nonce)].bids@,
                hash,
            ) {
                Some(s) => s.bidder == old(self).auctions@[pair_key(
                    auction_key.issuer,
                    auction_key.nonce,
                )].auction.highest_bidder && s.price == old(self).auctions@[pair_key(
                    auction_key.issuer,
                    auction_key.nonce,
                )].auction.highest_bid,
                Option::None => false,
            }))) ==> sole_auction_escrow(*final(self)),
    {
        let k = make_pair_key(auction_key.issuer, auction_key.nonce);
        let au: NFTAuction;
        let slot: BidSlot;
        {
            let st = match self.auctions.get(&k) {
                Some(st) => st,
                None => {
                    return Err(Error::AuctionKeyNotFound);
                },
            };
            if owner != auction_key.issuer {
                return Err(Error::OwnerRequired);
            }
            let i = match find_slot(&st.bids, hash) {
                Some(i) => i,
                None => {
                    return Err(Error::AuctionNotAssigned);
                },
            };
            slot = st.bids[i];
            if slot.price < st.auction.start_price {
                return Err(Error::AuctionNotAssigned);
            }
            au = st.auction;
        }
        match self.sell_nft(
            owner,
            slot.bidder,
            au.collection_id,
            au.nft_id,
            slot.price,
            au.start_price,
            au.total_supply,
        ) {
            Ok(()) => {},
            Err(e) => {
                return Err(e);
            },
        }
        let ghost mid = *self;
        self.auctions.remove(&k);
        self.events.push(Event::Confirmed { auction_key });
        proof {
            let kk = pair_key(auction_key.issuer, auction_key.nonce);
            let st0 = old(self).auctions@[kk];
            let au0 = st0.auction;
            if sole_auction_escrow(*old(self)) && slot.bidder == au0.highest_bidder && slot.price
                == au0.highest_bid {
                assert(auction_escrow_ok(st0, old(self).ledger@));
                assert forall|x: u128| !(#[trigger] self.auctions@.contains_key(x)) by {
                    if x != kk && self.auctions@.contains_key(x) {
                        assert(old(self).auctions@.contains_key(x));
                        assert(old(self).auctions@.contains_key(kk));
                    }
                }
                lemma_sell_ledger_reserved(
                    old(self).ledger@,
                    old(self).ledger.min_balance,
                    slot.bidder,
                    owner,
                    old(self).nfts@[pair_key(au.collection_id, au.nft_id)].issuer,
                    slot.price,
                    au.start_price,
                    old(self).nfts@[pair_key(au.collection_id, au.nft_id)].royalty,
                    old(self).config.royalty_fee,
                );
                let mu = spec_unreserve(
                    spec_unreserve(old(self).ledger@, slot.bidder, slot.price),
                    owner,
                    au.start_price,
                );
                assert forall|acct: AccountId| #[trigger] reserved_of(self.ledger@, acct) == 0 by {
                    if au0.highest_bidder != au0.issuer {
                        if acct != au0.highest_bidder {
                            assert(reserved_of(old(self).ledger@, acct) == 0);
                        }
                    } else {
                        assert(reserved_of(old(self).ledger@, acct) == 0);
                        assert(reserved_of(old(self).ledger@, slot.bidder) == 0);
                        assert(reserved_of(old(self).ledger@, owner) == 0);
                    }
                    assert(reserved_of(self.ledger@, acct) == reserved_of(mu, acct));
                }
            }
        }
        Ok(())
    }
}

} // verus!
