//! Collections and NFTs: creation, minting, updating, burning, likes,
//! personal bought-item indexes and the auction-listing permission check.

use vstd::prelude::*;

use crate::errors::Error;
use crate::market::{
    eq_albums, eq_auctions, eq_collections, eq_config, eq_ledger, eq_likes, eq_marketplaces,
    eq_events, eq_nfts, eq_user_indexes, same_state, Market,
};
use crate::owners::{check_owner_has_enough_supply, spec_has_holding};
use crate::types::{
    copy_vec, find_pair, pair_key, pair_lookup, make_pair_key, AccountId, Collection, CollectionId,
    Event, NFTId, Owners, ShareProfitsInfo, NFT,
};

verus! {

/// The next id the per-collection counter map would allocate: the stored
/// counter, or zero when the collection has never allocated one.
pub open spec fn next_id_of(m: Map<CollectionId, u64>, cid: CollectionId) -> u64 {
    if m.contains_key(cid) {
        m[cid]
    } else {
        0
    }
}

/// A user's entry in a keyed list store, the empty sequence when absent.
pub open spec fn index_list_of(
    m: Map<AccountId, Vec<(CollectionId, NFTId)>>,
    who: AccountId,
) -> Seq<(CollectionId, NFTId)> {
    if m.contains_key(who) {
        m[who]@
    } else {
        Seq::empty()
    }
}

/// An artist's list of created collections, the empty sequence when absent.
pub open spec fn artist_list_of(m: Map<AccountId, Vec<Collection>>, who: AccountId) -> Seq<
    Collection,
> {
    if m.contains_key(who) {
        m[who]@
    } else {
        Seq::empty()
    }
}

/// Whether a stored collection has exactly these fields.
pub open spec fn collection_is(
    c: Collection,
    cid: CollectionId,
    metadata: Seq<u8>,
    issuer: AccountId,
) -> bool {
    c.collection_id == cid && c.metadata@ == metadata && c.issuer == issuer
}

/// The total of the share-profit percentages of `s`.
pub open spec fn sum_share_percentages(s: Seq<ShareProfitsInfo>) -> int
    decreases s.len(),
{
    if s.len() == 0 {
        0
    } else {
        sum_share_percentages(s.drop_last()) + s.last().percentage
    }
}

/// Sums the share-profit percentages without overflow.
pub fn share_percentage_sum(share_profits: &Vec<ShareProfitsInfo>) -> (r: u128)
    ensures
        r == sum_share_percentages(share_profits@),
{
    let mut acc: u128 = 0;
    let mut i: usize = 0;
    while i < share_profits.len()
        invariant
            0 <= i <= share_profits@.len(),
            acc == sum_share_percentages(share_profits@.subrange(0, i as int)),
            acc <= i * (u64::MAX as int),
        decreases share_profits@.len() - i,
    {
        proof {
            assert(share_profits@.subrange(0, i + 1 as int).drop_last() =~= share_profits@.subrange(
                0,
                i as int,
            ));
        }
        acc = acc + share_profits[i].percentage as u128;
        i += 1;
    }
    proof {
        assert(share_profits@.subrange(0, share_profits@.len() as int) =~= share_profits@);
    }
    acc
}

/// What [`Market::do_create_collection`] rejects: only exhaustion of the
/// collection id space.
pub open spec fn create_collection_check(a: Market) -> Result<(), Error> {
    if a.next_collection_id == u64::MAX {
        Err(Error::NoAvailableCollectionId)
    } else {
        Ok(())
    }
}

/// The state change of a successful collection creation: the collection is
/// stored under the allocated id, appended to the issuer's artist list, and
/// `CreatedCollection` is logged. Nothing else changes.
pub open spec fn created_collection_post(
    a: Market,
    b: Market,
    issuer: AccountId,
    metadata: Seq<u8>,
) -> bool {
    let cid = a.next_collection_id;
    &&& b.next_collection_id == cid + 1
    &&& b.collections@.contains_key(cid)
    &&& collection_is(b.collections@[cid], cid, metadata, issuer)
    &&& b.collections@.remove(cid) == a.collections@.remove(cid)
    &&& b.artist_collections@.contains_key(issuer)
    &&& b.artist_collections@[issuer]@.len() == artist_list_of(a.artist_collections@, issuer).len()
        + 1
    &&& b.artist_collections@[issuer]@.drop_last() == artist_list_of(a.artist_collections@, issuer)
    &&& collection_is(b.artist_collections@[issuer]@.last(), cid, metadata, issuer)
    &&& b.artist_collections@.remove(issuer) == a.artist_collections@.remove(issuer)
    &&& b.events@ == a.events@.push(
        crate::types::Event::CreatedCollection { collection_id: cid, issuer },
    )
    &&& eq_ledger(a, b)
    &&& eq_config(a, b)
    &&& eq_nfts(a, b)
    &&& eq_albums(a, b)
    &&& eq_user_indexes(a, b)
    &&& eq_likes(a, b)
    &&& eq_auctions(a, b)
    &&& eq_marketplaces(a, b)
}

impl Market {
    /// The collection stored under `collection_id`.
    pub fn get_collection(&self, collection_id: CollectionId) -> (r: Result<&Collection, Error>)
        ensures
            match r {
                Ok(c) => self.collections@.contains_key(collection_id) && *c
                    == self.collections@[collection_id],
                Err(e) => e == Error::CollectionNotFound && !self.collections@.contains_key(
                    collection_id,
                ),
            },
    {
        match self.collections.get(&collection_id) {
            Some(c) => Ok(c),
            None => Err(Error::CollectionNotFound),
        }
    }

    /// The NFT stored under `(collection_id, nft_id)`.
    pub fn get_nft(&self, collection_id: CollectionId, nft_id: NFTId) -> (r: Result<&NFT, Error>)
        ensures
            match r {
                Ok(n) => self.nfts@.contains_key(pair_key(collection_id, nft_id)) && *n
                    == self.nfts@[pair_key(collection_id, nft_id)],
                Err(e) => e == Error::NFTNotFound && !self.nfts@.contains_key(
                    pair_key(collection_id, nft_id),
                ),
            },
    {
        let k = make_pair_key(collection_id, nft_id);
        match self.nfts.get(&k) {
            Some(n) => Ok(n),
            None => Err(Error::NFTNotFound),
        }
    }

    /// Creates a collection on behalf of `issuer`, after checking that the
    /// marketplace store `(market_owner_address, store_hash_id)` exists.
    pub fn create_collection(
        &mut self,
        issuer: AccountId,
        metadata: Vec<u8>,
        market_owner_address: AccountId,
        store_hash_id: u64,
    ) -> (r: Result<(), Error>)
        requires
            old(self).wf(),
        ensures
            final(self).wf(),
            !old(self).marketplaces@.contains_key(pair_key(market_owner_address, store_hash_id))
                ==> r == Err::<(), Error>(Error::MarketNotFound) && same_state(
                *old(self),
                *final(self),
            ),
            old(self).marketplaces@.contains_key(pair_key(market_owner_address, store_hash_id))
                ==> match create_collection_check(*old(self)) {
                Err(e) => r == Err::<(), Error>(e) && same_state(*old(self), *final(self)),
                Ok(()) => r is Ok && created_collection_post(
                    *old(self),
                    *final(self),
                    issuer,
                    metadata@,
                ),
            },
    {
        let store_key = make_pair_key(market_owner_address, store_hash_id);
        if !self.marketplaces.contains_key(&store_key) {
            return Err(Error::MarketNotFound);
        }
        self.do_create_collection(issuer, metadata)
    }

    /// Allocates the next collection id, stores the collection, appends it
    /// to the issuer's artist list and logs `CreatedCollection`.
    pub fn do_create_collection(&mut self, issuer: AccountId, metadata: Vec<u8>) -> (r: Result<
        (),
        Error,
    >)
        requires
            old(self).wf(),
        ensures
            final(self).wf(),
            match create_collection_check(*old(self)) {
                Err(e) => r == Err::<(), Error>(e) && same_state(*old(self), *final(self)),
                Ok(()) => r is Ok && created_collection_post(
                    *old(self),
                    *final(self),
                    issuer,
                    metadata@,
                ),
            },
    {
        if self.next_collection_id == u64::MAX {
            return Err(Error::NoAvailableCollectionId);
        }
        let cid = self.next_collection_id;
        self.next_collection_id = cid + 1;

        let metadata_for_list = copy_vec(&metadata);
        let stored = Collection { collection_id: cid, metadata, issuer };
        let listed = Collection { collection_id: cid, metadata: metadata_for_list, issuer };

        self.collections.insert(cid, stored);

        let mut list = match self.artist_collections.remove(&issuer) {
            Some(v) => v,
            None => Vec::new(),
        };
        let ghost old_list = list@;
        proof {
            assert(old_list == artist_list_of(old(self).artist_collections@, issuer));
        }
        list.push(listed);
        proof {
            assert(list@.drop_last() =~= old_list);
        }
        self.artist_collections.insert(issuer, list);

        self.events.push(crate::types::Event::CreatedCollection { collection_id: cid, issuer });

        proof {
            assert(self.collections@.remove(cid) =~= old(self).collections@.remove(cid));
            assert(self.artist_collections@.remove(issuer) =~= old(
                self,
            ).artist_collections@.remove(issuer));
        }
        Ok(())
    }

    /// Replaces the metadata of a collection; only its issuer may do so.
    pub fn update_collection(
        &mut self,
        issuer: AccountId,
        metadata: Vec<u8>,
        collection_id: CollectionId,
    ) -> (r: Result<(), Error>)
        requires
            old(self).wf(),
        ensures
            final(self).wf(),
            !old(self).collections@.contains_key(collection_id) ==> r == Err::<(), Error>(
                Error::CollectionNotFound,
            ) && same_state(*old(self), *final(self)),
            old(self).collections@.contains_key(collection_id) && old(
                self,
            ).collections@[collection_id].issuer != issuer ==> r == Err::<(), Error>(
                Error::NoPermission,
            ) && same_state(*old(self), *final(self)),
            old(self).collections@.contains_key(collection_id) && old(
                self,
            ).collections@[collection_id].issuer == issuer ==> {
                &&& r is Ok
                &&& final(self).collections@.contains_key(collection_id)
                &&& collection_is(
                    final(self).collections@[collection_id],
                    old(self).collections@[collection_id].collection_id,
                    metadata@,
                    issuer,
                )
                &&& final(self).collections@.remove(collection_id) == old(
                    self,
                ).collections@.remove(collection_id)
                &&& final(self).events@ == old(self).events@.push(
                    crate::types::Event::UpdateCollection { collection_id, issuer },
                )
                &&& eq_ledger(*old(self), *final(self))
                &&& eq_config(*old(self), *final(self))
                &&& final(self).next_collection_id == old(self).next_collection_id
                &&& final(self).artist_collections@ == old(self).artist_collections@
                &&& eq_nfts(*old(self), *final(self))
                &&& eq_albums(*old(self), *final(self))
                &&& eq_user_indexes(*old(self), *final(self))
                &&& eq_likes(*old(self), *final(self))
                &&& eq_auctions(*old(self), *final(self))
                &&& eq_marketplaces(*old(self), *final(self))
            },
    {
        let info = match self.collections.remove(&collection_id) {
            Some(c) => c,
            None => {
                proof {
                    assert(self.collections@ =~= old(self).collections@);
                }
                return Err(Error::CollectionNotFound);
            },
        };
        if info.issuer != issuer {
            self.collections.insert(collection_id, info);
            proof {
                assert(self.collections@ =~= old(self).collections@);
            }
            return Err(Error::NoPermission);
        }
        let updated = Collection {
            collection_id: info.collection_id,
            metadata,
            issuer: info.issuer,
        };
        self.collections.insert(collection_id, updated);
        self.events.push(crate::types::Event::UpdateCollection { collection_id, issuer });
        proof {
            assert(self.collections@.remove(collection_id) =~= old(
                self,
            ).collections@.remove(collection_id));
        }
        Ok(())
    }
}

/// Whether a stored NFT has exactly these fields, with a present but empty
/// owner list.
pub open spec fn nft_is_fresh(
    n: NFT,
    metadata: Seq<u8>,
    issuer: AccountId,
    shares: Seq<ShareProfitsInfo>,
    price: u64,
    royalty: u64,
    end_date: u64,
) -> bool {
    &&& n.metadata@ == metadata
    &&& n.issuer == issuer
    &&& match n.owners {
        Some(v) => v@ == Seq::<Owners>::empty(),
        Option::None => false,
    }
    &&& n.share_profits@ == shares
    &&& n.price == price
    &&& n.royalty == royalty
    &&& n.end_date == end_date
}

/// What [`Market::mint_nft`] rejects, in the order the checks run.
pub open spec fn mint_nft_check(
    a: Market,
    issuer: AccountId,
    cid: CollectionId,
    royalty: u64,
    shares: Seq<ShareProfitsInfo>,
) -> Result<(), Error> {
    if !a.collections@.contains_key(cid) {
        Err(Error::CollectionNotFound)
    } else if a.collections@[cid].issuer != issuer {
        Err(Error::NoPermission)
    } else if a.config.max_allow_royalty_percent < royalty {
        Err(Error::NotAllowToSetRoyalty)
    } else if sum_share_percentages(shares) != 100 {
        Err(Error::InvalidPercentageSum)
    } else if next_id_of(a.next_nft_id@, cid) == u64::MAX {
        Err(Error::NoAvailableNFTId)
    } else {
        Ok(())
    }
}

/// The state change of a successful mint: the NFT is stored under the
/// allocated id with an empty owner list, the id counter advances, the
/// issuer's personal index gains the item, and `MintedNFT` is logged.
pub open spec fn minted_nft_post(
    a: Market,
    b: Market,
    issuer: AccountId,
    cid: CollectionId,
    metadata: Seq<u8>,
    royalty: u64,
    shares: Seq<ShareProfitsInfo>,
    price: u64,
    end_date: u64,
) -> bool {
    let nid = next_id_of(a.next_nft_id@, cid);
    let k = pair_key(cid, nid);
    &&& b.next_nft_id@ == a.next_nft_id@.insert(cid, (nid + 1) as u64)
    &&& b.nfts@.contains_key(k)
    &&& nft_is_fresh(b.nfts@[k], metadata, issuer, shares, price, royalty, end_date)
    &&& b.nfts@.remove(k) == a.nfts@.remove(k)
    &&& b.user_nfts@.contains_key(issuer)
    &&& b.user_nfts@[issuer]@ == index_list_of(a.user_nfts@, issuer).push((cid, nid))
    &&& b.user_nfts@.remove(issuer) == a.user_nfts@.remove(issuer)
    &&& b.events@ == a.events@.push(
        Event::MintedNFT { collection_id: cid, nft_id: nid, owner: issuer, caller: issuer },
    )
    &&& eq_ledger(a, b)
    &&& eq_config(a, b)
    &&& eq_collections(a, b)
    &&& eq_albums(a, b)
    &&& b.user_albums@ == a.user_albums@
    &&& eq_likes(a, b)
    &&& eq_auctions(a, b)
    &&& eq_marketplaces(a, b)
}

/// What [`Market::has_permission_add_nft_in_auction`] decides: the
/// collection and the NFT must exist, and when the NFT carries an owner
/// list, the bidder must hold at least `total_supply` units in it. An NFT
/// without an owner list passes the holding check.
pub open spec fn nft_auction_permission(
    a: Market,
    bidder: AccountId,
    cid: CollectionId,
    nid: NFTId,
    total_supply: u64,
) -> Result<(), Error> {
    if !a.collections@.contains_key(cid) {
        Err(Error::CollectionNotFound)
    } else if !a.nfts@.contains_key(pair_key(cid, nid)) {
        Err(Error::NFTNotFound)
    } else {
        match a.nfts@[pair_key(cid, nid)].owners {
            Some(v) => if spec_has_holding(v@, bidder, total_supply) {
                Ok(())
            } else {
                Err(Error::OwnerNotHaveEnoughTotalSupply)
            },
            Option::None => Ok(()),
        }
    }
}

impl Market {
    /// Mints an NFT into `collection_id` on behalf of `issuer`. The issuer
    /// must own the collection, the royalty must not exceed the configured
    /// ceiling, and the share-profit percentages must sum to one hundred.
    pub fn mint_nft(
        &mut self,
        issuer: AccountId,
        collection_id: CollectionId,
        metadata: Vec<u8>,
        royalty: u64,
        share_profits: Vec<ShareProfitsInfo>,
        price: u64,
        end_date: u64,
    ) -> (r: Result<(), Error>)
        requires
            old(self).wf(),
        ensures
            final(self).wf(),
            match mint_nft_check(*old(self), issuer, collection_id, royalty, share_profits@) {
                Err(e) => r == Err::<(), Error>(e) && same_state(*old(self), *final(self)),
                Ok(()) => r is Ok && minted_nft_post(
                    *old(self),
                    *final(self),
                    issuer,
                    collection_id,
                    metadata@,
                    royalty,
                    share_profits@,
                    price,
                    end_date,
                ),
            },
    {
        let collection_issuer = match self.get_collection(collection_id) {
            Ok(c) => c.issuer,
            Err(e) => {
                return Err(e);
            },
        };
        if collection_issuer != issuer {
            return Err(Error::NoPermission);
        }
        if self.config.max_allow_royalty_percent < royalty {
            return Err(Error::NotAllowToSetRoyalty);
        }
        if share_percentage_sum(&share_profits) != 100 {
            return Err(Error::InvalidPercentageSum);
        }
        let nid = match self.next_nft_id.get(&collection_id) {
            Some(v) => *v,
            None => 0,
        };
        if nid == u64::MAX {
            return Err(Error::NoAvailableNFTId);
        }
        self.next_nft_id.insert(collection_id, nid + 1);

        let nft = NFT {
            metadata,
            issuer,
            owners: Some(Vec::new()),
            share_profits,
            price,
            royalty,
            end_date,
        };
        let k = make_pair_key(collection_id, nid);
        self.nfts.insert(k, nft);
        self.user_buy_nft(issuer, collection_id, nid);
        self.events.push(
            Event::MintedNFT { collection_id, nft_id: nid, owner: issuer, caller: issuer },
        );
        proof {
            assert(self.nfts@.remove(pair_key(collection_id, nid)) =~= old(self).nfts@.remove(
                pair_key(collection_id, nid),
            ));
        }
        Ok(())
    }

    /// Appends `(collection_id, nft_id)` to `user`'s personal index of
    /// bought NFTs.
    pub(crate) fn user_buy_nft(&mut self, user: AccountId, collection_id: CollectionId, nft_id: NFTId)
        requires
            old(self).wf(),
        ensures
            final(self).wf(),
            final(self).user_nfts@.contains_key(user),
            final(self).user_nfts@[user]@ == index_list_of(old(self).user_nfts@, user).push(
                (collection_id, nft_id),
            ),
            final(self).user_nfts@.remove(user) == old(self).user_nfts@.remove(user),
            final(self).user_albums@ == old(self).user_albums@,
            eq_ledger(*old(self), *final(self)),
            eq_config(*old(self), *final(self)),
            eq_collections(*old(self), *final(self)),
            eq_nfts(*old(self), *final(self)),
            eq_albums(*old(self), *final(self)),
            eq_likes(*old(self), *final(self)),
            eq_auctions(*old(self), *final(self)),
            eq_marketplaces(*old(self), *final(self)),
            eq_events(*old(self), *final(self)),
    {
        let mut list = match self.user_nfts.remove(&user) {
            Some(v) => v,
            None => Vec::new(),
        };
        list.push((collection_id, nft_id));
        self.user_nfts.insert(user, list);
        proof {
            assert(self.user_nfts@.remove(user) =~= old(self).user_nfts@.remove(user));
        }
    }

    /// Drops every `(collection_id, nft_id)` entry from `seller`'s
    /// personal index; the seller must have an index entry at all.
    pub(crate) fn retain_nft_owners(
        &mut self,
        seller: AccountId,
        collection_id: CollectionId,
        nft_id: NFTId,
    ) -> (r: Result<(), Error>)
        requires
            old(self).wf(),
        ensures
            final(self).wf(),
            !old(self).user_nfts@.contains_key(seller) ==> r == Err::<(), Error>(Error::NotNFTOwner)
                && same_state(*old(self), *final(self)),
            old(self).user_nfts@.contains_key(seller) ==> {
                &&& r is Ok
                &&& final(self).user_nfts@.contains_key(seller)
                &&& final(self).user_nfts@[seller]@ == old(self).user_nfts@[seller]@.filter(
                    crate::types::ne_pair((collection_id, nft_id)),
                )
                &&& final(self).user_nfts@.remove(seller) == old(self).user_nfts@.remove(seller)
            },
            final(self).user_albums@ == old(self).user_albums@,
            eq_ledger(*old(self), *final(self)),
            eq_config(*old(self), *final(self)),
            eq_collections(*old(self), *final(self)),
            eq_nfts(*old(self), *final(self)),
            eq_albums(*old(self), *final(self)),
            eq_likes(*old(self), *final(self)),
            eq_auctions(*old(self), *final(self)),
            eq_marketplaces(*old(self), *final(self)),
            eq_events(*old(self), *final(self)),
    {
        let list = match self.user_nfts.remove(&seller) {
            Some(v) => v,
            None => {
                proof {
                    assert(self.user_nfts@ =~= old(self).user_nfts@);
                }
                return Err(Error::NotNFTOwner);
            },
        };
        let kept = retain_not_pair(&list, collection_id, nft_id);
        self.user_nfts.insert(seller, kept);
        proof {
            assert(self.user_nfts@.remove(seller) =~= old(self).user_nfts@.remove(seller));
        }
        Ok(())
    }

    /// Permission check for listing an NFT in an auction.
    pub fn has_permission_add_nft_in_auction(
        &self,
        bidder: AccountId,
        collection_id: CollectionId,
        nft_id: NFTId,
        total_supply: u64,
    ) -> (r: Result<(), Error>)
        ensures
            r == nft_auction_permission(*self, bidder, collection_id, nft_id, total_supply),
    {
        if let Err(e) = self.get_collection(collection_id) {
            return Err(e);
        }
        let nft = match self.get_nft(collection_id, nft_id) {
            Ok(n) => n,
            Err(e) => {
                return Err(e);
            },
        };
        match &nft.owners {
            Some(list) => match check_owner_has_enough_supply(list, bidder, total_supply) {
                Ok(_) => Ok(()),
                Err(e) => Err(e),
            },
            None => Ok(()),
        }
    }

    /// Burns an NFT: only its issuer may, and only while the NFT has never
    /// acquired an owner list.
    pub fn burn_nft(&mut self, burner: AccountId, collection_id: CollectionId, nft_id: NFTId) -> (r:
        Result<(), Error>)
        requires
            old(self).wf(),
        ensures
            final(self).wf(),
            match burn_nft_check(*old(self), burner, collection_id, nft_id) {
                Err(e) => r == Err::<(), Error>(e) && same_state(*old(self), *final(self)),
                Ok(()) => {
                    &&& r is Ok
                    &&& final(self).nfts@ == old(self).nfts@.remove(pair_key(collection_id, nft_id))
                    &&& final(self).events@ == old(self).events@.push(
                        Event::BurnedNFT { collection_id, token_id: nft_id, owner: burner },
                    )
                    &&& final(self).next_nft_id@ == old(self).next_nft_id@
                    &&& eq_ledger(*old(self), *final(self))
                    &&& eq_config(*old(self), *final(self))
                    &&& eq_collections(*old(self), *final(self))
                    &&& eq_albums(*old(self), *final(self))
                    &&& eq_user_indexes(*old(self), *final(self))
                    &&& eq_likes(*old(self), *final(self))
                    &&& eq_auctions(*old(self), *final(self))
                    &&& eq_marketplaces(*old(self), *final(self))
                },
            },
    {
        let k = make_pair_key(collection_id, nft_id);
        let nft = match self.nfts.remove(&k) {
            Some(n) => n,
            None => {
                proof {
                    assert(self.nfts@ =~= old(self).nfts@);
                }
                return Err(Error::NFTNotFound);
            },
        };
        if nft.issuer != burner {
            self.nfts.insert(k, nft);
            proof {
                assert(self.nfts@ =~= old(self).nfts@);
            }
            return Err(Error::NoPermission);
        }
        if nft.owners.is_some() {
            self.nfts.insert(k, nft);
            proof {
                assert(self.nfts@ =~= old(self).nfts@);
            }
            return Err(Error::NoPermission);
        }
        self.events.push(Event::BurnedNFT { collection_id, token_id: nft_id, owner: burner });
        Ok(())
    }

    /// Toggles `(collection_id, nft_id)` in `user`'s list of liked NFTs:
    /// removes the first occurrence if the item is already liked, appends
    /// it otherwise.
    pub fn like_item_nft(&mut self, user: AccountId, collection_id: CollectionId, nft_id: NFTId)
        -> (r: Result<(), Error>)
        requires
            old(self).wf(),
        ensures
            final(self).wf(),
            !old(self).nfts@.contains_key(pair_key(collection_id, nft_id)) ==> r == Err::<
                (),
                Error,
            >(Error::NFTNotFound) && same_state(*old(self), *final(self)),
            old(self).nfts@.contains_key(pair_key(collection_id, nft_id)) ==> {
                &&& r is Ok
                &&& final(self).nft_likes@.contains_key(user)
                &&& final(self).nft_likes@[user]@ == (match pair_lookup(
                    index_list_of(old(self).nft_likes@, user),
                    (collection_id, nft_id),
                ) {
                    Some(i) => index_list_of(old(self).nft_likes@, user).remove(i),
                    Option::None => index_list_of(old(self).nft_likes@, user).push(
                        (collection_id, nft_id),
                    ),
                })
                &&& final(self).nft_likes@.remove(user) == old(self).nft_likes@.remove(user)
                &&& final(self).album_likes@ == old(self).album_likes@
                &&& eq_ledger(*old(self), *final(self))
                &&& eq_config(*old(self), *final(self))
                &&& eq_collections(*old(self), *final(self))
                &&& eq_nfts(*old(self), *final(self))
                &&& eq_albums(*old(self), *final(self))
                &&& eq_user_indexes(*old(self), *final(self))
                &&& eq_auctions(*old(self), *final(self))
                &&& eq_marketplaces(*old(self), *final(self))
                &&& eq_events(*old(self), *final(self))
            },
    {
        let k = make_pair_key(collection_id, nft_id);
        if !self.nfts.contains_key(&k) {
            return Err(Error::NFTNotFound);
        }
        let mut list = match self.nft_likes.remove(&user) {
            Some(v) => v,
            None => Vec::new(),
        };
        match find_pair(&list, (collection_id, nft_id)) {
            Some(i) => {
                list.remove(i);
            },
            None => {
                list.push((collection_id, nft_id));
            },
        }
        self.nft_likes.insert(user, list);
        proof {
            assert(self.nft_likes@.remove(user) =~= old(self).nft_likes@.remove(user));
        }
        Ok(())
    }
}

/// What [`Market::burn_nft`] rejects, in the order the checks run: the NFT
/// must exist, the burner must be its issuer, and the NFT must never have
/// acquired an owner list.
pub open spec fn burn_nft_check(
    a: Market,
    burner: AccountId,
    cid: CollectionId,
    nid: NFTId,
) -> Result<(), Error> {
    if !a.nfts@.contains_key(pair_key(cid, nid)) {
        Err(Error::NFTNotFound)
    } else if a.nfts@[pair_key(cid, nid)].issuer != burner {
        Err(Error::NoPermission)
    } else if a.nfts@[pair_key(cid, nid)].owners is Some {
        Err(Error::NoPermission)
    } else {
        Ok(())
    }
}

/// A copy of `v` without any occurrence of `(collection_id, nft_id)`.
pub(crate) fn retain_not_pair(v: &Vec<(u64, u64)>, collection_id: u64, nft_id: u64) -> (r: Vec<(u64, u64)>)
    ensures
        r@ == v@.filter(crate::types::ne_pair((collection_id, nft_id))),
{
    let mut kept: Vec<(u64, u64)> = Vec::new();
    let mut i: usize = 0;
    while i < v.len()
        invariant
            0 <= i <= v@.len(),
            kept@ == v@.subrange(0, i as int).filter(crate::types::ne_pair((collection_id, nft_id))),
        decreases v@.len() - i,
    {
        proof {
            reveal(Seq::filter);
            assert(v@.subrange(0, i + 1 as int).drop_last() =~= v@.subrange(0, i as int));
        }
        if v[i].0 != collection_id || v[i].1 != nft_id {
            kept.push(v[i]);
        }
        i += 1;
    }
    proof {
        assert(v@.subrange(0, v@.len() as int) =~= v@);
    }
    kept
}

/// What [`Market::update_nft`] rejects, in the order the checks run.
pub open spec fn update_nft_check(
    a: Market,
    issuer: AccountId,
    cid: CollectionId,
    nid: NFTId,
    shares: Seq<ShareProfitsInfo>,
) -> Result<(), Error> {
    let k = pair_key(cid, nid);
    if !a.collections@.contains_key(cid) {
        Err(Error::CollectionNotFound)
    } else if a.collections@[cid].issuer != issuer {
        Err(Error::NoPermission)
    } else if sum_share_percentages(shares) != 100 {
        Err(Error::InvalidPercentageSum)
    } else if !a.nfts@.contains_key(k) {
        Err(Error::NFTNotFound)
    } else if (match a.nfts@[k].owners {
        Some(v) => v@.len() > 0,
        Option::None => false,
    }) {
        Err(Error::NFTHasOwner)
    } else if a.nfts@[k].issuer != issuer {
        Err(Error::NoPermission)
    } else {
        Ok(())
    }
}

/// What [`Market::update_share_profit_nft`] rejects, in the order the
/// checks run.
pub open spec fn update_share_profit_nft_check(
    a: Market,
    issuer: AccountId,
    cid: CollectionId,
    nid: NFTId,
) -> Result<(), Error> {
    let k = pair_key(cid, nid);
    if !a.collections@.contains_key(cid) {
        Err(Error::CollectionNotFound)
    } else if !a.nfts@.contains_key(k) {
        Err(Error::NFTNotFound)
    } else if a.nfts@[k].issuer != issuer {
        Err(Error::NoPermission)
    } else {
        Ok(())
    }
}

impl Market {
    /// Rewrites the listing data of a not-yet-owned NFT: metadata, share
    /// profits, price and end date. Only the issuer may, only while the
    /// NFT's owner list is still empty, and only with share percentages
    /// that sum to one hundred. The royalty is fixed at mint time.
    pub fn update_nft(
        &mut self,
        issuer: AccountId,
        collection_id: CollectionId,
        nft_id: NFTId,
        metadata: Vec<u8>,
        share_profits: Vec<ShareProfitsInfo>,
        price: u64,
        end_date: u64,
    ) -> (r: Result<(), Error>)
        requires
            old(self).wf(),
        ensures
            final(self).wf(),
            match update_nft_check(*old(self), issuer, collection_id, nft_id, share_profits@) {
                Err(e) => r == Err::<(), Error>(e) && same_state(*old(self), *final(self)),
                Ok(()) => {
                    let k = pair_key(collection_id, nft_id);
                    let n0 = old(self).nfts@[k];
                    let n1 = final(self).nfts@[k];
                    &&& r is Ok
                    &&& final(self).nfts@.contains_key(k)
                    &&& n1.metadata@ == metadata@
                    &&& n1.share_profits@ == share_profits@
                    &&& n1.price == price
                    &&& n1.end_date == end_date
                    &&& n1.issuer == n0.issuer
                    &&& n1.royalty == n0.royalty
                    &&& n1.owners == n0.owners
                    &&& final(self).nfts@.remove(k) == old(self).nfts@.remove(k)
                    &&& final(self).next_nft_id@ == old(self).next_nft_id@
                    &&& final(self).events@ == old(self).events@.push(
                        Event::UpdatedNFT { collection_id, nft_id },
                    )
                    &&& eq_ledger(*old(self), *final(self))
                    &&& eq_config(*old(self), *final(self))
                    &&& eq_collections(*old(self), *final(self))
                    &&& eq_albums(*old(self), *final(self))
                    &&& eq_user_indexes(*old(self), *final(self))
                    &&& eq_likes(*old(self), *final(self))
                    &&& eq_auctions(*old(self), *final(self))
                    &&& eq_marketplaces(*old(self), *final(self))
                },
            },
    {
        let collection_issuer = match self.get_collection(collection_id) {
            Ok(c) => c.issuer,
            Err(e) => {
                return Err(e);
            },
        };
        if collection_issuer != issuer {
            return Err(Error::NoPermission);
        }
        if share_percentage_sum(&share_profits) != 100 {
            return Err(Error::InvalidPercentageSum);
        }
        let k = make_pair_key(collection_id, nft_id);
        let nft = match self.nfts.remove(&k) {
            Some(n) => n,
            None => {
                proof {
                    assert(self.nfts@ =~= old(self).nfts@);
                }
                return Err(Error::NFTNotFound);
            },
        };
        let has_owner = match &nft.owners {
            Some(v) => v.len() > 0,
            None => false,
        };
        if has_owner {
            self.nfts.insert(k, nft);
            proof {
                assert(self.nfts@ =~= old(self).nfts@);
            }
            return Err(Error::NFTHasOwner);
        }
        if nft.issuer != issuer {
            self.nfts.insert(k, nft);
            proof {
                assert(self.nfts@ =~= old(self).nfts@);
            }
            return Err(Error::NoPermission);
        }
        let updated = NFT {
            metadata,
            issuer: nft.issuer,
            owners: nft.owners,
            share_profits,
            price,
            royalty: nft.royalty,
            end_date,
        };
        self.nfts.insert(k, updated);
        self.events.push(Event::UpdatedNFT { collection_id, nft_id });
        proof {
            assert(self.nfts@.remove(pair_key(collection_id, nft_id)) =~= old(self).nfts@.remove(
                pair_key(collection_id, nft_id),
            ));
        }
        Ok(())
    }

    /// Replaces the share-profit list of an NFT; only its issuer may. The
    /// new percentages are stored as given, without a sum check.
    pub fn update_share_profit_nft(
        &mut self,
        issuer: AccountId,
        collection_id: CollectionId,
        nft_id: NFTId,
        updated_share_profits: Vec<ShareProfitsInfo>,
    ) -> (r: Result<(), Error>)
        requires
            old(self).wf(),
        ensures
            final(self).wf(),
            match update_share_profit_nft_check(*old(self), issuer, collection_id, nft_id) {
                Err(e) => r == Err::<(), Error>(e) && same_state(*old(self), *final(self)),
                Ok(()) => {
                    let k = pair_key(collection_id, nft_id);
                    let n0 = old(self).nfts@[k];
                    let n1 = final(self).nfts@[k];
                    &&& r is Ok
                    &&& final(self).nfts@.contains_key(k)
                    &&& n1.share_profits@ == updated_share_profits@
                    &&& n1.metadata@ == n0.metadata@
                    &&& n1.price == n0.price
                    &&& n1.end_date == n0.end_date
                    &&& n1.issuer == n0.issuer
                    &&& n1.royalty == n0.royalty
                    &&& n1.owners == n0.owners
                    &&& final(self).nfts@.remove(k) == old(self).nfts@.remove(k)
                    &&& final(self).next_nft_id@ == old(self).next_nft_id@
                    &&& final(self).events@ == old(self).events@.push(
                        Event::UpdatedShareProfitListNFT { collection_id, nft_id },
                    )
                    &&& eq_ledger(*old(self), *final(self))
                    &&& eq_config(*old(self), *final(self))
                    &&& eq_collections(*old(self), *final(self))
                    &&& eq_albums(*old(self), *final(self))
                    &&& eq_user_indexes(*old(self), *final(self))
                    &&& eq_likes(*old(self), *final(self))
                    &&& eq_auctions(*old(self), *final(self))
                    &&& eq_marketplaces(*old(self), *final(self))
                },
            },
    {
        if let Err(e) = self.get_collection(collection_id) {
            return Err(e);
        }
        let k = make_pair_key(collection_id, nft_id);
        let nft = match self.nfts.remove(&k) {
            Some(n) => n,
            None => {
                proof {
                    assert(self.nfts@ =~= old(self).nfts@);
                }
                return Err(Error::NFTNotFound);
            },
        };
        if nft.issuer != issuer {
            self.nfts.insert(k, nft);
            proof {
                assert(self.nfts@ =~= old(self).nfts@);
            }
            return Err(Error::NoPermission);
        }
        let updated = NFT {
            metadata: nft.metadata,
            issuer: nft.issuer,
            owners: nft.owners,
            share_profits: updated_share_profits,
            price: nft.price,
            royalty: nft.royalty,
            end_date: nft.end_date,
        };
        self.nfts.insert(k, updated);
        self.events.push(Event::UpdatedShareProfitListNFT { collection_id, nft_id });
        proof {
            assert(self.nfts@.remove(pair_key(collection_id, nft_id)) =~= old(self).nfts@.remove(
                pair_key(collection_id, nft_id),
            ));
        }
        Ok(())
    }
}

} // verus!
