//! The marketplace state as one structure, its well-formedness, and the
//! field-group equalities the operation contracts are phrased with.

use vstd::prelude::*;

use std::collections::HashMap;

use crate::errors::Error;
use crate::ledger::{ledger_wf, reserved_of, spec_deposit, AccountState, Ledger};
use crate::types::{
    AccountId, Album, AuctionState, BidSlot, Collection, CollectionId, ConfigMarketPlace, Event,
    Marketplace, NFTId, NFT,
};

verus! {

/// Uniqueness of the bid slots of one auction: no two slots share a hash.
pub open spec fn bids_wf(bids: Seq<BidSlot>) -> bool {
    forall|i: int, j: int| 0 <= i < j < bids.len() ==> bids[i].hash != bids[j].hash
}

/// The whole marketplace state: the balance ledger, the catalog, the open
/// auctions and the per-store configuration. All keyed stores use the
/// injective packing of [`crate::types::pair_key`] where the key is a pair.
pub struct Market {
    /// The escrow-capable balance store.
    pub ledger: Ledger,
    /// The global royalty-fee configuration.
    pub config: ConfigMarketPlace,
    /// The next collection id to allocate.
    pub next_collection_id: u64,
    /// Collections, keyed by collection id.
    pub collections: HashMap<CollectionId, Collection>,
    /// Every collection an artist has created, keyed by artist.
    pub artist_collections: HashMap<AccountId, Vec<Collection>>,
    /// The next NFT id to allocate, keyed by collection id.
    pub next_nft_id: HashMap<CollectionId, u64>,
    /// The next album or track id to allocate, keyed by collection id.
    pub next_album_id: HashMap<CollectionId, u64>,
    /// NFTs, keyed by packed (collection id, NFT id).
    pub nfts: HashMap<u128, NFT>,
    /// Albums, keyed by packed (collection id, album id).
    pub albums: HashMap<u128, Album>,
    /// Each user's personal index of NFTs bought, keyed by user.
    pub user_nfts: HashMap<AccountId, Vec<(CollectionId, NFTId)>>,
    /// Each user's personal index of albums bought, keyed by user.
    pub user_albums: HashMap<AccountId, Vec<(CollectionId, NFTId)>>,
    /// Each user's liked NFTs, keyed by user.
    pub nft_likes: HashMap<AccountId, Vec<(CollectionId, NFTId)>>,
    /// Each user's liked albums, keyed by user.
    pub album_likes: HashMap<AccountId, Vec<(CollectionId, NFTId)>>,
    /// Open auctions with their bid slots, keyed by packed (issuer, nonce).
    pub auctions: HashMap<u128, AuctionState>,
    /// Marketplace stores, keyed by packed (owner, store hash).
    pub marketplaces: HashMap<u128, Marketplace>,
    /// The append-only log of domain events.
    pub events: Vec<Event>,
}

/// The two markets agree on the ledger.
pub open spec fn eq_ledger(a: Market, b: Market) -> bool {
    a.ledger@ == b.ledger@ && a.ledger.min_balance == b.ledger.min_balance
}

/// The two markets agree on the collection stores.
pub open spec fn eq_collections(a: Market, b: Market) -> bool {
    a.next_collection_id == b.next_collection_id && a.collections@ == b.collections@
        && a.artist_collections@ == b.artist_collections@
}

/// The two markets agree on the NFT store and its id counters.
pub open spec fn eq_nfts(a: Market, b: Market) -> bool {
    a.next_nft_id@ == b.next_nft_id@ && a.nfts@ == b.nfts@
}

/// The two markets agree on the album store and its id counters.
pub open spec fn eq_albums(a: Market, b: Market) -> bool {
    a.next_album_id@ == b.next_album_id@ && a.albums@ == b.albums@
}

/// The two markets agree on the personal bought-item indexes.
pub open spec fn eq_user_indexes(a: Market, b: Market) -> bool {
    a.user_nfts@ == b.user_nfts@ && a.user_albums@ == b.user_albums@
}

/// The two markets agree on the like lists.
pub open spec fn eq_likes(a: Market, b: Market) -> bool {
    a.nft_likes@ == b.nft_likes@ && a.album_likes@ == b.album_likes@
}

/// The two markets agree on the auction store.
pub open spec fn eq_auctions(a: Market, b: Market) -> bool {
    a.auctions@ == b.auctions@
}

/// The two markets agree on the global configuration.
pub open spec fn eq_config(a: Market, b: Market) -> bool {
    a.config == b.config
}

/// The two markets agree on the marketplace stores.
pub open spec fn eq_marketplaces(a: Market, b: Market) -> bool {
    a.marketplaces@ == b.marketplaces@
}

/// The two markets agree on the event log.
pub open spec fn eq_events(a: Market, b: Market) -> bool {
    a.events@ == b.events@
}

/// Whether two market values describe the same state, field by field at
/// the view level. Operations that fail promise `same_state` between the
/// state before and after the call: a failed operation commits nothing.
pub open spec fn same_state(a: Market, b: Market) -> bool {
    &&& eq_ledger(a, b)
    &&& eq_config(a, b)
    &&& eq_collections(a, b)
    &&& eq_nfts(a, b)
    &&& eq_albums(a, b)
    &&& eq_user_indexes(a, b)
    &&& eq_likes(a, b)
    &&& eq_auctions(a, b)
    &&& eq_marketplaces(a, b)
    &&& eq_events(a, b)
}

impl Market {
    /// Well-formedness: the ledger's balances fit, and each auction's bid
    /// slots carry distinct hashes. Established by [`Market::new`] and
    /// preserved by every operation.
    pub open spec fn wf(&self) -> bool {
        &&& ledger_wf(self.ledger@)
        &&& forall|k: u128| #[trigger]
            self.auctions@.contains_key(k) ==> bids_wf(self.auctions@[k].bids@)
    }

    /// A fresh, empty marketplace whose ledger keeps `KeepAlive` transfer
    /// sources at or above `min_balance`, with the stock configuration.
    pub fn new(min_balance: u64) -> (r: Market)
        ensures
            r.wf(),
            r.ledger@ == Map::<AccountId, AccountState>::empty(),
            r.ledger.min_balance == min_balance,
            r.config == (ConfigMarketPlace { royalty_fee: 10, max_allow_royalty_percent: 10 }),
            r.next_collection_id == 0,
            r.collections@ == Map::<CollectionId, Collection>::empty(),
            r.artist_collections@ == Map::<AccountId, Vec<Collection>>::empty(),
            r.next_nft_id@ == Map::<CollectionId, u64>::empty(),
            r.next_album_id@ == Map::<CollectionId, u64>::empty(),
            r.nfts@ == Map::<u128, NFT>::empty(),
            r.albums@ == Map::<u128, Album>::empty(),
            r.user_nfts@ == Map::<AccountId, Vec<(CollectionId, NFTId)>>::empty(),
            r.user_albums@ == Map::<AccountId, Vec<(CollectionId, NFTId)>>::empty(),
            r.nft_likes@ == Map::<AccountId, Vec<(CollectionId, NFTId)>>::empty(),
            r.album_likes@ == Map::<AccountId, Vec<(CollectionId, NFTId)>>::empty(),
            r.auctions@ == Map::<u128, AuctionState>::empty(),
            r.marketplaces@ == Map::<u128, Marketplace>::empty(),
            r.events@ == Seq::<Event>::empty(),
            crate::auction::sole_auction_escrow(r),
    {
        Market {
            ledger: Ledger::new(min_balance),
            config: ConfigMarketPlace { royalty_fee: 10, max_allow_royalty_percent: 10 },
            next_collection_id: 0,
            collections: HashMap::new(),
            artist_collections: HashMap::new(),
            next_nft_id: HashMap::new(),
            next_album_id: HashMap::new(),
            nfts: HashMap::new(),
            albums: HashMap::new(),
            user_nfts: HashMap::new(),
            user_albums: HashMap::new(),
            nft_likes: HashMap::new(),
            album_likes: HashMap::new(),
            auctions: HashMap::new(),
            marketplaces: HashMap::new(),
            events: Vec::new(),
        }
    }

    /// Credits `amount` of free balance to `who`; how accounts come by
    /// funds in the first place is the surrounding chain's business.
    /// Reserved balances are never touched.
    pub fn deposit_free(&mut self, who: AccountId, amount: u64) -> (r: Result<(), Error>)
        requires
            old(self).wf(),
        ensures
            final(self).wf(),
            eq_config(*old(self), *final(self)),
            eq_collections(*old(self), *final(self)),
            eq_nfts(*old(self), *final(self)),
            eq_albums(*old(self), *final(self)),
            eq_user_indexes(*old(self), *final(self)),
            eq_likes(*old(self), *final(self)),
            eq_auctions(*old(self), *final(self)),
            eq_marketplaces(*old(self), *final(self)),
            eq_events(*old(self), *final(self)),
            final(self).ledger.min_balance == old(self).ledger.min_balance,
            match spec_deposit(old(self).ledger@, who, amount) {
                Ok(m2) => r is Ok && final(self).ledger@ == m2,
                Err(e) => r == Err::<(), Error>(e) && same_state(*old(self), *final(self)),
            },
            forall|a: AccountId|
                reserved_of(final(self).ledger@, a) == reserved_of(old(self).ledger@, a),
            crate::auction::sole_auction_escrow(*old(self)) ==> crate::auction::sole_auction_escrow(
                *final(self),
            ),
    {
        let r = self.ledger.deposit_free(who, amount);
        proof {
            if crate::auction::sole_auction_escrow(*old(self)) {
                assert forall|k: u128| #[trigger]
                    self.auctions@.contains_key(k) implies crate::auction::auction_escrow_ok(
                    self.auctions@[k],
                    self.ledger@,
                ) by {
                    assert(crate::auction::auction_escrow_ok(
                        old(self).auctions@[k],
                        old(self).ledger@,
                    ));
                    let au = self.auctions@[k].auction;
                    if au.highest_bidder != au.issuer {
                        assert forall|acct: AccountId|
                            acct != au.highest_bidder implies #[trigger] reserved_of(
                            self.ledger@,
                            acct,
                        ) == 0 by {
                            assert(reserved_of(old(self).ledger@, acct) == 0);
                        }
                    } else {
                        assert forall|acct: AccountId| #[trigger]
                            reserved_of(self.ledger@, acct) == 0 by {
                            assert(reserved_of(old(self).ledger@, acct) == 0);
                        }
                    }
                }
                if forall|k: u128| !self.auctions@.contains_key(k) {
                    assert forall|k: u128| !(#[trigger] old(self).auctions@.contains_key(k)) by {
                        assert(!self.auctions@.contains_key(k));
                    }
                    assert forall|acct: AccountId| #[trigger]
                        reserved_of(self.ledger@, acct) == 0 by {
                        assert(reserved_of(old(self).ledger@, acct) == 0);
                    }
                }
            }
        }
        r
    }

    /// The global marketplace configuration.
    pub fn get_config(&self) -> (r: ConfigMarketPlace)
        ensures
            r == self.config,
    {
        self.config
    }

    /// Replaces the global marketplace configuration and logs `SetConfig`.
    pub fn set_config(&mut self, royalty_fee: u64, max_allow_royalty_percent: u64) -> (r: Result<
        (),
        Error,
    >)
        requires
            old(self).wf(),
        ensures
            final(self).wf(),
            r is Ok,
            final(self).config == (ConfigMarketPlace { royalty_fee, max_allow_royalty_percent }),
            final(self).events@ == old(self).events@.push(
                Event::SetConfig { royalty_fee, max_allow_royalty_percent },
            ),
            eq_ledger(*old(self), *final(self)),
            eq_collections(*old(self), *final(self)),
            eq_nfts(*old(self), *final(self)),
            eq_albums(*old(self), *final(self)),
            eq_user_indexes(*old(self), *final(self)),
            eq_likes(*old(self), *final(self)),
            eq_auctions(*old(self), *final(self)),
            eq_marketplaces(*old(self), *final(self)),
    {
        self.config = ConfigMarketPlace { royalty_fee, max_allow_royalty_percent };
        self.events.push(Event::SetConfig { royalty_fee, max_allow_royalty_percent });
        Ok(())
    }
}

} // verus!
