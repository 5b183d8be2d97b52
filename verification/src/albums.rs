//! Albums: minting with per-track ids, direct purchase and resale of
//! fractional album supply, like lists and share-profit updates.

use vstd::prelude::*;

use crate::catalog::{index_list_of, next_id_of};
use crate::errors::Error;
use crate::market::{
    eq_albums, eq_auctions, eq_collections, eq_config, eq_events, eq_ledger, eq_likes,
    eq_marketplaces, eq_nfts, eq_user_indexes, same_state, Market,
};
use crate::owners::{check_owner_has_enough_supply, spec_has_holding};
use crate::types::{
    copy_vec, find_pair, make_pair_key, pair_key, pair_lookup, AccountId, Album, AlbumTracks,
    CollectionId, Event, NFTId, Owners, ShareProfitsInfo,
};

verus! {

/// Whether `t_new` is `t_old` with its track id set to `id` and everything
/// else kept.
pub open spec fn track_with_id(t_new: AlbumTracks, t_old: AlbumTracks, id: NFTId) -> bool {
    &&& t_new.track_id == Some(id)
    &&& t_new.metadata@ == t_old.metadata@
    &&& t_new.owners == t_old.owners
    &&& t_new.share_profits@ == t_old.share_profits@
    &&& t_new.price == t_old.price
}

/// What [`Market::mint_album`] rejects, in the order the checks run. The
/// album takes one id and each track takes one more, all from the same
/// per-collection counter; exhausting it is reported as
/// `NoAvailableCollectionId`.
pub open spec fn mint_album_check(
    a: Market,
    issuer: AccountId,
    cid: CollectionId,
    royalty: u64,
    track_count: int,
) -> Result<(), Error> {
    if !a.collections@.contains_key(cid) {
        Err(Error::CollectionNotFound)
    } else if a.collections@[cid].issuer != issuer {
        Err(Error::NoPermission)
    } else if a.config.max_allow_royalty_percent < royalty {
        Err(Error::NotAllowToSetRoyalty)
    } else if next_id_of(a.next_album_id@, cid) + 1 + track_count > u64::MAX {
        Err(Error::NoAvailableCollectionId)
    } else {
        Ok(())
    }
}

/// The state change of a successful album mint: the album is stored under
/// the allocated id with an empty owner list, each track carries the next
/// allocated id in order, the counter advances past all of them, and
/// `MintedAlbum` is logged.
pub open spec fn minted_album_post(
    a: Market,
    b: Market,
    issuer: AccountId,
    cid: CollectionId,
    metadata: Seq<u8>,
    royalty: u64,
    tracks: Seq<AlbumTracks>,
    end_date: u64,
) -> bool {
    let album_id = next_id_of(a.next_album_id@, cid);
    let k = pair_key(cid, album_id);
    let stored = b.albums@[k];
    &&& b.next_album_id@ == a.next_album_id@.insert(
        cid,
        (album_id + 1 + tracks.len()) as u64,
    )
    &&& b.albums@.contains_key(k)
    &&& stored.metadata@ == metadata
    &&& stored.issuer == issuer
    &&& match stored.owners {
        Some(v) => v@ == Seq::<Owners>::empty(),
        Option::None => false,
    }
    &&& stored.royalty == royalty
    &&& stored.end_date == end_date
    &&& stored.tracks@.len() == tracks.len()
    &&& forall|i: int|
        0 <= i < tracks.len() ==> track_with_id(
            #[trigger] stored.tracks@[i],
            tracks[i],
            (album_id + 1 + i) as u64,
        )
    &&& b.albums@.remove(k) == a.albums@.remove(k)
    &&& b.events@ == a.events@.push(
        Event::MintedAlbum { collection_id: cid, album_id, owner: issuer, caller: issuer },
    )
    &&& eq_ledger(a, b)
    &&& eq_config(a, b)
    &&& eq_collections(a, b)
    &&& eq_nfts(a, b)
    &&& b.next_nft_id@ == a.next_nft_id@
    &&& eq_user_indexes(a, b)
    &&& eq_likes(a, b)
    &&& eq_auctions(a, b)
    &&& eq_marketplaces(a, b)
}

/// What [`Market::burn_album`] rejects, in the order the checks run.
pub open spec fn burn_album_check(
    a: Market,
    burner: AccountId,
    cid: CollectionId,
    aid: NFTId,
) -> Result<(), Error> {
    if !a.albums@.contains_key(pair_key(cid, aid)) {
        Err(Error::AlbumNotFound)
    } else if a.albums@[pair_key(cid, aid)].issuer != burner {
        Err(Error::NoPermission)
    } else if a.albums@[pair_key(cid, aid)].owners is Some {
        Err(Error::NoPermission)
    } else {
        Ok(())
    }
}

/// What [`Market::has_permission_add_album_in_auction`] decides; the album
/// counterpart of [`crate::catalog::nft_auction_permission`].
pub open spec fn album_auction_permission(
    a: Market,
    bidder: AccountId,
    cid: CollectionId,
    aid: NFTId,
    total_supply: u64,
) -> Result<(), Error> {
    if !a.collections@.contains_key(cid) {
        Err(Error::CollectionNotFound)
    } else if !a.albums@.contains_key(pair_key(cid, aid)) {
        Err(Error::AlbumNotFound)
    } else {
        match a.albums@[pair_key(cid, aid)].owners {
            Some(v) => if spec_has_holding(v@, bidder, total_supply) {
                Ok(())
            } else {
                Err(Error::OwnerNotHaveEnoughTotalSupply)
            },
            Option::None => Ok(()),
        }
    }
}

/// What [`Market::update_share_profit_album`] rejects, in the order the
/// checks run.
pub open spec fn update_share_profit_album_check(
    a: Market,
    issuer: AccountId,
    cid: CollectionId,
    aid: NFTId,
) -> Result<(), Error> {
    if !a.collections@.contains_key(cid) {
        Err(Error::CollectionNotFound)
    } else if !a.albums@.contains_key(pair_key(cid, aid)) {
        Err(Error::AlbumNotFound)
    } else if a.albums@[pair_key(cid, aid)].issuer != issuer {
        Err(Error::NoPermission)
    } else {
        Ok(())
    }
}

impl Market {
    /// The album stored under `(collection_id, album_id)`.
    pub fn get_album(&self, collection_id: CollectionId, album_id: NFTId) -> (r: Result<
        &Album,
        Error,
    >)
        ensures
            match r {
                Ok(al) => self.albums@.contains_key(pair_key(collection_id, album_id)) && *al
                    == self.albums@[pair_key(collection_id, album_id)],
                Err(e) => e == Error::AlbumNotFound && !self.albums@.contains_key(
                    pair_key(collection_id, album_id),
                ),
            },
    {
        let k = make_pair_key(collection_id, album_id);
        match self.albums.get(&k) {
            Some(al) => Ok(al),
            None => Err(Error::AlbumNotFound),
        }
    }

    /// Mints an album into `collection_id` on behalf of `issuer`,
    /// allocating one id for the album and one for each track.
    pub fn mint_album(
        &mut self,
        issuer: AccountId,
        collection_id: CollectionId,
        metadata: Vec<u8>,
        royalty: u64,
        tracks: Vec<AlbumTracks>,
        end_date: u64,
    ) -> (r: Result<(), Error>)
        requires
            old(self).wf(),
        ensures
            final(self).wf(),
            match mint_album_check(
                *old(self),
                issuer,
                collection_id,
                royalty,
                tracks@.len() as int,
            ) {
                Err(e) => r == Err::<(), Error>(e) && same_state(*old(self), *final(self)),
                Ok(()) => r is Ok && minted_album_post(
                    *old(self),
                    *final(self),
                    issuer,
                    collection_id,
                    metadata@,
                    royalty,
                    tracks@,
                    end_date,
                ),
            },
    {
        let collection_issuer = match self.get_collection(collection_id) {
            Ok(c) => c.issuer,
            Err(e) => {
                return Err(e);
            },
        };
        if collection_issuer != issuer {
            return Err(Error::NoPermission);
        }
        if self.config.max_allow_royalty_percent < royalty {
            return Err(Error::NotAllowToSetRoyalty);
        }
        let album_id = match self.next_album_id.get(&collection_id) {
            Some(v) => *v,
            None => 0,
        };
        if (album_id as u128) + 1 + (tracks.len() as u128) > u64::MAX as u128 {
            return Err(Error::NoAvailableCollectionId);
        }
        self.next_album_id.insert(collection_id, album_id + 1 + tracks.len() as u64);

        let mut tracks = tracks;
        let ghost tracks0 = tracks@;
        let mut i: usize = 0;
        while i < tracks.len()
            invariant
                0 <= i <= tracks0.len(),
                tracks@.len() == tracks0.len(),
                album_id + 1 + tracks0.len() <= u64::MAX,
                forall|j: int|
                    0 <= j < i ==> track_with_id(
                        #[trigger] tracks@[j],
                        tracks0[j],
                        (album_id + 1 + j) as u64,
                    ),
                forall|j: int| i <= j < tracks0.len() ==> tracks@[j] == tracks0[j],
            decreases tracks0.len() - i,
        {
            tracks[i].track_id = Some(album_id + 1 + i as u64);
            i += 1;
        }

        let album = Album {
            metadata,
            issuer,
            owners: Some(Vec::new()),
            tracks,
            royalty,
            end_date,
        };
        let k = make_pair_key(collection_id, album_id);
        self.albums.insert(k, album);
        self.events.push(
            Event::MintedAlbum { collection_id, album_id, owner: issuer, caller: issuer },
        );
        proof {
            assert(self.albums@.remove(pair_key(collection_id, album_id)) =~= old(
                self,
            ).albums@.remove(pair_key(collection_id, album_id)));
        }
        Ok(())
    }

    /// Appends `(collection_id, album_id)` to `user`'s personal index of
    /// bought albums.
    pub(crate) fn user_buy_album(&mut self, user: AccountId, collection_id: CollectionId, album_id: NFTId)
        requires
            old(self).wf(),
        ensures
            final(self).wf(),
            final(self).user_albums@.contains_key(user),
            final(self).user_albums@[user]@ == index_list_of(old(self).user_albums@, user).push(
                (collection_id, album_id),
            ),
            final(self).user_albums@.remove(user) == old(self).user_albums@.remove(user),
            final(self).user_nfts@ == old(self).user_nfts@,
            eq_ledger(*old(self), *final(self)),
            eq_config(*old(self), *final(self)),
            eq_collections(*old(self), *final(self)),
            eq_nfts(*old(self), *final(self)),
            eq_albums(*old(self), *final(self)),
            eq_likes(*old(self), *final(self)),
            eq_auctions(*old(self), *final(self)),
            eq_marketplaces(*old(self), *final(self)),
            eq_events(*old(self), *final(self)),
    {
        let mut list = match self.user_albums.remove(&user) {
            Some(v) => v,
            None => Vec::new(),
        };
        list.push((collection_id, album_id));
        self.user_albums.insert(user, list);
        proof {
            assert(self.user_albums@.remove(user) =~= old(self).user_albums@.remove(user));
        }
    }

    /// Drops every `(collection_id, album_id)` entry from `seller`'s
    /// personal index; the seller must have an index entry at all.
    pub(crate) fn retain_album_owners(
        &mut self,
        seller: AccountId,
        collection_id: CollectionId,
        album_id: NFTId,
    ) -> (r: Result<(), Error>)
        requires
            old(self).wf(),
        ensures
            final(self).wf(),
            !old(self).user_albums@.contains_key(seller) ==> r == Err::<(), Error>(
                Error::NotNFTOwner,
            ) && same_state(*old(self), *final(self)),
            old(self).user_albums@.contains_key(seller) ==> {
                &&& r is Ok
                &&& final(self).user_albums@.contains_key(seller)
                &&& final(self).user_albums@[seller]@ == old(self).user_albums@[seller]@.filter(
                    crate::types::ne_pair((collection_id, album_id)),
                )
                &&& final(self).user_albums@.remove(seller) == old(self).user_albums@.remove(
                    seller,
                )
            },
            final(self).user_nfts@ == old(self).user_nfts@,
            eq_ledger(*old(self), *final(self)),
            eq_config(*old(self), *final(self)),
            eq_collections(*old(self), *final(self)),
            eq_nfts(*old(self), *final(self)),
            eq_albums(*old(self), *final(self)),
            eq_likes(*old(self), *final(self)),
            eq_auctions(*old(self), *final(self)),
            eq_marketplaces(*old(self), *final(self)),
            eq_events(*old(self), *final(self)),
    {
        let list = match self.user_albums.remove(&seller) {
            Some(v) => v,
            None => {
                proof {
                    assert(self.user_albums@ =~= old(self).user_albums@);
                }
                return Err(Error::NotNFTOwner);
            },
        };
        let kept = crate::catalog::retain_not_pair(&list, collection_id, album_id);
        self.user_albums.insert(seller, kept);
        proof {
            assert(self.user_albums@.remove(seller) =~= old(self).user_albums@.remove(seller));
        }
        Ok(())
    }

    /// Permission check for listing an album in an auction.
    pub fn has_permission_add_album_in_auction(
        &self,
        bidder: AccountId,
        collection_id: CollectionId,
        album_id: NFTId,
        total_supply: u64,
    ) -> (r: Result<(), Error>)
        ensures
            r == album_auction_permission(*self, bidder, collection_id, album_id, total_supply),
    {
        if let Err(e) = self.get_collection(collection_id) {
            return Err(e);
        }
        let album = match self.get_album(collection_id, album_id) {
            Ok(al) => al,
            Err(e) => {
                return Err(e);
            },
        };
        match &album.owners {
            Some(list) => match check_owner_has_enough_supply(list, bidder, total_supply) {
                Ok(_) => Ok(()),
                Err(e) => Err(e),
            },
            None => Ok(()),
        }
    }

    /// Burns an album: only its issuer may, and only while the album has
    /// never acquired an owner list.
    pub fn burn_album(
        &mut self,
        burner: AccountId,
        collection_id: CollectionId,
        album_id: NFTId,
    ) -> (r: Result<(), Error>)
        requires
            old(self).wf(),
        ensures
            final(self).wf(),
            match burn_album_check(*old(self), burner, collection_id, album_id) {
                Err(e) => r == Err::<(), Error>(e) && same_state(*old(self), *final(self)),
                Ok(()) => {
                    &&& r is Ok
                    &&& final(self).albums@ == old(self).albums@.remove(
                        pair_key(collection_id, album_id),
                    )
                    &&& final(self).events@ == old(self).events@.push(
                        Event::BurnedAlbum { collection_id, album_id, owner: burner },
                    )
                    &&& final(self).next_album_id@ == old(self).next_album_id@
                    &&& eq_ledger(*old(self), *final(self))
                    &&& eq_config(*old(self), *final(self))
                    &&& eq_collections(*old(self), *final(self))
                    &&& eq_nfts(*old(self), *final(self))
                    &&& eq_user_indexes(*old(self), *final(self))
                    &&& eq_likes(*old(self), *final(self))
                    &&& eq_auctions(*old(self), *final(self))
                    &&& eq_marketplaces(*old(self), *final(self))
                },
            },
    {
        let k = make_pair_key(collection_id, album_id);
        let album = match self.albums.remove(&k) {
            Some(al) => al,
            None => {
                proof {
                    assert(self.albums@ =~= old(self).albums@);
                }
                return Err(Error::AlbumNotFound);
            },
        };
        if album.issuer != burner {
            self.albums.insert(k, album);
            proof {
                assert(self.albums@ =~= old(self).albums@);
            }
            return Err(Error::NoPermission);
        }
        if album.owners.is_some() {
            self.albums.insert(k, album);
            proof {
                assert(self.albums@ =~= old(self).albums@);
            }
            return Err(Error::NoPermission);
        }
        self.events.push(Event::BurnedAlbum { collection_id, album_id, owner: burner });
        Ok(())
    }

    /// Toggles `(collection_id, album_id)` in `user`'s list of liked
    /// albums. A missing album is reported as `NFTNotFound`, the shared
    /// not-found error of the like operations.
    pub fn like_item_album(&mut self, user: AccountId, collection_id: CollectionId, album_id: NFTId)
        -> (r: Result<(), Error>)
        requires
            old(self).wf(),
        ensures
            final(self).wf(),
            !old(self).albums@.contains_key(pair_key(collection_id, album_id)) ==> r == Err::<
                (),
                Error,
            >(Error::NFTNotFound) && same_state(*old(self), *final(self)),
            old(self).albums@.contains_key(pair_key(collection_id, album_id)) ==> {
                &&& r is Ok
                &&& final(self).album_likes@.contains_key(user)
                &&& final(self).album_likes@[user]@ == (match pair_lookup(
                    index_list_of(old(self).album_likes@, user),
                    (collection_id, album_id),
                ) {
                    Some(i) => index_list_of(old(self).album_likes@, user).remove(i),
                    Option::None => index_list_of(old(self).album_likes@, user).push(
                        (collection_id, album_id),
                    ),
                })
                &&& final(self).album_likes@.remove(user) == old(self).album_likes@.remove(user)
                &&& final(self).nft_likes@ == old(self).nft_likes@
                &&& eq_ledger(*old(self), *final(self))
                &&& eq_config(*old(self), *final(self))
                &&& eq_collections(*old(self), *final(self))
                &&& eq_nfts(*old(self), *final(self))
                &&& eq_albums(*old(self), *final(self))
                &&& eq_user_indexes(*old(self), *final(self))
                &&& eq_auctions(*old(self), *final(self))
                &&& eq_marketplaces(*old(self), *final(self))
                &&& eq_events(*old(self), *final(self))
            },
    {
        let k = make_pair_key(collection_id, album_id);
        if !self.albums.contains_key(&k) {
            return Err(Error::NFTNotFound);
        }
        let mut list = match self.album_likes.remove(&user) {
            Some(v) => v,
            None => Vec::new(),
        };
        match find_pair(&list, (collection_id, album_id)) {
            Some(i) => {
                list.remove(i);
            },
            None => {
                list.push((collection_id, album_id));
            },
        }
        self.album_likes.insert(user, list);
        proof {
            assert(self.album_likes@.remove(user) =~= old(self).album_likes@.remove(user));
        }
        Ok(())
    }

    /// Replaces the share-profit list of every track of the album that
    /// carries `track_id`; only the album's issuer may.
    pub fn update_share_profit_album(
        &mut self,
        issuer: AccountId,
        collection_id: CollectionId,
        album_id: NFTId,
        track_id: NFTId,
        updated_share_profits: Vec<ShareProfitsInfo>,
    ) -> (r: Result<(), Error>)
        requires
            old(self).wf(),
        ensures
            final(self).wf(),
            match update_share_profit_album_check(*old(self), issuer, collection_id, album_id) {
                Err(e) => r == Err::<(), Error>(e) && same_state(*old(self), *final(self)),
                Ok(()) => {
                    let k = pair_key(collection_id, album_id);
                    let a0 = old(self).albums@[k];
                    let a1 = final(self).albums@[k];
                    &&& r is Ok
                    &&& final(self).albums@.contains_key(k)
                    &&& a1.metadata@ == a0.metadata@
                    &&& a1.issuer == a0.issuer
                    &&& a1.owners == a0.owners
                    &&& a1.royalty == a0.royalty
                    &&& a1.end_date == a0.end_date
                    &&& a1.tracks@.len() == a0.tracks@.len()
                    &&& forall|i: int|
                        0 <= i < a0.tracks@.len() ==> {
                            let t0 = a0.tracks@[i];
                            let t1 = #[trigger] a1.tracks@[i];
                            if t0.track_id == Some(track_id) {
                                &&& t1.track_id == t0.track_id
                                &&& t1.metadata@ == t0.metadata@
                                &&& t1.owners == t0.owners
                                &&& t1.price == t0.price
                                &&& t1.share_profits@ == updated_share_profits@
                            } else {
                                t1 == t0
                            }
                        }
                    &&& final(self).albums@.remove(k) == old(self).albums@.remove(k)
                    &&& final(self).next_album_id@ == old(self).next_album_id@
                    &&& final(self).events@ == old(self).events@.push(
                        Event::UpdatedShareProfitListAlbumtracks { collection_id, album_id },
                    )
                    &&& eq_ledger(*old(self), *final(self))
                    &&& eq_config(*old(self), *final(self))
                    &&& eq_collections(*old(self), *final(self))
                    &&& eq_nfts(*old(self), *final(self))
                    &&& eq_user_indexes(*old(self), *final(self))
                    &&& eq_likes(*old(self), *final(self))
                    &&& eq_auctions(*old(self), *final(self))
                    &&& eq_marketplaces(*old(self), *final(self))
                },
            },
    {
        if let Err(e) = self.get_collection(collection_id) {
            return Err(e);
        }
        let k = make_pair_key(collection_id, album_id);
        let mut album = match self.albums.remove(&k) {
            Some(al) => al,
            None => {
                proof {
                    assert(self.albums@ =~= old(self).albums@);
                }
                return Err(Error::AlbumNotFound);
            },
        };
        if album.issuer != issuer {
            self.albums.insert(k, album);
            proof {
                assert(self.albums@ =~= old(self).albums@);
            }
            return Err(Error::NoPermission);
        }
        let ghost tracks0 = album.tracks@;
        let ghost meta0 = album.metadata@;
        let ghost issuer0 = album.issuer;
        let ghost owners0 = album.owners;
        let ghost royalty0 = album.royalty;
        let ghost end0 = album.end_date;
        let mut i: usize = 0;
        while i < album.tracks.len()
            invariant
                0 <= i <= tracks0.len(),
                album.tracks@.len() == tracks0.len(),
                album.metadata@ == meta0,
                album.issuer == issuer0,
                album.owners == owners0,
                album.royalty == royalty0,
                album.end_date == end0,
                forall|j: int|
                    0 <= j < i ==> {
                        let t0 = tracks0[j];
                        let t1 = #[trigger] album.tracks@[j];
                        if t0.track_id == Some(track_id) {
                            &&& t1.track_id == t0.track_id
                            &&& t1.metadata@ == t0.metadata@
                            &&& t1.owners == t0.owners
                            &&& t1.price == t0.price
                            &&& t1.share_profits@ == updated_share_profits@
                        } else {
                            t1 == t0
                        }
                    },
                forall|j: int| i <= j < tracks0.len() ==> album.tracks@[j] == tracks0[j],
            decreases tracks0.len() - i,
        {
            let matches_track = match album.tracks[i].track_id {
                Some(t) => t == track_id,
                None => false,
            };
            if matches_track {
                album.tracks[i].share_profits = copy_vec(&updated_share_profits);
            }
            i += 1;
        }
        self.albums.insert(k, album);
        self.events.push(Event::UpdatedShareProfitListAlbumtracks { collection_id, album_id });
        proof {
            assert(self.albums@.remove(pair_key(collection_id, album_id)) =~= old(
                self,
            ).albums@.remove(pair_key(collection_id, album_id)));
        }
        Ok(())
    }
}

} // verus!
