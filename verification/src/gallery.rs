//! Marketplace stores: creation, fee payments to store owners, royalty
//! ceilings, listing updates and selling a store to a new owner.

use vstd::prelude::*;

use crate::errors::Error;
use crate::ledger::{spec_transfer, AccountState, ExistenceRequirement};
use crate::market::{
    eq_albums, eq_auctions, eq_collections, eq_config, eq_events, eq_ledger, eq_likes,
    eq_marketplaces, eq_nfts, eq_user_indexes, same_state, Market,
};
use crate::types::{pair_key, make_pair_key, AccountId, Balance, Event, HashId, Marketplace};

verus! {

/// Whether a stored marketplace has exactly these fields.
pub open spec fn marketplace_is(
    m: Marketplace,
    metadata: Seq<u8>,
    owner: AccountId,
    issuer: AccountId,
    fee: Balance,
    hash_id: HashId,
    export_fee: Balance,
    import_fee: Balance,
    max_royalty: u64,
    royalty_fee: u64,
) -> bool {
    &&& m.metadata@ == metadata
    &&& m.owner == owner
    &&& m.issuer == issuer
    &&& m.fee == fee
    &&& m.hash_id == hash_id
    &&& m.export_fee == export_fee
    &&& m.import_fee == import_fee
    &&& m.max_royalty == max_royalty
    &&& m.royalty_fee == royalty_fee
}

/// What [`Market::send_fee_to_market_place_owner`] does to the ledger, or
/// why it fails: the store must exist, and its fixed fee is paid by
/// `issuer` to the store's owner with `AllowDeath`; a failed payment is
/// reported as `ErrorTransferMarketPlaceFee`.
pub open spec fn spec_send_fee(
    a: Market,
    issuer: AccountId,
    owner: AccountId,
    store_hash: HashId,
    fee: u64,
) -> Result<Map<AccountId, AccountState>, Error> {
    let k = pair_key(owner, store_hash);
    if !a.marketplaces@.contains_key(k) {
        Err(Error::MarketNotFound)
    } else {
        match spec_transfer(
            a.ledger@,
            a.ledger.min_balance,
            issuer,
            a.marketplaces@[k].owner,
            fee,
            ExistenceRequirement::AllowDeath,
        ) {
            Ok(m2) => Ok(m2),
            Err(_) => Err(Error::ErrorTransferMarketPlaceFee),
        }
    }
}

impl Market {
    /// The royalty ceiling and royalty fee of the store
    /// `(issuer, store_id)`.
    pub fn get_market_place_fee(&self, issuer: AccountId, store_id: HashId) -> (r: Result<
        (u64, u64),
        Error,
    >)
        ensures
            match r {
                Ok(p) => self.marketplaces@.contains_key(pair_key(issuer, store_id)) && p == (
                    self.marketplaces@[pair_key(issuer, store_id)].max_royalty,
                    self.marketplaces@[pair_key(issuer, store_id)].royalty_fee,
                ),
                Err(e) => e == Error::MarketNotFound && !self.marketplaces@.contains_key(
                    pair_key(issuer, store_id),
                ),
            },
    {
        let k = make_pair_key(issuer, store_id);
        match self.marketplaces.get(&k) {
            Some(info) => Ok((info.max_royalty, info.royalty_fee)),
            None => Err(Error::MarketNotFound),
        }
    }

    /// Checks that `royalty_fee` does not exceed the store's royalty
    /// ceiling.
    pub fn check_allow_royalty(
        &self,
        store_owner: AccountId,
        store_hash: HashId,
        royalty_fee: u64,
    ) -> (r: Result<(), Error>)
        ensures
            r == (if !self.marketplaces@.contains_key(pair_key(store_owner, store_hash)) {
                Err::<(), Error>(Error::MarketNotFound)
            } else if self.marketplaces@[pair_key(store_owner, store_hash)].max_royalty
                < royalty_fee {
                Err::<(), Error>(Error::NotAllowSetRoyaltyOverThanStoreConfig)
            } else {
                Ok::<(), Error>(())
            }),
    {
        let k = make_pair_key(store_owner, store_hash);
        match self.marketplaces.get(&k) {
            Some(info) => if info.max_royalty < royalty_fee {
                Err(Error::NotAllowSetRoyaltyOverThanStoreConfig)
            } else {
                Ok(())
            },
            None => Err(Error::MarketNotFound),
        }
    }

    /// Pays the fixed fee of the store `(owner, store_hash)` from `issuer`
    /// to the store's owner.
    pub fn send_fee_to_market_place_owner(
        &mut self,
        issuer: AccountId,
        owner: AccountId,
        store_hash: HashId,
    ) -> (r: Result<(), Error>)
        requires
            old(self).wf(),
        ensures
            final(self).wf(),
            match spec_send_fee(
                *old(self),
                issuer,
                owner,
                store_hash,
                if old(self).marketplaces@.contains_key(pair_key(owner, store_hash)) {
                    old(self).marketplaces@[pair_key(owner, store_hash)].fee
                } else {
                    0
                },
            ) {
                Err(e) => r == Err::<(), Error>(e) && same_state(*old(self), *final(self)),
                Ok(m2) => r is Ok && final(self).ledger@ == m2 && final(self).ledger.min_balance
                    == old(self).ledger.min_balance && eq_config(*old(self), *final(self))
                    && eq_collections(*old(self), *final(self)) && eq_nfts(*old(self), *final(self))
                    && eq_albums(*old(self), *final(self)) && eq_user_indexes(
                    *old(self),
                    *final(self),
                ) && eq_likes(*old(self), *final(self)) && eq_auctions(*old(self), *final(self))
                    && eq_marketplaces(*old(self), *final(self)) && eq_events(
                    *old(self),
                    *final(self),
                ),
            },
    {
        let k = make_pair_key(owner, store_hash);
        let (store_owner, fee) = match self.marketplaces.get(&k) {
            Some(info) => (info.owner, info.fee),
            None => {
                return Err(Error::MarketNotFound);
            },
        };
        match self.ledger.transfer(issuer, store_owner, fee, ExistenceRequirement::AllowDeath) {
            Ok(()) => Ok(()),
            Err(_) => Err(Error::ErrorTransferMarketPlaceFee),
        }
    }

    /// Pays `fee` from `issuer` to the owner of the store
    /// `(owner, store_hash)`, as the royalty cut owed to the store.
    pub fn send_royalty_fee_to_market_place_owner(
        &mut self,
        issuer: AccountId,
        owner: AccountId,
        store_hash: HashId,
        fee: Balance,
    ) -> (r: Result<(), Error>)
        requires
            old(self).wf(),
        ensures
            final(self).wf(),
            match spec_send_fee(*old(self), issuer, owner, store_hash, fee) {
                Err(e) => r == Err::<(), Error>(e) && same_state(*old(self), *final(self)),
                Ok(m2) => r is Ok && final(self).ledger@ == m2 && final(self).ledger.min_balance
                    == old(self).ledger.min_balance && eq_config(*old(self), *final(self))
                    && eq_collections(*old(self), *final(self)) && eq_nfts(*old(self), *final(self))
                    && eq_albums(*old(self), *final(self)) && eq_user_indexes(
                    *old(self),
                    *final(self),
                ) && eq_likes(*old(self), *final(self)) && eq_auctions(*old(self), *final(self))
                    && eq_marketplaces(*old(self), *final(self)) && eq_events(
                    *old(self),
                    *final(self),
                ),
            },
    {
        let k = make_pair_key(owner, store_hash);
        let store_owner = match self.marketplaces.get(&k) {
            Some(info) => info.owner,
            None => {
                return Err(Error::MarketNotFound);
            },
        };
        match self.ledger.transfer(issuer, store_owner, fee, ExistenceRequirement::AllowDeath) {
            Ok(()) => Ok(()),
            Err(_) => Err(Error::ErrorTransferMarketPlaceFee),
        }
    }

    /// Creates (or overwrites) the marketplace store keyed by the issuer
    /// and the hash of its metadata; the caller supplies that hash.
    pub fn create_market_place(
        &mut self,
        issuer: AccountId,
        metadata: Vec<u8>,
        hash_id: HashId,
        fee: Balance,
        export_fee: Balance,
        import_fee: Balance,
        max_royalty: u64,
        royalty_fee: u64,
    ) -> (r: Result<(), Error>)
        requires
            old(self).wf(),
        ensures
            final(self).wf(),
            r is Ok,
            created_market_place_post(
                *old(self),
                *final(self),
                issuer,
                metadata@,
                hash_id,
                fee,
                export_fee,
                import_fee,
                max_royalty,
                royalty_fee,
            ),
    {
        self.do_create_market_place(
            issuer,
            metadata,
            hash_id,
            fee,
            export_fee,
            import_fee,
            max_royalty,
            royalty_fee,
        )
    }

    /// Stores the marketplace under `(issuer, hash_id)`, with the issuer
    /// as its first owner, and logs `CreateMarketPlace`.
    pub fn do_create_market_place(
        &mut self,
        issuer: AccountId,
        metadata: Vec<u8>,
        hash_id: HashId,
        fee: Balance,
        export_fee: Balance,
        import_fee: Balance,
        max_royalty: u64,
        royalty_fee: u64,
    ) -> (r: Result<(), Error>)
        requires
            old(self).wf(),
        ensures
            final(self).wf(),
            r is Ok,
            created_market_place_post(
                *old(self),
                *final(self),
                issuer,
                metadata@,
                hash_id,
                fee,
                export_fee,
                import_fee,
                max_royalty,
                royalty_fee,
            ),
    {
        let k = make_pair_key(issuer, hash_id);
        let store = Marketplace {
            metadata,
            owner: issuer,
            issuer,
            fee,
            hash_id,
            export_fee,
            import_fee,
            max_royalty,
            royalty_fee,
        };
        self.marketplaces.insert(k, store);
        self.events.push(
            Event::CreateMarketPlace {
                owner: issuer,
                issuer,
                fee,
                hash_id,
                export_fee,
                import_fee,
                max_royalty,
                royalty_fee,
            },
        );
        proof {
            assert(self.marketplaces@.remove(pair_key(issuer, hash_id)) =~= old(
                self,
            ).marketplaces@.remove(pair_key(issuer, hash_id)));
        }
        Ok(())
    }

    /// Sells the store `(original_owner, store_hash_id)` to `new_owner`
    /// for `price`: the new owner pays the original owner with
    /// `KeepAlive`, and the store moves under the new owner's key.
    pub fn change_owner(
        &mut self,
        original_owner: AccountId,
        new_owner: AccountId,
        store_hash_id: HashId,
        price: Balance,
    ) -> (r: Result<(), Error>)
        requires
            old(self).wf(),
        ensures
            final(self).wf(),
            match spec_change_owner(*old(self), original_owner, new_owner, store_hash_id, price) {
                Err(e) => r == Err::<(), Error>(e) && same_state(*old(self), *final(self)),
                Ok(m2) => r is Ok && final(self).ledger@ == m2 && changed_owner_post(
                    *old(self),
                    *final(self),
                    original_owner,
                    new_owner,
                    store_hash_id,
                    price,
                ),
            },
    {
        self.do_change_owner(original_owner, new_owner, store_hash_id, price)
    }

    /// The working part of [`Market::change_owner`].
    pub fn do_change_owner(
        &mut self,
        original_owner: AccountId,
        new_owner: AccountId,
        store_hash_id: HashId,
        price: Balance,
    ) -> (r: Result<(), Error>)
        requires
            old(self).wf(),
        ensures
            final(self).wf(),
            match spec_change_owner(*old(self), original_owner, new_owner, store_hash_id, price) {
                Err(e) => r == Err::<(), Error>(e) && same_state(*old(self), *final(self)),
                Ok(m2) => r is Ok && final(self).ledger@ == m2 && changed_owner_post(
                    *old(self),
                    *final(self),
                    original_owner,
                    new_owner,
                    store_hash_id,
                    price,
                ),
            },
    {
        let k_old = make_pair_key(original_owner, store_hash_id);
        let info = match self.marketplaces.remove(&k_old) {
            Some(info) => info,
            None => {
                proof {
                    assert(self.marketplaces@ =~= old(self).marketplaces@);
                }
                return Err(Error::MarketNotFound);
            },
        };
        match self.ledger.transfer(
            new_owner,
            original_owner,
            price,
            ExistenceRequirement::KeepAlive,
        ) {
            Ok(()) => {},
            Err(e) => {
                self.marketplaces.insert(k_old, info);
                proof {
                    assert(self.marketplaces@ =~= old(self).marketplaces@);
                }
                return Err(e);
            },
        }
        let moved = Marketplace {
            metadata: info.metadata,
            owner: new_owner,
            issuer: info.issuer,
            fee: info.fee,
            hash_id: info.hash_id,
            export_fee: info.export_fee,
            import_fee: info.import_fee,
            max_royalty: info.max_royalty,
            royalty_fee: info.royalty_fee,
        };
        let k_new = make_pair_key(new_owner, store_hash_id);
        self.marketplaces.insert(k_new, moved);
        self.events.push(
            Event::MarketplaceOwnerChanges {
                old_owner: original_owner,
                new_owner,
                price,
                hash_id: store_hash_id,
            },
        );
        proof {
            assert(self.marketplaces@.remove(pair_key(new_owner, store_hash_id)) =~= old(
                self,
            ).marketplaces@.remove(pair_key(original_owner, store_hash_id)).remove(
                pair_key(new_owner, store_hash_id),
            ));
        }
        Ok(())
    }

    /// Rewrites the listing data of the store `(issuer, store_hash_id)`;
    /// the owner, issuer and hash key are kept.
    pub fn change_marketplace_info(
        &mut self,
        issuer: AccountId,
        store_hash_id: HashId,
        metadata: Vec<u8>,
        fee: Balance,
        export_fee: Balance,
        import_fee: Balance,
        max_royalty: u64,
        royalty_fee: u64,
    ) -> (r: Result<(), Error>)
        requires
            old(self).wf(),
        ensures
            final(self).wf(),
            !old(self).marketplaces@.contains_key(pair_key(issuer, store_hash_id)) ==> r == Err::<
                (),
                Error,
            >(Error::MarketNotFound) && same_state(*old(self), *final(self)),
            old(self).marketplaces@.contains_key(pair_key(issuer, store_hash_id))
                ==> r is Ok && changed_marketplace_info_post(
                *old(self),
                *final(self),
                issuer,
                store_hash_id,
                metadata@,
                fee,
                export_fee,
                import_fee,
                max_royalty,
                royalty_fee,
            ),
    {
        self.do_change_marketplace_info(
            issuer,
            store_hash_id,
            metadata,
            fee,
            export_fee,
            import_fee,
            max_royalty,
            royalty_fee,
        )
    }

    /// The working part of [`Market::change_marketplace_info`].
    pub fn do_change_marketplace_info(
        &mut self,
        issuer: AccountId,
        store_hash_id: HashId,
        metadata: Vec<u8>,
        fee: Balance,
        export_fee: Balance,
        import_fee: Balance,
        max_royalty: u64,
        royalty_fee: u64,
    ) -> (r: Result<(), Error>)
        requires
            old(self).wf(),
        ensures
            final(self).wf(),
            !old(self).marketplaces@.contains_key(pair_key(issuer, store_hash_id)) ==> r == Err::<
                (),
                Error,
            >(Error::MarketNotFound) && same_state(*old(self), *final(self)),
            old(self).marketplaces@.contains_key(pair_key(issuer, store_hash_id))
                ==> r is Ok && changed_marketplace_info_post(
                *old(self),
                *final(self),
                issuer,
                store_hash_id,
                metadata@,
                fee,
                export_fee,
                import_fee,
                max_royalty,
                royalty_fee,
            ),
    {
        let k = make_pair_key(issuer, store_hash_id);
        let info = match self.marketplaces.remove(&k) {
            Some(info) => info,
            None => {
                proof {
                    assert(self.marketplaces@ =~= old(self).marketplaces@);
                }
                return Err(Error::MarketNotFound);
            },
        };
        let updated = Marketplace {
            metadata,
            owner: info.owner,
            issuer: info.issuer,
            fee,
            hash_id: info.hash_id,
            export_fee,
            import_fee,
            max_royalty,
            royalty_fee,
        };
        self.marketplaces.insert(k, updated);
        self.events.push(
            Event::UpdateMarketPlace {
                owner: issuer,
                fee,
                hash_id: store_hash_id,
                export_fee,
                import_fee,
                max_royalty,
                royalty_fee,
            },
        );
        proof {
            assert(self.marketplaces@.remove(pair_key(issuer, store_hash_id)) =~= old(
                self,
            ).marketplaces@.remove(pair_key(issuer, store_hash_id)));
        }
        Ok(())
    }
}

/// The state change of creating a marketplace store: it stands under
/// `(issuer, hash_id)` with the issuer as owner, and `CreateMarketPlace`
/// is logged. Nothing else changes. Creating over an existing store
/// overwrites it.
pub open spec fn created_market_place_post(
    a: Market,
    b: Market,
    issuer: AccountId,
    metadata: Seq<u8>,
    hash_id: HashId,
    fee: Balance,
    export_fee: Balance,
    import_fee: Balance,
    max_royalty: u64,
    royalty_fee: u64,
) -> bool {
    let k = pair_key(issuer, hash_id);
    &&& b.marketplaces@.contains_key(k)
    &&& marketplace_is(
        b.marketplaces@[k],
        metadata,
        issuer,
        issuer,
        fee,
        hash_id,
        export_fee,
        import_fee,
        max_royalty,
        royalty_fee,
    )
    &&& b.marketplaces@.remove(k) == a.marketplaces@.remove(k)
    &&& b.events@ == a.events@.push(
        Event::CreateMarketPlace {
            owner: issuer,
            issuer,
            fee,
            hash_id,
            export_fee,
            import_fee,
            max_royalty,
            royalty_fee,
        },
    )
    &&& eq_ledger(a, b)
    &&& eq_config(a, b)
    &&& eq_collections(a, b)
    &&& eq_nfts(a, b)
    &&& eq_albums(a, b)
    &&& eq_user_indexes(a, b)
    &&& eq_likes(a, b)
    &&& eq_auctions(a, b)
}

/// Why [`Market::change_owner`] fails, or the ledger it commits: the
/// store must exist under the original owner, and the new owner must be
/// able to pay the price with `KeepAlive`.
pub open spec fn spec_change_owner(
    a: Market,
    original_owner: AccountId,
    new_owner: AccountId,
    store_hash_id: HashId,
    price: Balance,
) -> Result<Map<AccountId, AccountState>, Error> {
    if !a.marketplaces@.contains_key(pair_key(original_owner, store_hash_id)) {
        Err(Error::MarketNotFound)
    } else {
        spec_transfer(
            a.ledger@,
            a.ledger.min_balance,
            new_owner,
            original_owner,
            price,
            ExistenceRequirement::KeepAlive,
        )
    }
}

/// The state change of a successful ownership sale: the store leaves the
/// original owner's key, reappears under the new owner's key with its
/// `owner` field updated, and `MarketplaceOwnerChanges` is logged.
pub open spec fn changed_owner_post(
    a: Market,
    b: Market,
    original_owner: AccountId,
    new_owner: AccountId,
    store_hash_id: HashId,
    price: Balance,
) -> bool {
    let k_old = pair_key(original_owner, store_hash_id);
    let k_new = pair_key(new_owner, store_hash_id);
    let info = a.marketplaces@[k_old];
    &&& b.marketplaces@.contains_key(k_new)
    &&& marketplace_is(
        b.marketplaces@[k_new],
        info.metadata@,
        new_owner,
        info.issuer,
        info.fee,
        info.hash_id,
        info.export_fee,
        info.import_fee,
        info.max_royalty,
        info.royalty_fee,
    )
    &&& b.marketplaces@.remove(k_new) == a.marketplaces@.remove(k_old).remove(k_new)
    &&& b.events@ == a.events@.push(
        Event::MarketplaceOwnerChanges {
            old_owner: original_owner,
            new_owner,
            price,
            hash_id: store_hash_id,
        },
    )
    &&& b.ledger.min_balance == a.ledger.min_balance
    &&& eq_config(a, b)
    &&& eq_collections(a, b)
    &&& eq_nfts(a, b)
    &&& eq_albums(a, b)
    &&& eq_user_indexes(a, b)
    &&& eq_likes(a, b)
    &&& eq_auctions(a, b)
}

/// The state change of rewriting a store's listing data: metadata and
/// fees are replaced, owner, issuer and key are kept, and
/// `UpdateMarketPlace` is logged.
pub open spec fn changed_marketplace_info_post(
    a: Market,
    b: Market,
    issuer: AccountId,
    store_hash_id: HashId,
    metadata: Seq<u8>,
    fee: Balance,
    export_fee: Balance,
    import_fee: Balance,
    max_royalty: u64,
    royalty_fee: u64,
) -> bool {
    let k = pair_key(issuer, store_hash_id);
    let info = a.marketplaces@[k];
    &&& b.marketplaces@.contains_key(k)
    &&& marketplace_is(
        b.marketplaces@[k],
        metadata,
        info.owner,
        info.issuer,
        fee,
        info.hash_id,
        export_fee,
        import_fee,
        max_royalty,
        royalty_fee,
    )
    &&& b.marketplaces@.remove(k) == a.marketplaces@.remove(k)
    &&& b.events@ == a.events@.push(
        Event::UpdateMarketPlace {
            owner: issuer,
            fee,
            hash_id: store_hash_id,
            export_fee,
            import_fee,
            max_royalty,
            royalty_fee,
        },
    )
    &&& eq_ledger(a, b)
    &&& eq_config(a, b)
    &&& eq_collections(a, b)
    &&& eq_nfts(a, b)
    &&& eq_albums(a, b)
    &&& eq_user_indexes(a, b)
    &&& eq_likes(a, b)
    &&& eq_auctions(a, b)
}

} // verus!
