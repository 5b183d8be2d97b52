//! Sale settlement: direct purchases and seller-to-buyer sales of NFTs
//! and albums, composing the ledger's escrow releases, the royalty/fee
//! split and the ownership transfer into one atomic step.

use vstd::prelude::*;

use crate::calc::{
    calc_royalty_and_fee, calc_total_price, calc_transfer_amount_with_percentage,
    spec_royalty_and_fee, spec_share_amount, spec_total_price,
};
use crate::catalog::index_list_of;
use crate::errors::Error;
use crate::ledger::{
    spec_reserve, spec_transfer, spec_unreserve, AccountState, ExistenceRequirement, Ledger,
};
use crate::market::{
    eq_albums, eq_auctions, eq_collections, eq_config, eq_likes, eq_marketplaces, eq_nfts,
    same_state, Market,
};
use crate::owners::{acquire, find_index_owner, owner_lookup, partial_transfer};
use crate::types::{
    make_pair_key, pair_key, AccountId, Album, AlbumTracks, CollectionId, Event, NFTId, Owners,
    ShareProfitsInfo, NFT,
};

verus! {

/// The owner list an item carries, the empty sequence when it has none.
pub open spec fn owners_seq(o: Option<Vec<Owners>>) -> Seq<Owners> {
    match o {
        Some(v) => v@,
        Option::None => Seq::empty(),
    }
}

/// The ledger after paying each stakeholder of `infos`, in order, their
/// share `price * total_supply * percentage / 100` out of `buyer`'s free
/// balance, or the first failure: `NumOverflow` from the share formula, or
/// a transfer failure. Transfers use `AllowDeath`.
pub open spec fn spec_distribute(
    m: Map<AccountId, AccountState>,
    min_balance: u64,
    buyer: AccountId,
    infos: Seq<ShareProfitsInfo>,
    price: u64,
    total_supply: u64,
) -> Result<Map<AccountId, AccountState>, Error>
    decreases infos.len(),
{
    if infos.len() == 0 {
        Ok(m)
    } else {
        match spec_share_amount(price, total_supply, infos[0].percentage) {
            Err(e) => Err(e),
            Ok(amt) => match spec_transfer(
                m,
                min_balance,
                buyer,
                infos[0].owner_address,
                amt,
                ExistenceRequirement::AllowDeath,
            ) {
                Err(e) => Err(e),
                Ok(m2) => spec_distribute(
                    m2,
                    min_balance,
                    buyer,
                    infos.subrange(1, infos.len() as int),
                    price,
                    total_supply,
                ),
            },
        }
    }
}

/// The ledger side of a sale settlement: release the buyer's bid escrow
/// and the seller's listing escrow, split the price into royalty, fee and
/// remainder, and pay royalty and fee to the item's issuer and the
/// remainder to the seller, all with `KeepAlive`. The first failing step
/// decides the error.
pub open spec fn spec_sell_ledger(
    m: Map<AccountId, AccountState>,
    min_balance: u64,
    buyer: AccountId,
    seller: AccountId,
    issuer: AccountId,
    price: u64,
    auction_start_price: u64,
    royalty: u64,
    royalty_fee: u64,
) -> Result<Map<AccountId, AccountState>, Error> {
    let m1 = spec_unreserve(m, buyer, price);
    let m2 = spec_unreserve(m1, seller, auction_start_price);
    match spec_royalty_and_fee(royalty, price, royalty_fee) {
        Err(e) => Err(e),
        Ok((ra, fa)) => if ra + fa > u64::MAX {
            Err(Error::NumOverflow)
        } else if price < ra + fa {
            Err(Error::ArithmeticUnderflow)
        } else {
            match spec_transfer(m2, min_balance, buyer, issuer, ra, ExistenceRequirement::KeepAlive) {
                Err(e) => Err(e),
                Ok(m3) => match spec_transfer(
                    m3,
                    min_balance,
                    buyer,
                    issuer,
                    fa,
                    ExistenceRequirement::KeepAlive,
                ) {
                    Err(e) => Err(e),
                    Ok(m4) => spec_transfer(
                        m4,
                        min_balance,
                        buyer,
                        seller,
                        (price - ra - fa) as u64,
                        ExistenceRequirement::KeepAlive,
                    ),
                },
            }
        },
    }
}

/// The ledger after buying `total_supply` units of every track of an
/// album, in order: for each track, the buyer's balance is put in escrow
/// for the track's total price and the track's stakeholders are paid their
/// shares. The first failing step decides the error; a failed escrow
/// reservation is reported as `CanNotReserveCurrency`.
pub open spec fn spec_buy_album_ledger(
    m: Map<AccountId, AccountState>,
    min_balance: u64,
    buyer: AccountId,
    tracks: Seq<AlbumTracks>,
    total_supply: u64,
) -> Result<Map<AccountId, AccountState>, Error>
    decreases tracks.len(),
{
    if tracks.len() == 0 {
        Ok(m)
    } else {
        match spec_total_price(tracks[0].price, total_supply) {
            Err(e) => Err(e),
            Ok(tp) => match spec_reserve(m, buyer, tp) {
                Err(_) => Err(Error::CanNotReserveCurrency),
                Ok(m1) => match spec_distribute(
                    m1,
                    min_balance,
                    buyer,
                    tracks[0].share_profits@,
                    tracks[0].price,
                    total_supply,
                ) {
                    Err(e) => Err(e),
                    Ok(m2) => spec_buy_album_ledger(
                        m2,
                        min_balance,
                        buyer,
                        tracks.subrange(1, tracks.len() as int),
                        total_supply,
                    ),
                },
            },
        }
    }
}

/// Pays each stakeholder of `infos` their share of the sale out of
/// `buyer`'s free balance. On failure the ledger is left mid-way; callers
/// roll back from a snapshot.
pub fn do_transfer_nft_share_profit(
    ledger: &mut Ledger,
    buyer: AccountId,
    infos: &Vec<ShareProfitsInfo>,
    price: u64,
    total_supply: u64,
) -> (r: Result<(), Error>)
    requires
        old(ledger).wf(),
    ensures
        final(ledger).wf(),
        final(ledger).min_balance == old(ledger).min_balance,
        match spec_distribute(
            old(ledger)@,
            old(ledger).min_balance,
            buyer,
            infos@,
            price,
            total_supply,
        ) {
            Ok(m2) => r is Ok && final(ledger)@ == m2,
            Err(e) => r == Err::<(), Error>(e),
        },
{
    let ghost m0 = ledger@;
    let ghost mb = ledger.min_balance;
    proof {
        assert(infos@.subrange(0, infos@.len() as int) =~= infos@);
    }
    let mut i: usize = 0;
    while i < infos.len()
        invariant
            0 <= i <= infos@.len(),
            ledger.wf(),
            m0 == old(ledger)@,
            mb == old(ledger).min_balance,
            ledger.min_balance == mb,
            spec_distribute(m0, mb, buyer, infos@, price, total_supply) == spec_distribute(
                ledger@,
                mb,
                buyer,
                infos@.subrange(i as int, infos@.len() as int),
                price,
                total_supply,
            ),
        decreases infos@.len() - i,
    {
        let ghost rest = infos@.subrange(i as int, infos@.len() as int);
        proof {
            assert(rest[0] == infos@[i as int]);
            assert(rest.subrange(1, rest.len() as int) =~= infos@.subrange(
                i + 1 as int,
                infos@.len() as int,
            ));
        }
        let amt = match calc_transfer_amount_with_percentage(
            price,
            total_supply,
            infos[i].percentage,
        ) {
            Ok(a) => a,
            Err(e) => {
                proof {
                    assert(spec_distribute(ledger@, mb, buyer, rest, price, total_supply) == Err::<
                        Map<AccountId, AccountState>,
                        Error,
                    >(e));
                }
                return Err(e);
            },
        };
        match ledger.transfer(
            buyer,
            infos[i].owner_address,
            amt,
            ExistenceRequirement::AllowDeath,
        ) {
            Ok(()) => {},
            Err(e) => {
                proof {
                    assert(spec_distribute(ledger@, mb, buyer, rest, price, total_supply) == Err::<
                        Map<AccountId, AccountState>,
                        Error,
                    >(e));
                }
                return Err(e);
            },
        }
        i += 1;
    }
    proof {
        assert(infos@.subrange(infos@.len() as int, infos@.len() as int) =~= Seq::<
            ShareProfitsInfo,
        >::empty());
    }
    Ok(())
}

/// Runs the ledger side of a sale settlement. On failure the ledger is
/// left mid-way; callers roll back from a snapshot.
pub(crate) fn sell_ledger_phase(
    ledger: &mut Ledger,
    buyer: AccountId,
    seller: AccountId,
    issuer: AccountId,
    price: u64,
    auction_start_price: u64,
    royalty: u64,
    royalty_fee: u64,
) -> (r: Result<(), Error>)
    requires
        old(ledger).wf(),
    ensures
        final(ledger).wf(),
        final(ledger).min_balance == old(ledger).min_balance,
        match spec_sell_ledger(
            old(ledger)@,
            old(ledger).min_balance,
            buyer,
            seller,
            issuer,
            price,
            auction_start_price,
            royalty,
            royalty_fee,
        ) {
            Ok(m2) => r is Ok && final(ledger)@ == m2,
            Err(e) => r == Err::<(), Error>(e),
        },
{
    ledger.unreserve(buyer, price);
    ledger.unreserve(seller, auction_start_price);
    let (ra, fa) = match calc_royalty_and_fee(royalty, price, royalty_fee) {
        Ok(x) => x,
        Err(e) => {
            return Err(e);
        },
    };
    let rf = match ra.checked_add(fa) {
        Some(x) => x,
        None => {
            return Err(Error::NumOverflow);
        },
    };
    if price < rf {
        return Err(Error::ArithmeticUnderflow);
    }
    let remaining = price - rf;
    match ledger.transfer(buyer, issuer, ra, ExistenceRequirement::KeepAlive) {
        Ok(()) => {},
        Err(e) => {
            return Err(e);
        },
    }
    match ledger.transfer(buyer, issuer, fa, ExistenceRequirement::KeepAlive) {
        Ok(()) => {},
        Err(e) => {
            return Err(e);
        },
    }
    match ledger.transfer(buyer, seller, remaining, ExistenceRequirement::KeepAlive) {
        Ok(()) => {},
        Err(e) => {
            return Err(e);
        },
    }
    Ok(())
}

/// What [`Market::buy_nft`] does to the ledger, or why it fails: the NFT
/// must exist, the buyer's balance is put in escrow for the NFT's listed
/// price, and the NFT's stakeholders are paid their shares of `price *
/// total_supply`.
pub open spec fn spec_buy_nft(
    a: Market,
    buyer: AccountId,
    cid: CollectionId,
    nid: NFTId,
    total_supply: u64,
) -> Result<Map<AccountId, AccountState>, Error> {
    let k = pair_key(cid, nid);
    if !a.nfts@.contains_key(k) {
        Err(Error::NFTNotFound)
    } else {
        let nft = a.nfts@[k];
        match spec_reserve(a.ledger@, buyer, nft.price) {
            Err(_) => Err(Error::CanNotReserveCurrency),
            Ok(m1) => spec_distribute(
                m1,
                a.ledger.min_balance,
                buyer,
                nft.share_profits@,
                nft.price,
                total_supply,
            ),
        }
    }
}

/// The catalog side of a successful direct NFT purchase: a fresh owner
/// record for the buyer is appended (never merged), the buyer's personal
/// index gains the item, and `TransferredNFT` is logged. Everything not
/// named here is unchanged.
pub open spec fn bought_nft_post(
    a: Market,
    b: Market,
    buyer: AccountId,
    cid: CollectionId,
    nid: NFTId,
    total_supply: u64,
) -> bool {
    let k = pair_key(cid, nid);
    let n0 = a.nfts@[k];
    let n1 = b.nfts@[k];
    &&& b.nfts@.contains_key(k)
    &&& match n1.owners {
        Some(v1) => v1@ == owners_seq(n0.owners).push(
            Owners { total_supply, address: buyer },
        ),
        Option::None => false,
    }
    &&& n1.metadata@ == n0.metadata@
    &&& n1.issuer == n0.issuer
    &&& n1.share_profits@ == n0.share_profits@
    &&& n1.price == n0.price
    &&& n1.royalty == n0.royalty
    &&& n1.end_date == n0.end_date
    &&& b.nfts@.remove(k) == a.nfts@.remove(k)
    &&& b.next_nft_id@ == a.next_nft_id@
    &&& b.user_nfts@.contains_key(buyer)
    &&& b.user_nfts@[buyer]@ == index_list_of(a.user_nfts@, buyer).push((cid, nid))
    &&& b.user_nfts@.remove(buyer) == a.user_nfts@.remove(buyer)
    &&& b.user_albums@ == a.user_albums@
    &&& b.events@ == a.events@.push(
        Event::TransferredNFT {
            collection_id: cid,
            token_id: nid,
            quantity: 1,
            from: buyer,
            to: buyer,
            price: n0.price,
        },
    )
    &&& b.ledger.min_balance == a.ledger.min_balance
    &&& eq_config(a, b)
    &&& eq_collections(a, b)
    &&& eq_albums(a, b)
    &&& eq_likes(a, b)
    &&& eq_auctions(a, b)
    &&& eq_marketplaces(a, b)
}

/// How the personal bought-item index changes in a sale: the buyer's list
/// gains the item; when the sale drained the seller's holding
/// (`zero_case`), every entry for the item is first dropped from the
/// seller's list. Entries of other users are untouched.
pub open spec fn user_index_after_sale(
    a: Map<AccountId, Vec<(CollectionId, NFTId)>>,
    b: Map<AccountId, Vec<(CollectionId, NFTId)>>,
    seller: AccountId,
    buyer: AccountId,
    item: (CollectionId, NFTId),
    zero_case: bool,
) -> bool {
    if !zero_case {
        &&& b.contains_key(buyer)
        &&& b[buyer]@ == index_list_of(a, buyer).push(item)
        &&& b.remove(buyer) == a.remove(buyer)
    } else if seller == buyer {
        &&& b.contains_key(buyer)
        &&& b[buyer]@ == index_list_of(a, buyer).filter(crate::types::ne_pair(item)).push(item)
        &&& b.remove(buyer) == a.remove(buyer)
    } else {
        &&& b.contains_key(seller)
        &&& b.contains_key(buyer)
        &&& b[seller]@ == index_list_of(a, seller).filter(crate::types::ne_pair(item))
        &&& b[buyer]@ == index_list_of(a, buyer).push(item)
        &&& b.remove(seller).remove(buyer) == a.remove(seller).remove(buyer)
    }
}

/// Why [`Market::sell_nft`] fails, or the ledger it commits: the NFT must
/// exist; the ledger settlement of [`spec_sell_ledger`] must go through;
/// the NFT must carry an owner list in which the seller holds at least
/// `total_supply` units; and a seller whose holding is drained must have a
/// personal index entry to clean up.
pub open spec fn spec_sell_nft(
    a: Market,
    seller: AccountId,
    buyer: AccountId,
    cid: CollectionId,
    nid: NFTId,
    price: u64,
    auction_start_price: u64,
    total_supply: u64,
) -> Result<Map<AccountId, AccountState>, Error> {
    let k = pair_key(cid, nid);
    if !a.nfts@.contains_key(k) {
        Err(Error::NFTNotFound)
    } else {
        let nft = a.nfts@[k];
        match spec_sell_ledger(
            a.ledger@,
            a.ledger.min_balance,
            buyer,
            seller,
            nft.issuer,
            price,
            auction_start_price,
            nft.royalty,
            a.config.royalty_fee,
        ) {
            Err(e) => Err(e),
            Ok(m2) => match nft.owners {
                Option::None => Err(Error::OwnersEmpty),
                Some(v) => match owner_lookup(v@, seller) {
                    Option::None => Err(Error::OwnerNotFound),
                    Some(i) => if v@[i].total_supply < total_supply {
                        Err(Error::ArithmeticUnderflow)
                    } else if v@[i].total_supply == total_supply && !a.user_nfts@.contains_key(
                        seller,
                    ) {
                        Err(Error::NotNFTOwner)
                    } else {
                        Ok(m2)
                    },
                },
            },
        }
    }
}

/// The catalog side of a successful NFT sale: the seller's record is
/// debited by `total_supply` (and removed when it reaches zero), a fresh
/// record for the buyer is appended, and the personal indexes are
/// updated. The auction store and the event log are the caller's
/// business: a direct sale leaves the one and logs `NFTSold` into the
/// other, a confirmed auction also drops the auction and logs
/// `Confirmed`.
pub open spec fn sold_nft_core(
    a: Market,
    b: Market,
    seller: AccountId,
    buyer: AccountId,
    cid: CollectionId,
    nid: NFTId,
    price: u64,
    total_supply: u64,
) -> bool {
    let k = pair_key(cid, nid);
    let n0 = a.nfts@[k];
    let n1 = b.nfts@[k];
    let v0 = owners_seq(n0.owners);
    match owner_lookup(v0, seller) {
        Option::None => false,
        Some(i) => {
            let zero_case = v0[i].total_supply == total_supply;
            let debited = if zero_case {
                v0.remove(i)
            } else {
                v0.update(
                    i,
                    Owners {
                        total_supply: (v0[i].total_supply - total_supply) as u64,
                        address: seller,
                    },
                )
            };
            &&& b.nfts@.contains_key(k)
            &&& match n1.owners {
                Some(v1) => v1@ == debited.push(Owners { total_supply, address: buyer }),
                Option::None => false,
            }
            &&& n1.metadata@ == n0.metadata@
            &&& n1.issuer == n0.issuer
            &&& n1.share_profits@ == n0.share_profits@
            &&& n1.price == n0.price
            &&& n1.royalty == n0.royalty
            &&& n1.end_date == n0.end_date
            &&& b.nfts@.remove(k) == a.nfts@.remove(k)
            &&& b.next_nft_id@ == a.next_nft_id@
            &&& user_index_after_sale(a.user_nfts@, b.user_nfts@, seller, buyer, (cid, nid), zero_case)
            &&& b.user_albums@ == a.user_albums@
            &&& b.ledger.min_balance == a.ledger.min_balance
            &&& eq_config(a, b)
            &&& eq_collections(a, b)
            &&& eq_albums(a, b)
            &&& eq_likes(a, b)
            &&& eq_marketplaces(a, b)
        },
    }
}


/// Runs the ledger side of an album purchase: per track, escrow the
/// track's total price and pay the track's stakeholders. On failure the
/// ledger is left mid-way; callers roll back from a snapshot.
pub(crate) fn buy_album_ledger_phase(
    ledger: &mut Ledger,
    buyer: AccountId,
    tracks: &Vec<AlbumTracks>,
    total_supply: u64,
) -> (r: Result<(), Error>)
    requires
        old(ledger).wf(),
    ensures
        final(ledger).wf(),
        final(ledger).min_balance == old(ledger).min_balance,
        match spec_buy_album_ledger(
            old(ledger)@,
            old(ledger).min_balance,
            buyer,
            tracks@,
            total_supply,
        ) {
            Ok(m2) => r is Ok && final(ledger)@ == m2,
            Err(e) => r == Err::<(), Error>(e),
        },
{
    let ghost m0 = ledger@;
    let ghost mb = ledger.min_balance;
    proof {
        assert(tracks@.subrange(0, tracks@.len() as int) =~= tracks@);
    }
    let mut i: usize = 0;
    while i < tracks.len()
        invariant
            0 <= i <= tracks@.len(),
            ledger.wf(),
            m0 == old(ledger)@,
            mb == old(ledger).min_balance,
            ledger.min_balance == mb,
            spec_buy_album_ledger(m0, mb, buyer, tracks@, total_supply) == spec_buy_album_ledger(
                ledger@,
                mb,
                buyer,
                tracks@.subrange(i as int, tracks@.len() as int),
                total_supply,
            ),
        decreases tracks@.len() - i,
    {
        let ghost rest = tracks@.subrange(i as int, tracks@.len() as int);
        proof {
            assert(rest[0] == tracks@[i as int]);
            assert(rest.subrange(1, rest.len() as int) =~= tracks@.subrange(
                i + 1 as int,
                tracks@.len() as int,
            ));
        }
        let tp = match calc_total_price(tracks[i].price, total_supply) {
            Ok(v) => v,
            Err(e) => {
                proof {
                    assert(spec_buy_album_ledger(ledger@, mb, buyer, rest, total_supply) == Err::<
                        Map<AccountId, AccountState>,
                        Error,
                    >(e));
                }
                return Err(e);
            },
        };
        match ledger.reserve(buyer, tp) {
            Ok(()) => {},
            Err(_) => {
                return Err(Error::CanNotReserveCurrency);
            },
        }
        match do_transfer_nft_share_profit(
            ledger,
            buyer,
            &tracks[i].share_profits,
            tracks[i].price,
            total_supply,
        ) {
            Ok(()) => {},
            Err(e) => {
                return Err(e);
            },
        }
        i += 1;
    }
    proof {
        assert(tracks@.subrange(tracks@.len() as int, tracks@.len() as int) =~= Seq::<
            AlbumTracks,
        >::empty());
    }
    Ok(())
}

/// What [`Market::buy_album`] does to the ledger, or why it fails: the
/// album must exist, and every track must be paid for as
/// [`spec_buy_album_ledger`] describes.
pub open spec fn spec_buy_album(
    a: Market,
    buyer: AccountId,
    cid: CollectionId,
    aid: NFTId,
    total_supply: u64,
) -> Result<Map<AccountId, AccountState>, Error> {
    let k = pair_key(cid, aid);
    if !a.albums@.contains_key(k) {
        Err(Error::AlbumNotFound)
    } else {
        spec_buy_album_ledger(
            a.ledger@,
            a.ledger.min_balance,
            buyer,
            a.albums@[k].tracks@,
            total_supply,
        )
    }
}

/// The catalog side of a successful album purchase: a fresh owner record
/// for the buyer is appended, the buyer's personal album index gains the
/// item, and `TransferredAlbum` is logged. Everything not named here is
/// unchanged.
pub open spec fn bought_album_post(
    a: Market,
    b: Market,
    buyer: AccountId,
    cid: CollectionId,
    aid: NFTId,
    total_supply: u64,
) -> bool {
    let k = pair_key(cid, aid);
    let a0 = a.albums@[k];
    let a1 = b.albums@[k];
    &&& b.albums@.contains_key(k)
    &&& match a1.owners {
        Some(v1) => v1@ == owners_seq(a0.owners).push(
            Owners { total_supply, address: buyer },
        ),
        Option::None => false,
    }
    &&& a1.metadata@ == a0.metadata@
    &&& a1.issuer == a0.issuer
    &&& a1.tracks@ == a0.tracks@
    &&& a1.royalty == a0.royalty
    &&& a1.end_date == a0.end_date
    &&& b.albums@.remove(k) == a.albums@.remove(k)
    &&& b.next_album_id@ == a.next_album_id@
    &&& b.user_albums@.contains_key(buyer)
    &&& b.user_albums@[buyer]@ == index_list_of(a.user_albums@, buyer).push((cid, aid))
    &&& b.user_albums@.remove(buyer) == a.user_albums@.remove(buyer)
    &&& b.user_nfts@ == a.user_nfts@
    &&& b.events@ == a.events@.push(
        Event::TransferredAlbum { collection_id: cid, album_id: aid, from: a0.issuer, to: buyer },
    )
    &&& b.ledger.min_balance == a.ledger.min_balance
    &&& eq_config(a, b)
    &&& eq_collections(a, b)
    &&& eq_nfts(a, b)
    &&& b.next_nft_id@ == a.next_nft_id@
    &&& eq_likes(a, b)
    &&& eq_auctions(a, b)
    &&& eq_marketplaces(a, b)
}

/// Why [`Market::sell_album`] fails, or the ledger it commits; the album
/// counterpart of [`spec_sell_nft`], with the album's personal index in
/// place of the NFT one.
pub open spec fn spec_sell_album(
    a: Market,
    seller: AccountId,
    buyer: AccountId,
    cid: CollectionId,
    aid: NFTId,
    price: u64,
    auction_start_price: u64,
    total_supply: u64,
) -> Result<Map<AccountId, AccountState>, Error> {
    let k = pair_key(cid, aid);
    if !a.albums@.contains_key(k) {
        Err(Error::AlbumNotFound)
    } else {
        let album = a.albums@[k];
        match spec_sell_ledger(
            a.ledger@,
            a.ledger.min_balance,
            buyer,
            seller,
            album.issuer,
            price,
            auction_start_price,
            album.royalty,
            a.config.royalty_fee,
        ) {
            Err(e) => Err(e),
            Ok(m2) => match album.owners {
                Option::None => Err(Error::OwnersEmpty),
                Some(v) => match owner_lookup(v@, seller) {
                    Option::None => Err(Error::OwnerNotFound),
                    Some(i) => if v@[i].total_supply < total_supply {
                        Err(Error::ArithmeticUnderflow)
                    } else if v@[i].total_supply == total_supply && !a.user_albums@.contains_key(
                        seller,
                    ) {
                        Err(Error::NotNFTOwner)
                    } else {
                        Ok(m2)
                    },
                },
            },
        }
    }
}

/// The catalog side of a successful album sale; the album counterpart of
/// [`sold_nft_post`].
pub open spec fn sold_album_post(
    a: Market,
    b: Market,
    seller: AccountId,
    buyer: AccountId,
    cid: CollectionId,
    aid: NFTId,
    price: u64,
    total_supply: u64,
) -> bool {
    let k = pair_key(cid, aid);
    let a0 = a.albums@[k];
    let a1 = b.albums@[k];
    let v0 = owners_seq(a0.owners);
    match owner_lookup(v0, seller) {
        Option::None => false,
        Some(i) => {
            let zero_case = v0[i].total_supply == total_supply;
            let debited = if zero_case {
                v0.remove(i)
            } else {
                v0.update(
                    i,
                    Owners {
                        total_supply: (v0[i].total_supply - total_supply) as u64,
                        address: seller,
                    },
                )
            };
            &&& b.albums@.contains_key(k)
            &&& match a1.owners {
                Some(v1) => v1@ == debited.push(Owners { total_supply, address: buyer }),
                Option::None => false,
            }
            &&& a1.metadata@ == a0.metadata@
            &&& a1.issuer == a0.issuer
            &&& a1.tracks@ == a0.tracks@
            &&& a1.royalty == a0.royalty
            &&& a1.end_date == a0.end_date
            &&& b.albums@.remove(k) == a.albums@.remove(k)
            &&& b.next_album_id@ == a.next_album_id@
            &&& user_index_after_sale(
                a.user_albums@,
                b.user_albums@,
                seller,
                buyer,
                (cid, aid),
                zero_case,
            )
            &&& b.user_nfts@ == a.user_nfts@
            &&& b.events@ == a.events@.push(
                Event::AlbumSold {
                    collection_id: cid,
                    album_id: aid,
                    price,
                    seller,
                    buyer,
                    royalty: a0.royalty,
                },
            )
            &&& b.ledger.min_balance == a.ledger.min_balance
            &&& eq_config(a, b)
            &&& eq_collections(a, b)
            &&& eq_nfts(a, b)
            &&& b.next_nft_id@ == a.next_nft_id@
            &&& eq_likes(a, b)
            &&& eq_marketplaces(a, b)
        },
    }
}


/// A successful direct NFT sale: the catalog changes of
/// [`sold_nft_core`], no auction change, and `NFTSold` logged.
pub open spec fn sold_nft_post(
    a: Market,
    b: Market,
    seller: AccountId,
    buyer: AccountId,
    cid: CollectionId,
    nid: NFTId,
    price: u64,
    total_supply: u64,
) -> bool {
    &&& sold_nft_core(a, b, seller, buyer, cid, nid, price, total_supply)
    &&& eq_auctions(a, b)
    &&& b.events@ == a.events@.push(
        Event::NFTSold {
            collection_id: cid,
            token_id: nid,
            price,
            seller,
            buyer,
            royalty: a.nfts@[pair_key(cid, nid)].royalty,
        },
    )
}

impl Market {
    /// Buys `total_supply` units of an NFT at its listed price: the
    /// buyer's balance is put in escrow for the price and the NFT's
    /// stakeholders are paid their shares; a fresh owner record is
    /// appended for the buyer. A failure at any step commits nothing.
    pub fn buy_nft(
        &mut self,
        buyer: AccountId,
        collection_id: CollectionId,
        nft_id: NFTId,
        total_supply: u64,
    ) -> (r: Result<(), Error>)
        requires
            old(self).wf(),
        ensures
            final(self).wf(),
            match spec_buy_nft(*old(self), buyer, collection_id, nft_id, total_supply) {
                Err(e) => r == Err::<(), Error>(e) && same_state(*old(self), *final(self)),
                Ok(m2) => r is Ok && final(self).ledger@ == m2 && bought_nft_post(
                    *old(self),
                    *final(self),
                    buyer,
                    collection_id,
                    nft_id,
                    total_supply,
                ),
            },
    {
        let k = make_pair_key(collection_id, nft_id);
        let nft = match self.nfts.remove(&k) {
            Some(n) => n,
            None => {
                proof {
                    assert(self.nfts@ =~= old(self).nfts@);
                }
                return Err(Error::NFTNotFound);
            },
        };
        let saved = self.ledger.snapshot();
        match self.ledger.reserve(buyer, nft.price) {
            Ok(()) => {},
            Err(_) => {
                self.nfts.insert(k, nft);
                proof {
                    assert(self.nfts@ =~= old(self).nfts@);
                }
                return Err(Error::CanNotReserveCurrency);
            },
        }
        match do_transfer_nft_share_profit(
            &mut self.ledger,
            buyer,
            &nft.share_profits,
            nft.price,
            total_supply,
        ) {
            Ok(()) => {},
            Err(e) => {
                self.ledger = saved;
                self.nfts.insert(k, nft);
                proof {
                    assert(self.nfts@ =~= old(self).nfts@);
                }
                return Err(e);
            },
        }
        let price = nft.price;
        let mut olist = match nft.owners {
            Some(v) => v,
            None => Vec::new(),
        };
        acquire(&mut olist, buyer, total_supply);
        let updated = NFT {
            metadata: nft.metadata,
            issuer: nft.issuer,
            owners: Some(olist),
            share_profits: nft.share_profits,
            price: nft.price,
            royalty: nft.royalty,
            end_date: nft.end_date,
        };
        self.nfts.insert(k, updated);
        self.user_buy_nft(buyer, collection_id, nft_id);
        self.events.push(
            Event::TransferredNFT {
                collection_id,
                token_id: nft_id,
                quantity: 1,
                from: buyer,
                to: buyer,
                price,
            },
        );
        proof {
            assert(self.nfts@.remove(pair_key(collection_id, nft_id)) =~= old(self).nfts@.remove(
                pair_key(collection_id, nft_id),
            ));
        }
        Ok(())
    }

    /// Settles a sale of `total_supply` units of an NFT from `seller` to
    /// `buyer` at `price`: releases the buyer's and seller's escrows,
    /// splits the price into royalty, fee and remainder, pays royalty and
    /// fee to the NFT's issuer and the remainder to the seller, debits the
    /// seller's holding and credits the buyer. A failure at any step
    /// commits nothing.
    pub fn sell_nft(
        &mut self,
        seller: AccountId,
        buyer: AccountId,
        collection_id: CollectionId,
        nft_id: NFTId,
        price: u64,
        auction_start_price: u64,
        total_supply: u64,
    ) -> (r: Result<(), Error>)
        requires
            old(self).wf(),
        ensures
            final(self).wf(),
            match spec_sell_nft(
                *old(self),
                seller,
                buyer,
                collection_id,
                nft_id,
                price,
                auction_start_price,
                total_supply,
            ) {
                Err(e) => r == Err::<(), Error>(e) && same_state(*old(self), *final(self)),
                Ok(m2) => r is Ok && final(self).ledger@ == m2 && sold_nft_post(
                    *old(self),
                    *final(self),
                    seller,
                    buyer,
                    collection_id,
                    nft_id,
                    price,
                    total_supply,
                ),
            },
    {
        let k = make_pair_key(collection_id, nft_id);
        let nft = match self.nfts.remove(&k) {
            Some(n) => n,
            None => {
                proof {
                    assert(self.nfts@ =~= old(self).nfts@);
                }
                return Err(Error::NFTNotFound);
            },
        };
        let saved = self.ledger.snapshot();
        match sell_ledger_phase(
            &mut self.ledger,
            buyer,
            seller,
            nft.issuer,
            price,
            auction_start_price,
            nft.royalty,
            self.config.royalty_fee,
        ) {
            Ok(()) => {},
            Err(e) => {
                self.ledger = saved;
                self.nfts.insert(k, nft);
                proof {
                    assert(self.nfts@ =~= old(self).nfts@);
                }
                return Err(e);
            },
        }
        let zero_case: bool;
        {
            let olist = match &nft.owners {
                Some(v) => v,
                None => {
                    self.ledger = saved;
                    self.nfts.insert(k, nft);
                    proof {
                        assert(self.nfts@ =~= old(self).nfts@);
                    }
                    return Err(Error::OwnersEmpty);
                },
            };
            let idx = match find_index_owner(olist, seller) {
                Ok(i) => i,
                Err(_) => {
                    self.ledger = saved;
                    self.nfts.insert(k, nft);
                    proof {
                        assert(self.nfts@ =~= old(self).nfts@);
                    }
                    return Err(Error::OwnerNotFound);
                },
            };
            let held = olist[idx].total_supply;
            if held < total_supply {
                self.ledger = saved;
                self.nfts.insert(k, nft);
                proof {
                    assert(self.nfts@ =~= old(self).nfts@);
                }
                return Err(Error::ArithmeticUnderflow);
            }
            zero_case = held == total_supply;
            if zero_case && !self.user_nfts.contains_key(&seller) {
                self.ledger = saved;
                self.nfts.insert(k, nft);
                proof {
                    assert(self.nfts@ =~= old(self).nfts@);
                }
                return Err(Error::NotNFTOwner);
            }
        }
        let royalty = nft.royalty;
        let mut olist = match nft.owners {
            Some(v) => v,
            None => Vec::new(),
        };
        match partial_transfer(&mut olist, seller, total_supply) {
            Ok(_) => {},
            Err(_) => {
                proof {
                    assert(false);
                }
                return Err(Error::OwnerNotFound);
            },
        }
        if zero_case {
            match self.retain_nft_owners(seller, collection_id, nft_id) {
                Ok(()) => {},
                Err(_) => {
                    proof {
                        assert(false);
                    }
                    return Err(Error::NotNFTOwner);
                },
            }
        }
        let ghost mid_user = self.user_nfts@;
        acquire(&mut olist, buyer, total_supply);
        let updated = NFT {
            metadata: nft.metadata,
            issuer: nft.issuer,
            owners: Some(olist),
            share_profits: nft.share_profits,
            price: nft.price,
            royalty: nft.royalty,
            end_date: nft.end_date,
        };
        self.nfts.insert(k, updated);
        self.user_buy_nft(buyer, collection_id, nft_id);
        self.events.push(
            Event::NFTSold {
                collection_id,
                token_id: nft_id,
                price,
                seller,
                buyer,
                royalty,
            },
        );
        proof {
            assert(self.nfts@.remove(pair_key(collection_id, nft_id)) =~= old(self).nfts@.remove(
                pair_key(collection_id, nft_id),
            ));
            if zero_case && seller != buyer {
                let a_user = old(self).user_nfts@;
                let b_user = self.user_nfts@;
                assert(b_user.remove(buyer) == mid_user.remove(buyer));
                assert(mid_user.remove(seller) == a_user.remove(seller));
                assert(b_user.contains_key(seller) && b_user[seller] == mid_user[seller]) by {
                    assert(b_user.remove(buyer).contains_key(seller));
                    assert(b_user.remove(buyer)[seller] == b_user[seller]);
                }
                assert(mid_user.contains_key(buyer) == a_user.contains_key(buyer)
                    && (a_user.contains_key(buyer) ==> mid_user[buyer] == a_user[buyer])) by {
                    assert(mid_user.remove(seller).contains_key(buyer) == a_user.remove(
                        seller,
                    ).contains_key(buyer));
                    if a_user.contains_key(buyer) {
                        assert(mid_user.remove(seller)[buyer] == a_user.remove(seller)[buyer]);
                    }
                }
                assert(index_list_of(mid_user, buyer) == index_list_of(a_user, buyer));
                assert(b_user.remove(seller).remove(buyer) =~= b_user.remove(buyer).remove(seller));
                assert(b_user.remove(buyer).remove(seller) == mid_user.remove(buyer).remove(seller));
                assert(mid_user.remove(buyer).remove(seller) =~= mid_user.remove(seller).remove(
                    buyer,
                ));
                assert(mid_user.remove(seller).remove(buyer) == a_user.remove(seller).remove(buyer));
            }
        }
        Ok(())
    }

    /// Buys `total_supply` units of every track of an album: per track,
    /// the buyer's balance is put in escrow for the track's total price
    /// and the track's stakeholders are paid their shares; a fresh owner
    /// record is appended for the buyer. A failure at any step commits
    /// nothing.
    pub fn buy_album(
        &mut self,
        buyer: AccountId,
        collection_id: CollectionId,
        album_id: NFTId,
        total_supply: u64,
    ) -> (r: Result<(), Error>)
        requires
            old(self).wf(),
        ensures
            final(self).wf(),
            match spec_buy_album(*old(self), buyer, collection_id, album_id, total_supply) {
                Err(e) => r == Err::<(), Error>(e) && same_state(*old(self), *final(self)),
                Ok(m2) => r is Ok && final(self).ledger@ == m2 && bought_album_post(
                    *old(self),
                    *final(self),
                    buyer,
                    collection_id,
                    album_id,
                    total_supply,
                ),
            },
    {
        let k = make_pair_key(collection_id, album_id);
        let album = match self.albums.remove(&k) {
            Some(al) => al,
            None => {
                proof {
                    assert(self.albums@ =~= old(self).albums@);
                }
                return Err(Error::AlbumNotFound);
            },
        };
        let saved = self.ledger.snapshot();
        match buy_album_ledger_phase(&mut self.ledger, buyer, &album.tracks, total_supply) {
            Ok(()) => {},
            Err(e) => {
                self.ledger = saved;
                self.albums.insert(k, album);
                proof {
                    assert(self.albums@ =~= old(self).albums@);
                }
                return Err(e);
            },
        }
        let issuer = album.issuer;
        let mut olist = match album.owners {
            Some(v) => v,
            None => Vec::new(),
        };
        acquire(&mut olist, buyer, total_supply);
        let updated = Album {
            metadata: album.metadata,
            issuer: album.issuer,
            owners: Some(olist),
            tracks: album.tracks,
            royalty: album.royalty,
            end_date: album.end_date,
        };
        self.albums.insert(k, updated);
        self.user_buy_album(buyer, collection_id, album_id);
        self.events.push(
            Event::TransferredAlbum { collection_id, album_id, from: issuer, to: buyer },
        );
        proof {
            assert(self.albums@.remove(pair_key(collection_id, album_id)) =~= old(
                self,
            ).albums@.remove(pair_key(collection_id, album_id)));
        }
        Ok(())
    }

    /// Settles a sale of `total_supply` units of an album from `seller`
    /// to `buyer` at `price`, exactly as [`Market::sell_nft`] does for an
    /// NFT. A failure at any step commits nothing.
    pub fn sell_album(
        &mut self,
        seller: AccountId,
        buyer: AccountId,
        collection_id: CollectionId,
        album_id: NFTId,
        price: u64,
        auction_start_price: u64,
        total_supply: u64,
    ) -> (r: Result<(), Error>)
        requires
            old(self).wf(),
        ensures
            final(self).wf(),
            match spec_sell_album(
                *old(self),
                seller,
                buyer,
                collection_id,
                album_id,
                price,
                auction_start_price,
                total_supply,
            ) {
                Err(e) => r == Err::<(), Error>(e) && same_state(*old(self), *final(self)),
                Ok(m2) => r is Ok && final(self).ledger@ == m2 && sold_album_post(
                    *old(self),
                    *final(self),
                    seller,
                    buyer,
                    collection_id,
                    album_id,
                    price,
                    total_supply,
                ),
            },
    {
        let k = make_pair_key(collection_id, album_id);
        let album = match self.albums.remove(&k) {
            Some(al) => al,
            None => {
                proof {
                    assert(self.albums@ =~= old(self).albums@);
                }
                return Err(Error::AlbumNotFound);
            },
        };
        let saved = self.ledger.snapshot();
        match sell_ledger_phase(
            &mut self.ledger,
            buyer,
            seller,
            album.issuer,
            price,
            auction_start_price,
            album.royalty,
            self.config.royalty_fee,
        ) {
            Ok(()) => {},
            Err(e) => {
                self.ledger = saved;
                self.albums.insert(k, album);
                proof {
                    assert(self.albums@ =~= old(self).albums@);
                }
                return Err(e);
            },
        }
        let zero_case: bool;
        {
            let olist = match &album.owners {
                Some(v) => v,
                None => {
                    self.ledger = saved;
                    self.albums.insert(k, album);
                    proof {
                        assert(self.albums@ =~= old(self).albums@);
                    }
                    return Err(Error::OwnersEmpty);
                },
            };
            let idx = match find_index_owner(olist, seller) {
                Ok(i) => i,
                Err(_) => {
                    self.ledger = saved;
                    self.albums.insert(k, album);
                    proof {
                        assert(self.albums@ =~= old(self).albums@);
                    }
                    return Err(Error::OwnerNotFound);
                },
            };
            let held = olist[idx].total_supply;
            if held < total_supply {
                self.ledger = saved;
                self.albums.insert(k, album);
                proof {
                    assert(self.albums@ =~= old(self).albums@);
                }
                return Err(Error::ArithmeticUnderflow);
            }
            zero_case = held == total_supply;
            if zero_case && !self.user_albums.contains_key(&seller) {
                self.ledger = saved;
                self.albums.insert(k, album);
                proof {
                    assert(self.albums@ =~= old(self).albums@);
                }
                return Err(Error::NotNFTOwner);
            }
        }
        let royalty = album.royalty;
        let mut olist = match album.owners {
            Some(v) => v,
            None => Vec::new(),
        };
        match partial_transfer(&mut olist, seller, total_supply) {
            Ok(_) => {},
            Err(_) => {
                proof {
                    assert(false);
                }
                return Err(Error::OwnerNotFound);
            },
        }
        if zero_case {
            match self.retain_album_owners(seller, collection_id, album_id) {
                Ok(()) => {},
                Err(_) => {
                    proof {
                        assert(false);
                    }
                    return Err(Error::NotNFTOwner);
                },
            }
        }
        let ghost mid_user = self.user_albums@;
        acquire(&mut olist, buyer, total_supply);
        let updated = Album {
            metadata: album.metadata,
            issuer: album.issuer,
            owners: Some(olist),
            tracks: album.tracks,
            royalty: album.royalty,
            end_date: album.end_date,
        };
        self.albums.insert(k, updated);
        self.user_buy_album(buyer, collection_id, album_id);
        self.events.push(
            Event::AlbumSold {
                collection_id,
                album_id,
                price,
                seller,
                buyer,
                royalty,
            },
        );
        proof {
            assert(self.albums@.remove(pair_key(collection_id, album_id)) =~= old(
                self,
            ).albums@.remove(pair_key(collection_id, album_id)));
            if zero_case && seller != buyer {
                let a_user = old(self).user_albums@;
                let b_user = self.user_albums@;
                assert(b_user.remove(buyer) == mid_user.remove(buyer));
                assert(mid_user.remove(seller) == a_user.remove(seller));
                assert(b_user.contains_key(seller) && b_user[seller] == mid_user[seller]) by {
                    assert(b_user.remove(buyer).contains_key(seller));
                    assert(b_user.remove(buyer)[seller] == b_user[seller]);
                }
                assert(mid_user.contains_key(buyer) == a_user.contains_key(buyer)
                    && (a_user.contains_key(buyer) ==> mid_user[buyer] == a_user[buyer])) by {
                    assert(mid_user.remove(seller).contains_key(buyer) == a_user.remove(
                        seller,
                    ).contains_key(buyer));
                    if a_user.contains_key(buyer) {
                        assert(mid_user.remove(seller)[buyer] == a_user.remove(seller)[buyer]);
                    }
                }
                assert(index_list_of(mid_user, buyer) == index_list_of(a_user, buyer));
                assert(b_user.remove(seller).remove(buyer) =~= b_user.remove(buyer).remove(seller));
                assert(b_user.remove(buyer).remove(seller) == mid_user.remove(buyer).remove(seller));
                assert(mid_user.remove(buyer).remove(seller) =~= mid_user.remove(seller).remove(
                    buyer,
                ));
                assert(mid_user.remove(seller).remove(buyer) == a_user.remove(seller).remove(buyer));
            }
        }
        Ok(())
    }
}

} // verus!
