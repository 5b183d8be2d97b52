//! The data model: identifiers, catalog entities, auctions, bid slots,
//! events, and the packed keys of the keyed stores.

use vstd::prelude::*;

verus! {

/// An account, modeled as a plain integer identifier. The surrounding chain
/// supplies real account addresses; this core only compares them.
pub type AccountId = u64;

/// A currency amount.
pub type Balance = u64;

/// A collection identifier, allocated from a monotonic counter.
pub type CollectionId = u64;

/// An NFT or album identifier, allocated per collection.
pub type NFTId = u64;

/// A hash value identifying a bid slot or a marketplace store. The hash
/// itself is computed outside this core; here it is an opaque integer key.
pub type HashId = u64;

/// One fractional holding: `address` holds `total_supply` units of the item
/// the enclosing list belongs to.
#[derive(Clone, Copy, Debug, PartialEq, Eq, Structural)]
pub struct Owners {
    pub total_supply: u64,
    pub address: AccountId,
}

/// One stakeholder of an item's sale proceeds, entitled to `percentage`
/// percent of each primary sale.
#[derive(Clone, Copy, Debug, PartialEq, Eq, Structural)]
pub struct ShareProfitsInfo {
    pub percentage: u64,
    pub owner_address: AccountId,
}

/// Global marketplace configuration: the platform's cut of each royalty and
/// the largest royalty an item may be minted with.
#[derive(Clone, Copy, Debug, PartialEq, Eq, Structural)]
pub struct ConfigMarketPlace {
    pub royalty_fee: u64,
    pub max_allow_royalty_percent: u64,
}

impl Default for ConfigMarketPlace {
    /// The stock configuration: ten percent royalty fee, ten percent
    /// royalty ceiling.
    fn default() -> (r: ConfigMarketPlace)
        ensures
            r == (ConfigMarketPlace { royalty_fee: 10, max_allow_royalty_percent: 10 }),
    {
        ConfigMarketPlace { royalty_fee: 10, max_allow_royalty_percent: 10 }
    }
}

/// A collection of NFTs or albums, owned by its issuer.
#[derive(Debug)]
pub struct Collection {
    pub collection_id: CollectionId,
    pub metadata: Vec<u8>,
    pub issuer: AccountId,
}

impl Default for Collection {
    /// The placeholder collection: id zero, empty metadata, account zero.
    fn default() -> (r: Collection)
        ensures
            r.collection_id == 0,
            r.metadata@ == Seq::<u8>::empty(),
            r.issuer == 0,
    {
        Collection { collection_id: 0, metadata: Vec::new(), issuer: 0 }
    }
}

/// A non-fungible token with fractional supply. `owners` lists who holds how
/// much; `share_profits` lists who receives which share of primary sales.
#[derive(Debug)]
pub struct NFT {
    pub metadata: Vec<u8>,
    pub issuer: AccountId,
    pub owners: Option<Vec<Owners>>,
    pub share_profits: Vec<ShareProfitsInfo>,
    pub price: Balance,
    pub royalty: u64,
    pub end_date: u64,
}

/// One track of an album, priced and profit-shared on its own.
#[derive(Debug)]
pub struct AlbumTracks {
    pub track_id: Option<NFTId>,
    pub metadata: Vec<u8>,
    pub owners: Option<Vec<Owners>>,
    pub share_profits: Vec<ShareProfitsInfo>,
    pub price: Balance,
}

/// An album: a list of tracks sold as one item, with a common royalty.
#[derive(Debug)]
pub struct Album {
    pub metadata: Vec<u8>,
    pub issuer: AccountId,
    pub owners: Option<Vec<Owners>>,
    pub tracks: Vec<AlbumTracks>,
    pub royalty: u64,
    pub end_date: u64,
}

/// A marketplace store: its fees and the largest royalty it allows.
#[derive(Debug)]
pub struct Marketplace {
    pub metadata: Vec<u8>,
    pub owner: AccountId,
    pub issuer: AccountId,
    pub fee: Balance,
    pub hash_id: HashId,
    pub export_fee: Balance,
    pub import_fee: Balance,
    pub max_royalty: u64,
    pub royalty_fee: u64,
}

/// The key of an auction: the issuer together with the account nonce at
/// creation time, which the surrounding chain guarantees to be fresh.
#[derive(Clone, Copy, Debug, PartialEq, Eq, Structural)]
pub struct AuctionKey {
    pub issuer: AccountId,
    pub nonce: u64,
}

/// An open auction over a fractional quantity of one item. `highest_bid`
/// and `highest_bidder` are the authoritative leader; before any bid they
/// hold the start price and the issuer.
#[derive(Clone, Copy, Debug, PartialEq, Eq, Structural)]
pub struct NFTAuction {
    pub collection_id: CollectionId,
    pub nft_id: NFTId,
    pub issuer: AccountId,
    pub start_price: Balance,
    pub highest_bid: Balance,
    pub total_supply: u64,
    pub highest_bidder: AccountId,
    pub deposit: Balance,
}

/// One bid slot of an auction: the latest bid recorded under `hash`.
#[derive(Clone, Copy, Debug, PartialEq, Eq, Structural)]
pub struct BidSlot {
    pub hash: HashId,
    pub bidder: AccountId,
    pub price: Balance,
}

/// An auction together with its recorded bid slots.
#[derive(Debug)]
pub struct AuctionState {
    pub auction: NFTAuction,
    pub bids: Vec<BidSlot>,
}

/// The domain events an operation appends to the market's log when it
/// succeeds. Observers read the log; nothing in this core depends on it.
#[derive(Clone, Copy, Debug, PartialEq, Eq, Structural)]
pub enum Event {
    AuctionCreated { auction_key: AuctionKey, start_price: Balance },
    Bid { auction_key: AuctionKey, bidder: AccountId, price: Balance, hash: HashId },
    Confirmed { auction_key: AuctionKey },
    Retracted { auction_key: AuctionKey, bidder: AccountId, price: Balance },
    CreatedCollection { collection_id: CollectionId, issuer: AccountId },
    UpdateCollection { collection_id: CollectionId, issuer: AccountId },
    MintedNFT { collection_id: CollectionId, nft_id: NFTId, owner: AccountId, caller: AccountId },
    MintedAlbum { collection_id: CollectionId, album_id: NFTId, owner: AccountId, caller: AccountId },
    BurnedNFT { collection_id: CollectionId, token_id: NFTId, owner: AccountId },
    BurnedAlbum { collection_id: CollectionId, album_id: NFTId, owner: AccountId },
    TransferredNFT {
        collection_id: CollectionId,
        token_id: NFTId,
        quantity: u64,
        from: AccountId,
        to: AccountId,
        price: Balance,
    },
    TransferredAlbum { collection_id: CollectionId, album_id: NFTId, from: AccountId, to: AccountId },
    NFTSold {
        collection_id: CollectionId,
        token_id: NFTId,
        price: Balance,
        seller: AccountId,
        buyer: AccountId,
        royalty: u64,
    },
    AlbumSold {
        collection_id: CollectionId,
        album_id: NFTId,
        price: Balance,
        seller: AccountId,
        buyer: AccountId,
        royalty: u64,
    },
    UpdatedNFT { collection_id: CollectionId, nft_id: NFTId },
    UpdatedShareProfitListNFT { collection_id: CollectionId, nft_id: NFTId },
    UpdatedShareProfitListAlbumtracks { collection_id: CollectionId, album_id: NFTId },
    SetConfig { royalty_fee: u64, max_allow_royalty_percent: u64 },
    CreateMarketPlace {
        owner: AccountId,
        issuer: AccountId,
        fee: Balance,
        hash_id: HashId,
        export_fee: Balance,
        import_fee: Balance,
        max_royalty: u64,
        royalty_fee: u64,
    },
    MarketplaceOwnerChanges {
        old_owner: AccountId,
        new_owner: AccountId,
        price: Balance,
        hash_id: HashId,
    },
    UpdateMarketPlace {
        owner: AccountId,
        fee: Balance,
        hash_id: HashId,
        export_fee: Balance,
        import_fee: Balance,
        max_royalty: u64,
        royalty_fee: u64,
    },
}

/// Packs a pair of 64-bit identifiers into the single 128-bit key the keyed
/// stores use. The packing is injective: the high half is `a`, the low half
/// is `b`.
pub open spec fn pair_key(a: u64, b: u64) -> u128 {
    (a * 0x1_0000_0000_0000_0000 + b) as u128
}

/// Two packed keys are equal exactly when both components are equal.
pub proof fn lemma_pair_key_injective(a1: u64, b1: u64, a2: u64, b2: u64)
    ensures
        (pair_key(a1, b1) == pair_key(a2, b2)) <==> (a1 == a2 && b1 == b2),
{
}

/// Computes [`pair_key`] in executable code.
pub fn make_pair_key(a: u64, b: u64) -> (r: u128)
    ensures
        r == pair_key(a, b),
{
    (a as u128) * 0x1_0000_0000_0000_0000 + (b as u128)
}

/// An element-for-element copy of a vector of plain values.
pub fn copy_vec<T: Copy>(v: &Vec<T>) -> (r: Vec<T>)
    ensures
        r@ == v@,
{
    let mut r: Vec<T> = Vec::new();
    let mut i: usize = 0;
    while i < v.len()
        invariant
            0 <= i <= v@.len(),
            r@ == v@.subrange(0, i as int),
        decreases v@.len() - i,
    {
        proof {
            assert(v@.subrange(0, i + 1 as int) =~= v@.subrange(0, i as int).push(v@[i as int]));
        }
        r.push(v[i]);
        i += 1;
    }
    proof {
        assert(v@.subrange(0, v@.len() as int) =~= v@);
    }
    r
}

/// The predicate "is not this item", shared by every contract that speaks
/// of dropping an item from a personal index list.
pub open spec fn ne_pair(item: (u64, u64)) -> spec_fn((u64, u64)) -> bool {
    |x: (u64, u64)| x != item
}

/// Whether `i` is the first index at which `x` appears in `s`.
pub open spec fn is_first_pair_index(s: Seq<(u64, u64)>, x: (u64, u64), i: int) -> bool {
    &&& 0 <= i < s.len()
    &&& s[i] == x
    &&& forall|j: int| 0 <= j < i ==> s[j] != x
}

/// The first index at which `x` appears in `s`, if any.
pub open spec fn pair_lookup(s: Seq<(u64, u64)>, x: (u64, u64)) -> Option<int> {
    if exists|i: int| is_first_pair_index(s, x, i) {
        Some(choose|i: int| is_first_pair_index(s, x, i))
    } else {
        Option::None
    }
}

/// A witness for the first index pins down `pair_lookup`.
proof fn lemma_pair_lookup_some(s: Seq<(u64, u64)>, x: (u64, u64), i: int)
    requires
        is_first_pair_index(s, x, i),
    ensures
        pair_lookup(s, x) == Some(i),
{
    let w = choose|k: int| is_first_pair_index(s, x, k);
    if w < i {
        assert(s[w] != x);
    }
    if i < w {
        assert(s[i] != x);
    }
}

/// Finds the first occurrence of `x` in `v`.
pub fn find_pair(v: &Vec<(u64, u64)>, x: (u64, u64)) -> (r: Option<usize>)
    ensures
        match r {
            Some(i) => pair_lookup(v@, x) == Some(i as int),
            Option::None => pair_lookup(v@, x) is None,
        },
{
    let mut k: usize = 0;
    while k < v.len()
        invariant
            0 <= k <= v@.len(),
            forall|j: int| 0 <= j < k ==> v@[j] != x,
        decreases v@.len() - k,
    {
        if v[k].0 == x.0 && v[k].1 == x.1 {
            proof {
                lemma_pair_lookup_some(v@, x, k as int);
            }
            return Some(k);
        }
        k += 1;
    }
    Option::None
}

} // verus!
