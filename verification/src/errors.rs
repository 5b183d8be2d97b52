//! The error type shared by every marketplace operation.

use vstd::prelude::*;

verus! {

/// Every failure a marketplace operation can report. Each operation's
/// contract states exactly which inputs produce which variant; no operation
/// that returns an `Err` leaves any state change behind.
#[derive(Clone, Copy, Debug, PartialEq, Eq, Structural)]
pub enum Error {
    /// The referenced auction key is not in the auction store.
    AuctionKeyNotFound,
    /// An auction already exists under the key being created.
    InvalidNextAuctionId,
    /// A recorded bid conflicts with the requested change.
    AuctionAssigned,
    /// Only the auction's issuer may perform this operation.
    OwnerRequired,
    /// The auction's issuer may not bid on their own auction.
    OriginProhibited,
    /// No bid adequate for confirmation is recorded under the given hash.
    AuctionNotAssigned,
    /// Only the bidder who owns the bid slot may retract it.
    TopBidRequired,
    /// The offered price does not exceed the current highest bid.
    PriceTooLow,
    /// The account's free balance does not cover the requested amount.
    InsufficientBalance,
    /// The referenced collection does not exist.
    CollectionNotFound,
    /// The referenced NFT does not exist.
    NFTNotFound,
    /// The referenced album does not exist.
    AlbumNotFound,
    /// The referenced marketplace store does not exist.
    MarketNotFound,
    /// The actor lacks the rights for the requested mutation.
    NoPermission,
    /// The seller has no personal index entry for the item.
    NotNFTOwner,
    /// The item carries no owner list at all.
    OwnersEmpty,
    /// The seller is not among the item's owners.
    OwnerNotFound,
    /// The owner does not hold enough supply of the item.
    OwnerNotHaveEnoughTotalSupply,
    /// The NFT already has owners, so it can no longer be edited.
    NFTHasOwner,
    /// The share-profit percentages do not sum to one hundred.
    InvalidPercentageSum,
    /// The royalty exceeds the configured maximum.
    NotAllowToSetRoyalty,
    /// The royalty exceeds the store's configured maximum.
    NotAllowSetRoyaltyOverThanStoreConfig,
    /// Transferring the marketplace fee failed.
    ErrorTransferMarketPlaceFee,
    /// Reserving the buyer's balance failed.
    CanNotReserveCurrency,
    /// A currency transfer would leave the source below the minimum balance.
    CanNotTransferCurrency,
    /// A checked subtraction would go below zero.
    ArithmeticUnderflow,
    /// A checked computation would exceed the balance type's range.
    NumOverflow,
    /// The collection id space is exhausted.
    NoAvailableCollectionId,
    /// The NFT id space is exhausted.
    NoAvailableNFTId,
}

} // verus!
