//! Verified core of an NFT marketplace: collections, fractional item
//! ownership, auction-style bidding with currency escrow, direct sales, and
//! royalty/fee settlement.
//!
//! The state of the marketplace (the balance ledger, the catalog of
//! collections, NFTs and albums, the open auctions with their bid slots, and
//! the per-store configuration) lives in the [`market::Market`] structure.
//! Every public operation is a total function on that state: it either
//! commits all of its writes and returns `Ok`, or it returns an [`errors::Error`]
//! and leaves the state exactly as it was.

pub mod albums;
pub mod auction;
pub mod calc;
pub mod catalog;
pub mod errors;
pub mod gallery;
pub mod laws;
pub mod ledger;
pub mod market;
pub mod owners;
pub mod settlement;
pub mod types;

pub use errors::Error;
