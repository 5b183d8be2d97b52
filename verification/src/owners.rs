//! The fractional ownership ledger: lists of owner records with lookup,
//! holding checks, crediting and debiting.

use vstd::prelude::*;

use crate::errors::Error;
use crate::types::{AccountId, Owners};

verus! {

/// Whether `i` is the first index at which `who` appears in `s`.
pub open spec fn is_first_owner_index(s: Seq<Owners>, who: AccountId, i: int) -> bool {
    &&& 0 <= i < s.len()
    &&& s[i].address == who
    &&& forall|j: int| 0 <= j < i ==> s[j].address != who
}

/// The first index at which `who` appears in `s`, if any. Lookups, debits
/// and removals all act on this record; later records for the same owner
/// are left alone.
pub open spec fn owner_lookup(s: Seq<Owners>, who: AccountId) -> Option<int> {
    if exists|i: int| is_first_owner_index(s, who, i) {
        Some(choose|i: int| is_first_owner_index(s, who, i))
    } else {
        Option::None
    }
}

/// Whether some record in `s` gives `who` at least `quantity` units.
pub open spec fn spec_has_holding(s: Seq<Owners>, who: AccountId, quantity: u64) -> bool {
    exists|i: int| 0 <= i < s.len() && (#[trigger] s[i]).address == who && s[i].total_supply >= quantity
}

/// The first index is unique.
proof fn lemma_first_owner_index_unique(s: Seq<Owners>, who: AccountId, i1: int, i2: int)
    requires
        is_first_owner_index(s, who, i1),
        is_first_owner_index(s, who, i2),
    ensures
        i1 == i2,
{
    if i1 < i2 {
        assert(s[i1].address != who);
    }
    if i2 < i1 {
        assert(s[i2].address != who);
    }
}

/// A witness for the first index pins down `owner_lookup`.
proof fn lemma_owner_lookup_some(s: Seq<Owners>, who: AccountId, i: int)
    requires
        is_first_owner_index(s, who, i),
    ensures
        owner_lookup(s, who) == Some(i),
{
    let w = choose|k: int| is_first_owner_index(s, who, k);
    lemma_first_owner_index_unique(s, who, w, i);
}

/// Finds the record of `seller` in the owner list: the first record with
/// that address, or `OwnerNotFound` when there is none.
pub fn find_index_owner(owners: &Vec<Owners>, seller: AccountId) -> (r: Result<usize, Error>)
    ensures
        match r {
            Ok(i) => owner_lookup(owners@, seller) == Some(i as int),
            Err(e) => e == Error::OwnerNotFound && owner_lookup(owners@, seller) is None,
        },
{
    let mut k: usize = 0;
    while k < owners.len()
        invariant
            0 <= k <= owners@.len(),
            forall|j: int| 0 <= j < k ==> owners@[j].address != seller,
        decreases owners@.len() - k,
    {
        if owners[k].address == seller {
            proof {
                lemma_owner_lookup_some(owners@, seller, k as int);
            }
            return Ok(k);
        }
        k += 1;
    }
    Err(Error::OwnerNotFound)
}

/// Finds the first record that gives `seller` at least `total_supply`
/// units, or `OwnerNotHaveEnoughTotalSupply` when no record does.
pub fn check_owner_has_enough_supply(
    owners: &Vec<Owners>,
    seller: AccountId,
    total_supply: u64,
) -> (r: Result<usize, Error>)
    ensures
        match r {
            Ok(i) => 0 <= i < owners@.len() && owners@[i as int].address == seller
                && owners@[i as int].total_supply >= total_supply,
            Err(e) => e == Error::OwnerNotHaveEnoughTotalSupply && !spec_has_holding(
                owners@,
                seller,
                total_supply,
            ),
        },
{
    let mut k: usize = 0;
    while k < owners.len()
        invariant
            0 <= k <= owners@.len(),
            forall|j: int|
                0 <= j < k ==> !((#[trigger] owners@[j]).address == seller
                    && owners@[j].total_supply >= total_supply),
        decreases owners@.len() - k,
    {
        if owners[k].address == seller && owners[k].total_supply >= total_supply {
            return Ok(k);
        }
        k += 1;
    }
    Err(Error::OwnerNotHaveEnoughTotalSupply)
}

/// Whether `seller` holds at least `quantity` units according to some
/// record of the owner list.
pub fn has_sufficient_holding(owners: &Vec<Owners>, seller: AccountId, quantity: u64) -> (r: bool)
    ensures
        r == spec_has_holding(owners@, seller, quantity),
{
    match check_owner_has_enough_supply(owners, seller, quantity) {
        Ok(_) => true,
        Err(_) => false,
    }
}

/// Credits `quantity` units to `buyer` by appending a fresh record.
/// Repeated purchases by the same buyer append further records; records
/// are never merged.
pub fn acquire(owners: &mut Vec<Owners>, buyer: AccountId, quantity: u64)
    ensures
        final(owners)@ == old(owners)@.push(Owners { total_supply: quantity, address: buyer }),
{
    owners.push(Owners { total_supply: quantity, address: buyer });
}

/// Debits `quantity` units from the seller's record (the first record with
/// the seller's address). Fails with `OwnerNotFound` when the seller has no
/// record, and with `ArithmeticUnderflow` when the record holds fewer than
/// `quantity` units; either failure leaves the list unchanged. A record
/// whose holding reaches exactly zero is removed. On success the index the
/// record stood at is returned.
pub fn partial_transfer(owners: &mut Vec<Owners>, seller: AccountId, quantity: u64) -> (r: Result<
    usize,
    Error,
>)
    ensures
        match r {
            Ok(i) => {
                &&& owner_lookup(old(owners)@, seller) == Some(i as int)
                &&& quantity <= old(owners)@[i as int].total_supply
                &&& final(owners)@ == if old(owners)@[i as int].total_supply == quantity {
                    old(owners)@.remove(i as int)
                } else {
                    old(owners)@.update(
                        i as int,
                        Owners {
                            total_supply: (old(owners)@[i as int].total_supply - quantity) as u64,
                            address: seller,
                        },
                    )
                }
            },
            Err(e) => {
                &&& final(owners)@ == old(owners)@
                &&& match owner_lookup(old(owners)@, seller) {
                    Some(i) => e == Error::ArithmeticUnderflow && old(owners)@[i].total_supply
                        < quantity,
                    Option::None => e == Error::OwnerNotFound,
                }
            },
        },
{
    let i = match find_index_owner(owners, seller) {
        Ok(i) => i,
        Err(e) => {
            return Err(e);
        },
    };
    let held = owners[i].total_supply;
    if held < quantity {
        return Err(Error::ArithmeticUnderflow);
    }
    if held == quantity {
        owners.remove(i);
    } else {
        owners[i] = Owners { total_supply: held - quantity, address: seller };
    }
    Ok(i)
}

} // verus!
