//! Pure arithmetic of the marketplace: royalty and fee splitting,
//! stakeholder shares, total prices and the storage deposit formula.

use vstd::prelude::*;

use crate::errors::Error;

verus! {

/// One whole unit of the chain's currency, in its smallest denomination.
pub const DOLLARS: u128 = 1_000_000_000_000;

/// One hundredth of a [`DOLLARS`].
pub const CENTS: u128 = DOLLARS / 100;

/// One thousandth of a [`CENTS`].
pub const MILLICENTS: u128 = CENTS / 1_000;

/// The storage deposit charged for `items` stored items and `bytes` stored
/// bytes: fifteen cents per item and six cents per byte.
pub fn deposit(items: u32, bytes: u32) -> (r: u128)
    ensures
        r == items * 15 * CENTS + bytes * 6 * CENTS,
{
    (items as u128) * 15 * CENTS + (bytes as u128) * 6 * CENTS
}

/// The royalty owed on a sale at `price` with a royalty rate of `percent`
/// percent: `price * percent / 100`, truncating.
pub open spec fn royalty_amount_of(price: u64, percent: u64) -> int {
    (price * percent) / 100
}

/// The amount owed to a stakeholder with `percentage` percent of a sale of
/// `total_supply` units at `price` each: `price * total_supply * percentage
/// / 100`, truncating.
pub open spec fn share_amount_of(price: u64, total_supply: u64, percentage: u64) -> int {
    (price * total_supply * percentage) / 100
}

/// What [`calc_royalty`] returns: the royalty amount, or `NumOverflow` when
/// it does not fit in a balance.
pub open spec fn spec_royalty(royalty: u64, price: u64) -> Result<u64, Error> {
    let ra = royalty_amount_of(price, royalty);
    if ra > u64::MAX {
        Err(Error::NumOverflow)
    } else {
        Ok(ra as u64)
    }
}

/// What [`calc_royalty_and_fee`] returns: the royalty amount and the
/// platform's fee on it, or `NumOverflow` when either does not fit in a
/// balance.
pub open spec fn spec_royalty_and_fee(royalty: u64, price: u64, royalty_fee: u64) -> Result<
    (u64, u64),
    Error,
> {
    let ra = royalty_amount_of(price, royalty);
    if ra > u64::MAX {
        Err(Error::NumOverflow)
    } else {
        let fa = (ra * royalty_fee) / 100;
        if fa > u64::MAX {
            Err(Error::NumOverflow)
        } else {
            Ok((ra as u64, fa as u64))
        }
    }
}

/// What [`calc_transfer_amount_with_percentage`] returns.
pub open spec fn spec_share_amount(price: u64, total_supply: u64, percentage: u64) -> Result<
    u64,
    Error,
> {
    let v = share_amount_of(price, total_supply, percentage);
    if v > u64::MAX {
        Err(Error::NumOverflow)
    } else {
        Ok(v as u64)
    }
}

/// What [`calc_total_price`] returns.
pub open spec fn spec_total_price(price: u64, total_supply: u64) -> Result<u64, Error> {
    if price * total_supply > u64::MAX {
        Err(Error::NumOverflow)
    } else {
        Ok((price * total_supply) as u64)
    }
}

/// Computes the creator royalty on a sale: `price * royalty / 100`,
/// truncating. Fails with `NumOverflow` when the result exceeds the balance
/// range.
pub fn calc_royalty(royalty: u64, price: u64) -> (r: Result<u64, Error>)
    ensures
        r == spec_royalty(royalty, price),
{
    proof {
        assert((price as u128) * (royalty as u128) <= u128::MAX) by (nonlinear_arith)
            requires
                price <= u64::MAX,
                royalty <= u64::MAX,
        ;
    }
    let ra: u128 = (price as u128) * (royalty as u128) / 100;
    if ra > u64::MAX as u128 {
        Err(Error::NumOverflow)
    } else {
        Ok(ra as u64)
    }
}

/// Computes the creator royalty and the platform fee on a sale: the royalty
/// is `price * royalty / 100`, and the fee is `royalty_amount * royalty_fee
/// / 100`, both truncating. Fails with `NumOverflow` when either result
/// exceeds the balance range.
pub fn calc_royalty_and_fee(royalty: u64, price: u64, royalty_fee: u64) -> (r: Result<
    (u64, u64),
    Error,
>)
    ensures
        r == spec_royalty_and_fee(royalty, price, royalty_fee),
{
    proof {
        assert((price as u128) * (royalty as u128) <= u128::MAX) by (nonlinear_arith)
            requires
                price <= u64::MAX,
                royalty <= u64::MAX,
        ;
    }
    let ra: u128 = (price as u128) * (royalty as u128) / 100;
    if ra > u64::MAX as u128 {
        return Err(Error::NumOverflow);
    }
    proof {
        assert(ra * (royalty_fee as u128) <= u128::MAX) by (nonlinear_arith)
            requires
                ra <= u64::MAX,
                royalty_fee <= u64::MAX,
        ;
    }
    let fa: u128 = ra * (royalty_fee as u128) / 100;
    if fa > u64::MAX as u128 {
        return Err(Error::NumOverflow);
    }
    Ok((ra as u64, fa as u64))
}

/// Computes a stakeholder's cut of a sale: `price * total_supply *
/// percentage / 100`, truncating. Fails with `NumOverflow` when the result
/// exceeds the balance range.
pub fn calc_transfer_amount_with_percentage(price: u64, total_supply: u64, percentage: u64) -> (r:
    Result<u64, Error>)
    ensures
        r == spec_share_amount(price, total_supply, percentage),
{
    proof {
        assert((price as u128) * (total_supply as u128) <= u128::MAX) by (nonlinear_arith)
            requires
                price <= u64::MAX,
                total_supply <= u64::MAX,
        ;
    }
    let ps: u128 = (price as u128) * (total_supply as u128);
    match ps.checked_mul(percentage as u128) {
        Some(v) => {
            let q: u128 = v / 100;
            if q > u64::MAX as u128 {
                Err(Error::NumOverflow)
            } else {
                Ok(q as u64)
            }
        },
        None => {
            proof {
                lemma_huge_product_over_hundred(ps as int, percentage as int);
            }
            Err(Error::NumOverflow)
        },
    }
}

/// A product that exceeds the 128-bit range still exceeds the 64-bit range
/// after division by one hundred.
proof fn lemma_huge_product_over_hundred(ps: int, pct: int)
    requires
        ps * pct > u128::MAX,
    ensures
        (ps * pct) / 100 > u64::MAX,
{
    assert((ps * pct) / 100 >= (u128::MAX + 1) / 100) by (nonlinear_arith)
        requires
            ps * pct > u128::MAX,
    ;
}

/// Computes the total price of `total_supply` units at `price` each. Fails
/// with `NumOverflow` when the product exceeds the balance range.
pub fn calc_total_price(price: u64, total_supply: u64) -> (r: Result<u64, Error>)
    ensures
        r == spec_total_price(price, total_supply),
{
    proof {
        assert((price as u128) * (total_supply as u128) <= u128::MAX) by (nonlinear_arith)
            requires
                price <= u64::MAX,
                total_supply <= u64::MAX,
        ;
    }
    let ps: u128 = (price as u128) * (total_supply as u128);
    if ps > u64::MAX as u128 {
        Err(Error::NumOverflow)
    } else {
        Ok(ps as u64)
    }
}

} // verus!
