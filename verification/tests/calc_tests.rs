use nft_market::calc::{
    calc_royalty, calc_royalty_and_fee, calc_total_price, calc_transfer_amount_with_percentage,
    deposit, CENTS, DOLLARS, MILLICENTS,
};
use nft_market::errors::Error;

#[test]
fn royalty_and_fee_example_split() {
    // price 1000 at 10% royalty and 10% platform fee: 100 royalty, 10 fee,
    // 890 left for the seller.
    let (royalty_amount, fee_amount) = calc_royalty_and_fee(10, 1000, 10).unwrap();
    assert_eq!(royalty_amount, 100);
    assert_eq!(fee_amount, 10);
    assert_eq!(1000 - royalty_amount - fee_amount, 890);
}

#[test]
fn royalty_and_fee_truncates() {
    let (royalty_amount, fee_amount) = calc_royalty_and_fee(3, 999, 7).unwrap();
    assert_eq!(royalty_amount, 29); // 999 * 3 / 100
    assert_eq!(fee_amount, 2); // 29 * 7 / 100
}

#[test]
fn royalty_and_fee_overflows_on_huge_rates() {
    // The royalty itself no longer fits in a balance.
    assert_eq!(calc_royalty_and_fee(u64::MAX, u64::MAX, 0), Err(Error::NumOverflow));
    // The royalty fits but the fee does not.
    assert_eq!(calc_royalty_and_fee(100, u64::MAX, 200), Err(Error::NumOverflow));
}

#[test]
fn plain_royalty() {
    assert_eq!(calc_royalty(10, 1000), Ok(100));
    assert_eq!(calc_royalty(0, 1000), Ok(0));
    assert_eq!(calc_royalty(u64::MAX, u64::MAX), Err(Error::NumOverflow));
}

#[test]
fn share_amount_example() {
    // price 100, supply 10, percentage 20: (100 * 10 * 20) / 100 = 200.
    assert_eq!(calc_transfer_amount_with_percentage(100, 10, 20), Ok(200));
    assert_eq!(calc_transfer_amount_with_percentage(99, 1, 50), Ok(49));
    assert_eq!(
        calc_transfer_amount_with_percentage(u64::MAX, u64::MAX, u64::MAX),
        Err(Error::NumOverflow)
    );
}

#[test]
fn total_price_multiplies() {
    assert_eq!(calc_total_price(25, 4), Ok(100));
    assert_eq!(calc_total_price(u64::MAX, 2), Err(Error::NumOverflow));
    assert_eq!(calc_total_price(u64::MAX, 1), Ok(u64::MAX));
    assert_eq!(calc_total_price(0, 0), Ok(0));
}

#[test]
fn storage_deposit_formula() {
    assert_eq!(DOLLARS, 1_000_000_000_000);
    assert_eq!(CENTS, DOLLARS / 100);
    assert_eq!(MILLICENTS, CENTS / 1_000);
    assert_eq!(deposit(0, 0), 0);
    assert_eq!(deposit(1, 0), 15 * CENTS);
    assert_eq!(deposit(0, 1), 6 * CENTS);
    assert_eq!(deposit(2, 3), 2 * 15 * CENTS + 3 * 6 * CENTS);
}
