//! Laws of the marketplace that span several operations, stated over the
//! same specification functions the operations' contracts use.

use vstd::prelude::*;

use crate::auction::leader_after_bid;
use crate::calc::{royalty_amount_of, spec_royalty_and_fee};
use crate::types::{AccountId, Balance, NFTAuction};

verus! {

/// The auction after a sequence of accepted bids, each applied exactly as
/// the contract of [`crate::market::Market::bid`] applies it on success,
/// left to right.
pub open spec fn run_bids(au: NFTAuction, bids: Seq<(AccountId, Balance)>) -> NFTAuction
    decreases bids.len(),
{
    if bids.len() == 0 {
        au
    } else {
        leader_after_bid(run_bids(au, bids.drop_last()), bids.last().0, bids.last().1)
    }
}

/// Whether every bid of the sequence would be accepted in turn: each
/// offered price strictly exceeds the highest bid standing when it
/// arrives, which is what `Market::bid` demands (`PriceTooLow` otherwise).
pub open spec fn bids_admissible(au: NFTAuction, bids: Seq<(AccountId, Balance)>) -> bool {
    forall|i: int|
        0 <= i < bids.len() ==> (#[trigger] bids[i]).1 > run_bids(
            au,
            bids.subrange(0, i),
        ).highest_bid
}

/// Auction leader monotonicity: over any sequence of accepted bids, the
/// prices are strictly increasing, and after each bid the recorded
/// highest bid equals the maximum price seen so far and the recorded
/// leader is exactly the account that submitted it.
pub proof fn lemma_leader_monotonic(au: NFTAuction, bids: Seq<(AccountId, Balance)>)
    requires
        bids_admissible(au, bids),
    ensures
        forall|i: int|
            0 <= i < bids.len() ==> {
                let st = run_bids(au, bids.subrange(0, i + 1));
                st.highest_bid == (#[trigger] bids[i]).1 && st.highest_bidder == bids[i].0
            },
        forall|i: int, j: int| 0 <= j < i < bids.len() ==> (#[trigger] bids[j]).1 < (
        #[trigger] bids[i]).1,
    decreases bids.len(),
{
    if bids.len() > 0 {
        let sub = bids.drop_last();
        assert(bids_admissible(au, sub)) by {
            assert forall|i: int|
                0 <= i < sub.len() implies (#[trigger] sub[i]).1 > run_bids(
                au,
                sub.subrange(0, i),
            ).highest_bid by {
                assert(sub.subrange(0, i) =~= bids.subrange(0, i));
                assert(sub[i] == bids[i]);
            }
        }
        lemma_leader_monotonic(au, sub);
        let last = bids.len() - 1;
        assert forall|i: int|
            0 <= i < bids.len() implies {
            let st = run_bids(au, bids.subrange(0, i + 1));
            st.highest_bid == (#[trigger] bids[i]).1 && st.highest_bidder == bids[i].0
        } by {
            if i < last {
                assert(bids.subrange(0, i + 1) =~= sub.subrange(0, i + 1));
                assert(sub[i] == bids[i]);
            } else {
                assert(bids.subrange(0, i + 1) =~= bids);
                assert(run_bids(au, bids) == leader_after_bid(
                    run_bids(au, sub),
                    bids.last().0,
                    bids.last().1,
                ));
            }
        }
        assert forall|i: int, j: int|
            0 <= j < i < bids.len() implies (#[trigger] bids[j]).1 < (#[trigger] bids[i]).1 by {
            if i < last {
                assert(sub[i] == bids[i]);
                assert(sub[j] == bids[j]);
            } else {
                assert(bids[i].1 > run_bids(au, bids.subrange(0, i)).highest_bid);
                assert(bids.subrange(0, i) =~= sub);
                if j == i - 1 {
                    if sub.len() > 0 {
                        assert(sub.subrange(0, sub.len() as int) =~= sub);
                        assert(run_bids(au, sub).highest_bid == sub[j].1);
                    }
                } else {
                    assert(sub.subrange(0, sub.len() as int) =~= sub);
                    assert(run_bids(au, sub).highest_bid == sub[sub.len() - 1].1);
                    assert(sub[j].1 < sub[sub.len() - 1].1);
                }
            }
        }
    }
}

/// Royalty and fee never exceed the sale price: whenever the royalty
/// percentage and the platform's fee percentage together satisfy
/// `royalty * (100 + royalty_fee) <= 10000`, the split always computes,
/// `royalty_amount + fee_amount <= price`, and the seller's remainder
/// `price - royalty_amount - fee_amount` is non-negative. (Without that
/// bound the claim is false: at `royalty = 60` and `royalty_fee = 100`,
/// a sale at 100 would owe 60 + 60 = 120.)
pub proof fn lemma_royalty_fee_within_price(price: u64, royalty: u64, royalty_fee: u64)
    requires
        royalty * (100 + royalty_fee) <= 10000,
    ensures
        spec_royalty_and_fee(royalty, price, royalty_fee) is Ok,
        ({
            let (ra, fa) = spec_royalty_and_fee(royalty, price, royalty_fee).unwrap();
            ra + fa <= price && price - ra - fa >= 0
        }),
{
    let ra = royalty_amount_of(price, royalty);
    assert(royalty <= 100) by (nonlinear_arith)
        requires
            royalty * (100 + royalty_fee) <= 10000,
    ;
    assert(ra <= price && 100 * ra <= price * royalty) by (nonlinear_arith)
        requires
            ra == (price * royalty) / 100,
            royalty <= 100,
    ;
    let fa = (ra * royalty_fee) / 100;
    assert(100 * fa <= ra * royalty_fee) by (nonlinear_arith)
        requires
            fa == (ra * royalty_fee) / 100,
            ra >= 0,
            royalty_fee >= 0,
    ;
    assert(ra + fa <= price) by (nonlinear_arith)
        requires
            100 * ra <= price * royalty,
            100 * fa <= ra * royalty_fee,
            royalty * (100 + royalty_fee) <= 10000,
            ra >= 0,
            fa >= 0,
            price >= 0,
            royalty >= 0,
            royalty_fee >= 0,
            ra <= price,
    ;
}

} // verus!
