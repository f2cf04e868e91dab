use vstd::prelude::*;

use crate::contract::Auction;
use crate::error::ContractError;

verus! {

/// An accepted bid keeps the auction well formed and strictly raises the
/// leading price.
pub proof fn lemma_accepted_bid_raises_price(
    pre: Auction,
    post: Auction,
    bidder: String,
    block_height: u64,
    price: u128,
)
    requires
        pre.wf(),
        pre.bid_rejection(block_height, price) is None,
        pre.bid_accepted(post, bidder, price),
    ensures
        post.wf(),
        post.best_bid is Some,
        post.reference_price() == price,
        pre.best_bid is Some ==> pre.reference_price() < post.reference_price(),
{
    let recs = post.bid_records@;
    assert forall|i: int, j: int| 0 <= i < j < recs.len() implies recs[i].price
        < recs[j].price by {
        if j == recs.len() - 1 && pre.bid_seq > 0 {
            assert(i == pre.bid_seq - 1 || pre.bid_records@[i].price < pre.bid_records@[
                pre.bid_seq - 1].price);
        }
    }
}

/// `post` is `pre` after a bid of `price` by `bidder` at `block_height` was accepted.
#[verifier::opaque]
pub open spec fn accepted_bid_step(
    pre: Auction,
    post: Auction,
    bidder: String,
    block_height: u64,
    price: u128,
) -> bool {
    pre.bid_rejection(block_height, price) is None && pre.bid_accepted(post, bidder, price)
}

/// Over any run of accepted bids, the leading price after each bid is
/// strictly higher than after every earlier one.
pub proof fn lemma_bid_run_prices_increase(
    states: Seq<Auction>,
    bidders: Seq<String>,
    heights: Seq<u64>,
    prices: Seq<u128>,
)
    requires
        states.len() == bidders.len() + 1,
        heights.len() == bidders.len(),
        prices.len() == bidders.len(),
        states[0].wf(),
        forall|k: int|
            0 <= k < bidders.len() ==> #[trigger] accepted_bid_step(
                states[k],
                states[k + 1],
                bidders[k],
                heights[k],
                prices[k],
            ),
    ensures
        forall|k: int| 0 <= k < states.len() ==> (#[trigger] states[k]).wf(),
        forall|k: int| 1 <= k < states.len() ==> (#[trigger] states[k]).best_bid is Some,
        forall|i: int, j: int|
            1 <= i < j < states.len() ==> states[i].reference_price()
                < states[j].reference_price(),
    decreases states.len(),
{
    if bidders.len() > 0 {
        let n = bidders.len() - 1;
        let s0 = states.drop_last();
        lemma_bid_run_prices_increase(
            s0,
            bidders.drop_last(),
            heights.drop_last(),
            prices.drop_last(),
        );
        assert(accepted_bid_step(states[n], states[n + 1], bidders[n], heights[n], prices[n]));
        assert(s0[n] == states[n]);
        reveal(accepted_bid_step);
        lemma_accepted_bid_raises_price(states[n], states[n + 1], bidders[n], heights[n], prices[n]);
        assert forall|k: int| 0 <= k < states.len() implies (#[trigger] states[k]).wf() by {
            if k <= n {
                assert(s0[k] == states[k]);
            }
        }
        assert forall|k: int| 1 <= k < states.len() implies (#[trigger] states[k]).best_bid is Some by {
            if k <= n {
                assert(s0[k] == states[k]);
            }
        }
        assert forall|i: int, j: int| 1 <= i < j < states.len() implies states[i].reference_price()
            < states[j].reference_price() by {
            assert(s0[i] == states[i]);
            if j <= n {
                assert(s0[j] == states[j]);
            } else if i < n {
                assert(s0[n] == states[n]);
            }
        }
    }
}

/// A bid that does not exceed the leading price is rejected, whatever the
/// minimum increment; while bidding is open and the reserve is met, it is
/// rejected as not high enough.
pub proof fn lemma_low_bid_rejected(auction: Auction, block_height: u64, price: u128)
    requires
        auction.best_bid matches Some(b) && price <= b.bid_record.price,
    ensures
        auction.bid_rejection(block_height, price) is Some,
        block_height < auction.config.timeout && price >= auction.config.reserve_price
            ==> auction.bid_rejection(block_height, price) == Some(
            ContractError::BidNotHighEnough { price, best_price: auction.reference_price() },
        ),
{
}

/// A bid at or after the deadline is rejected as closed, whatever its price.
pub proof fn lemma_late_bid_rejected(auction: Auction, block_height: u64, price: u128)
    requires
        block_height >= auction.config.timeout,
    ensures
        auction.bid_rejection(block_height, price) == Some(ContractError::AuctionClosed),
{
}

/// Settlement before the deadline is rejected, whoever pays and however much.
pub proof fn lemma_early_settlement_rejected(
    auction: Auction,
    block_height: u64,
    buyer: String,
    amount: u128,
)
    requires
        block_height < auction.config.timeout,
    ensures
        auction.settle_rejection(block_height, buyer, amount) == Some(
            ContractError::AuctionNotYetClosed,
        ),
{
}

/// After one successful settlement every further settlement is rejected, and
/// once bidding is closed it is rejected as already sold, the same call
/// included. No bid at the same height or later can replace the sold bid.
pub proof fn lemma_settles_once(
    pre: Auction,
    post: Auction,
    block_height: u64,
    buyer: String,
    amount: u128,
    later_height: u64,
    later_buyer: String,
    later_amount: u128,
    later_price: u128,
)
    requires
        pre.settle_rejection(block_height, buyer, amount) is None,
        pre.sold(post),
    ensures
        post.settle_rejection(later_height, later_buyer, later_amount) is Some,
        later_height >= post.config.timeout ==> post.settle_rejection(
            later_height,
            later_buyer,
            later_amount,
        ) == Some(ContractError::AlreadySold),
        post.settle_rejection(block_height, buyer, amount) == Some(ContractError::AlreadySold),
        later_height >= block_height ==> post.bid_rejection(later_height, later_price) == Some(
            ContractError::AuctionClosed,
        ),
{
}

/// Only the leading bidder can settle: a payment by anyone else is rejected,
/// and once bidding is closed and the item unsold, as unauthorized, even when
/// the amount would suffice.
pub proof fn lemma_only_best_bidder_settles(
    auction: Auction,
    block_height: u64,
    payer: String,
    amount: u128,
)
    requires
        auction.best_bid matches Some(b) && payer@ != b.bid_record.buyer@,
    ensures
        auction.settle_rejection(block_height, payer, amount) is Some,
        block_height >= auction.config.timeout && !auction.best_bid->Some_0.sold
            ==> auction.settle_rejection(block_height, payer, amount) == Some(
            ContractError::Unauthorized,
        ),
{
}

} // verus!
