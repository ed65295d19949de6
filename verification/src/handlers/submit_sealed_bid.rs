use vstd::prelude::*;

use crate::address::Address;
use crate::error::AuctionError;
use crate::event::BidCommitted;
use crate::state::{Auction, Bid};

verus! {

/// The records of a commit that creates its bid: the auction with its
/// address, the bidder who signs, and the bump of the address of the new bid.
#[derive(Clone, Copy, Debug, PartialEq, Eq)]
pub struct SubmitSealedBid {
    pub auction_key: Address,
    pub auction: Auction,
    pub bidder: Address,
    pub bump: u8,
}

impl SubmitSealedBid {
    /// The bid that a commit of `bid_hash` creates.
    pub open spec fn new_bid(self, bid_hash: [u8; 32]) -> Bid {
        Bid::provisioned(self.auction_key, self.bidder, self.bump).with_commit(bid_hash)
    }

    /// The records after one more commit was counted.
    pub open spec fn committed(self) -> SubmitSealedBid {
        SubmitSealedBid { auction: self.auction.with_commit(), ..self }
    }
}

/// Creates the bid of `ctx.bidder` in the auction and commits `bid_hash` to
/// it, at time `now`.
///
/// Fails with `AuctionNotStarted` before the bidding window, with
/// `BiddingClosed` from its end on, and with `MathOverflow` if the auction
/// cannot count one more bid.  A failed call changes nothing and creates no
/// bid.
pub fn submit_sealed_bid(ctx: &mut SubmitSealedBid, now: i64, bid_hash: [u8; 32]) -> (result: Result<
    (Bid, BidCommitted),
    AuctionError,
>)
    ensures
        match result {
            Ok((bid, event)) => {
                &&& old(ctx).auction.commit_error(now) is None
                &&& *final(ctx) == old(ctx).committed()
                &&& bid == old(ctx).new_bid(bid_hash)
                &&& event == (BidCommitted { auction: old(ctx).auction_key, bidder: old(ctx).bidder })
            },
            Err(e) => old(ctx).auction.commit_error(now) == Some(e) && *final(ctx) == *old(ctx),
        },
        old(ctx).auction.wf() ==> final(ctx).auction.wf(),
        result is Ok ==> result->Ok_0.0.wf(),
{
    if now < ctx.auction.start_ts {
        return Err(AuctionError::AuctionNotStarted);
    }
    if now >= ctx.auction.end_ts {
        return Err(AuctionError::BiddingClosed);
    }
    let total_bids = match ctx.auction.total_bids.checked_add(1) {
        Some(n) => n,
        None => {
            return Err(AuctionError::MathOverflow);
        },
    };

    let bid = Bid {
        auction: ctx.auction_key,
        bidder: ctx.bidder,
        bid_hash,
        committed: true,
        revealed: false,
        amount: 0,
        nonce: [0u8;32],
        bump: ctx.bump,
    };
    ctx.auction.total_bids = total_bids;
    Ok((bid, BidCommitted { auction: ctx.auction_key, bidder: bid.bidder }))
}

} // verus!
