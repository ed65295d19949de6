use vstd::prelude::*;

use crate::address::Address;
use crate::error::AuctionError;
use crate::event::BidCommitted;
use crate::state::{Auction, Bid};

verus! {

/// The records of a commit to a bid that was provisioned beforehand: the
/// auction with its address, the bid, and the bidder who signs.
#[derive(Clone, Copy, Debug, PartialEq, Eq)]
pub struct SubmitSealedBidDelegated {
    pub auction_key: Address,
    pub auction: Auction,
    pub bid: Bid,
    pub bidder: Address,
}

impl SubmitSealedBidDelegated {
    /// Why `submit_sealed_bid_delegated` fails at time `now`, if it does: the
    /// bidding window is checked first, then the bid, then the counter.
    pub open spec fn error(self, now: i64) -> Option<AuctionError> {
        if self.auction.bidding_window_error(now) is Some {
            self.auction.bidding_window_error(now)
        } else if self.bid.commit_error(self.auction_key, self.bidder) is Some {
            self.bid.commit_error(self.auction_key, self.bidder)
        } else {
            self.auction.commit_error(now)
        }
    }

    /// The records after `bid_hash` was committed.
    pub open spec fn committed(self, bid_hash: [u8; 32]) -> SubmitSealedBidDelegated {
        SubmitSealedBidDelegated {
            auction: self.auction.with_commit(),
            bid: self.bid.with_commit(bid_hash),
            ..self
        }
    }
}

/// Commits `bid_hash` to a bid record that already exists and holds no
/// commitment yet, at time `now`.
///
/// Fails with `AuctionNotStarted` before the bidding window and with
/// `BiddingClosed` from its end on; then with `BidAlreadyCommitted` if the bid
/// holds a commitment, and with `BidAccountMismatch` if the bid belongs to
/// another auction or bidder; then with `MathOverflow` if the auction cannot
/// count one more bid.  A failed call changes nothing.
pub fn submit_sealed_bid_delegated(
    ctx: &mut SubmitSealedBidDelegated,
    now: i64,
    bid_hash: [u8; 32],
) -> (result: Result<BidCommitted, AuctionError>)
    ensures
        match result {
            Ok(event) => {
                &&& old(ctx).error(now) is None
                &&& *final(ctx) == old(ctx).committed(bid_hash)
                &&& event == (BidCommitted { auction: old(ctx).auction_key, bidder: old(ctx).bidder })
            },
            Err(e) => old(ctx).error(now) == Some(e) && *final(ctx) == *old(ctx),
        },
        old(ctx).auction.wf() ==> final(ctx).auction.wf(),
        old(ctx).bid.wf() ==> final(ctx).bid.wf(),
{
    if now < ctx.auction.start_ts {
        return Err(AuctionError::AuctionNotStarted);
    }
    if now >= ctx.auction.end_ts {
        return Err(AuctionError::BiddingClosed);
    }
    if ctx.bid.committed {
        return Err(AuctionError::BidAlreadyCommitted);
    }
    if ctx.bid.auction != ctx.auction_key {
        return Err(AuctionError::BidAccountMismatch);
    }
    if ctx.bid.bidder != ctx.bidder {
        return Err(AuctionError::BidAccountMismatch);
    }
    let total_bids = match ctx.auction.total_bids.checked_add(1) {
        Some(n) => n,
        None => {
            return Err(AuctionError::MathOverflow);
        },
    };

    ctx.bid.bid_hash = bid_hash;
    ctx.bid.committed = true;
    ctx.bid.revealed = false;
    ctx.bid.amount = 0;
    ctx.bid.nonce = [0u8;32];
    ctx.auction.total_bids = total_bids;

    Ok(BidCommitted { auction: ctx.auction_key, bidder: ctx.bid.bidder })
}

} // verus!
