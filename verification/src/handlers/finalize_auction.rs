use vstd::prelude::*;

use crate::address::Address;
use crate::error::AuctionError;
use crate::event::AuctionFinalized;
use crate::state::{Auction, AuctionStatus};

verus! {

/// The record of a finalization: the auction with its address.
#[derive(Clone, Copy, Debug, PartialEq, Eq)]
pub struct FinalizeAuction {
    pub auction_key: Address,
    pub auction: Auction,
}

impl FinalizeAuction {
    /// The notification of the finalized auction `auction` at `auction_key`.
    pub open spec fn event_of(auction_key: Address, auction: Auction) -> AuctionFinalized {
        AuctionFinalized {
            auction: auction_key,
            winner: auction.highest_bidder,
            highest_bid: auction.highest_bid,
            reserve_price: auction.reserve_price,
            total_bids: auction.total_bids,
            total_revealed: auction.total_revealed,
        }
    }
}

/// Finalizes the auction at time `now`.
///
/// Fails with `RevealStillOpen` before the end of the reveal window, and from
/// then on with `AuctionAlreadyFinalized` if the auction is finalized.  A
/// failed call changes nothing.  A successful one sets the status to
/// `Finalized` and, where the highest bid is under the reserve price, leaves
/// the auction without a winner; the highest bid and the counters stay as
/// they are.
pub fn finalize_auction(ctx: &mut FinalizeAuction, now: i64) -> (result: Result<
    AuctionFinalized,
    AuctionError,
>)
    ensures
        match result {
            Ok(event) => {
                &&& old(ctx).auction.finalize_error(now) is None
                &&& final(ctx).auction_key == old(ctx).auction_key
                &&& final(ctx).auction == old(ctx).auction.finalized()
                &&& event == FinalizeAuction::event_of(old(ctx).auction_key, final(ctx).auction)
            },
            Err(e) => old(ctx).auction.finalize_error(now) == Some(e) && *final(ctx) == *old(ctx),
        },
        now < old(ctx).auction.reveal_end_ts ==> result == Err::<AuctionFinalized, AuctionError>(
            AuctionError::RevealStillOpen,
        ),
        result is Ok <==> now >= old(ctx).auction.reveal_end_ts && old(ctx).auction.status
            != AuctionStatus::Finalized,
        result is Ok ==> final(ctx).auction.status == AuctionStatus::Finalized,
        result is Ok && old(ctx).auction.highest_bid < old(ctx).auction.reserve_price
            ==> final(ctx).auction.highest_bidder is None,
        final(ctx).auction.highest_bid == old(ctx).auction.highest_bid,
        final(ctx).auction.total_bids == old(ctx).auction.total_bids,
        final(ctx).auction.total_revealed == old(ctx).auction.total_revealed,
        old(ctx).auction.wf() ==> final(ctx).auction.wf(),
{
    if now < ctx.auction.reveal_end_ts {
        return Err(AuctionError::RevealStillOpen);
    }
    if ctx.auction.status == AuctionStatus::Finalized {
        return Err(AuctionError::AuctionAlreadyFinalized);
    }
    ctx.auction.status = AuctionStatus::Finalized;
    if ctx.auction.highest_bid < ctx.auction.reserve_price {
        ctx.auction.highest_bidder = None;
    }
    Ok(
        AuctionFinalized {
            auction: ctx.auction_key,
            winner: ctx.auction.highest_bidder,
            highest_bid: ctx.auction.highest_bid,
            reserve_price: ctx.auction.reserve_price,
            total_bids: ctx.auction.total_bids,
            total_revealed: ctx.auction.total_revealed,
        },
    )
}

} // verus!
