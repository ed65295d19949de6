use vstd::prelude::*;

use crate::address::Address;
use crate::error::AuctionError;
use crate::event::AuctionCreated;
use crate::state::{Auction, AuctionStatus};

verus! {

/// Where a new auction is opened: the address its record will live at, the
/// authority that opens it, and the bump of that address.
#[derive(Clone, Copy, Debug, PartialEq, Eq)]
pub struct CreateAuction {
    pub auction_key: Address,
    pub authority: Address,
    pub bump: u8,
}

/// Opens an auction at time `now`.
///
/// Fails with `StartInPast` if `start_ts` lies before `now`, and otherwise
/// with `InvalidTimeRange` unless `start_ts < end_ts < reveal_end_ts`.  The
/// new auction has counted no bid and no reveal, has no leader, and is in
/// status `Bidding`.
pub fn create_auction(
    ctx: &CreateAuction,
    now: i64,
    auction_id: u64,
    start_ts: i64,
    end_ts: i64,
    reveal_end_ts: i64,
    reserve_price: u64,
) -> (result: Result<(Auction, AuctionCreated), AuctionError>)
    ensures
        match result {
            Ok((auction, event)) => {
                &&& Auction::open_error(now, start_ts, end_ts, reveal_end_ts) is None
                &&& auction == Auction::opened(
                    auction_id,
                    ctx.authority,
                    start_ts,
                    end_ts,
                    reveal_end_ts,
                    reserve_price,
                    ctx.bump,
                )
                &&& event == (AuctionCreated {
                    auction: ctx.auction_key,
                    authority: ctx.authority,
                    start_ts,
                    end_ts,
                    reveal_end_ts,
                    reserve_price,
                })
            },
            Err(e) => Auction::open_error(now, start_ts, end_ts, reveal_end_ts) == Some(e),
        },
        result is Ok <==> now <= start_ts < end_ts < reveal_end_ts,
        start_ts < now ==> result == Err::<(Auction, AuctionCreated), AuctionError>(
            AuctionError::StartInPast,
        ),
        start_ts >= now && !(start_ts < end_ts < reveal_end_ts) ==> result == Err::<
            (Auction, AuctionCreated),
            AuctionError,
        >(AuctionError::InvalidTimeRange),
        result is Ok ==> result->Ok_0.0.wf(),
{
    if start_ts < now {
        return Err(AuctionError::StartInPast);
    }
    if end_ts <= start_ts {
        return Err(AuctionError::InvalidTimeRange);
    }
    if reveal_end_ts <= end_ts {
        return Err(AuctionError::InvalidTimeRange);
    }
    let auction = Auction {
        auction_id,
        authority: ctx.authority,
        start_ts,
        end_ts,
        reveal_end_ts,
        reserve_price,
        highest_bid: 0,
        highest_bidder: None,
        total_bids: 0,
        total_revealed: 0,
        status: AuctionStatus::Bidding,
        bump: ctx.bump,
    };
    let event = AuctionCreated {
        auction: ctx.auction_key,
        authority: auction.authority,
        start_ts,
        end_ts,
        reveal_end_ts,
        reserve_price,
    };
    Ok((auction, event))
}

} // verus!
