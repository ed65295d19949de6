use vstd::prelude::*;

use crate::address::Address;

verus! {

/// An auction was opened.
#[derive(Clone, Copy, Debug, PartialEq, Eq)]
pub struct AuctionCreated {
    pub auction: Address,
    pub authority: Address,
    pub start_ts: i64,
    pub end_ts: i64,
    pub reveal_end_ts: i64,
    pub reserve_price: u64,
}

/// A bidder committed to a sealed bid.
#[derive(Clone, Copy, Debug, PartialEq, Eq)]
pub struct BidCommitted {
    pub auction: Address,
    pub bidder: Address,
}

/// A bidder revealed the amount behind a commitment.
#[derive(Clone, Copy, Debug, PartialEq, Eq)]
pub struct BidRevealed {
    pub auction: Address,
    pub bidder: Address,
    pub amount: u64,
}

/// An auction was finalized; `winner` is empty where no bid met the reserve price.
#[derive(Clone, Copy, Debug, PartialEq, Eq)]
pub struct AuctionFinalized {
    pub auction: Address,
    pub winner: Option<Address>,
    pub highest_bid: u64,
    pub reserve_price: u64,
    pub total_bids: u32,
    pub total_revealed: u32,
}

/// A finalized auction was committed back to the primary ledger and released.
#[derive(Clone, Copy, Debug, PartialEq, Eq)]
pub struct AuctionSettled {
    pub auction: Address,
}

} // verus!
