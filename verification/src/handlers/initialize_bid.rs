use vstd::prelude::*;

use crate::address::{zero32_is_zero, Address};
use crate::state::Bid;

verus! {

/// Where an empty bid is provisioned: the address of the auction, the bidder
/// it is for, and the bump of the address of the new bid.
#[derive(Clone, Copy, Debug, PartialEq, Eq)]
pub struct InitializeBidAccount {
    pub auction_key: Address,
    pub bidder: Address,
    pub bump: u8,
}

/// Provisions the empty bid of `ctx.bidder` in the auction: it holds no
/// commitment and no reveal, and can be committed to later, also after the
/// auction has been delegated.
pub fn initialize_bid_account(ctx: &InitializeBidAccount) -> (bid: Bid)
    ensures
        bid == Bid::provisioned(ctx.auction_key, ctx.bidder, ctx.bump),
        bid.bid_hash@ == Seq::new(32, |i: int| 0u8),
        bid.nonce@ == Seq::new(32, |i: int| 0u8),
        !bid.committed && !bid.revealed && bid.amount == 0,
        bid.wf(),
{
    proof {
        zero32_is_zero();
    }
    Bid {
        auction: ctx.auction_key,
        bidder: ctx.bidder,
        bid_hash: [0u8;32],
        committed: false,
        revealed: false,
        amount: 0,
        nonce: [0u8;32],
        bump: ctx.bump,
    }
}

} // verus!
