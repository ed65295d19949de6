use vstd::prelude::*;

use crate::address::{bytes32_eq, Address};
use crate::error::AuctionError;
use crate::event::BidRevealed;
use crate::helpers::{bid_commitment, compute_bid_hash};
use crate::state::{Auction, Bid};

verus! {

/// The records of a reveal: the auction with its address, and the bid of the
/// bidder who reveals.
#[derive(Clone, Copy, Debug, PartialEq, Eq)]
pub struct RevealBid {
    pub auction_key: Address,
    pub auction: Auction,
    pub bid: Bid,
}

impl RevealBid {
    /// The commitment that a reveal of `amount` and `nonce` has to match: it
    /// binds the bidder of the bid and the address of the auction.
    pub open spec fn commitment(self, amount: u64, nonce: [u8; 32]) -> Seq<u8> {
        bid_commitment(amount, nonce, self.bid.bidder, self.auction_key)
    }

    /// Why a reveal whose commitment is `digest` fails at time `now`, if it
    /// does: the bid is checked first, then the reveal window, then the
    /// digest against the committed hash, then the counter.
    pub open spec fn error(self, now: i64, digest: Seq<u8>) -> Option<AuctionError> {
        if self.bid.reveal_error() is Some {
            self.bid.reveal_error()
        } else {
            self.auction.reveal_error(now, self.bid.bid_hash@, digest)
        }
    }

    /// The records after `amount` and `nonce` were revealed.
    pub open spec fn revealed(self, amount: u64, nonce: [u8; 32]) -> RevealBid {
        RevealBid {
            auction: self.auction.with_reveal(self.bid.bidder, amount),
            bid: self.bid.with_reveal(amount, nonce),
            ..self
        }
    }
}

/// Reveals `amount` and `nonce` at time `now`, given the commitment `digest`
/// that they hash to.
///
/// Fails with `BidNotCommitted` or `AlreadyRevealed` by the state of the bid;
/// then with `RevealNotStarted` before the reveal window and `RevealClosed`
/// from its end on; then with `InvalidReveal` unless `digest` is the committed
/// hash; then with `MathOverflow` if the auction cannot count one more
/// reveal.  A failed call changes nothing.  A successful one marks the bid
/// revealed, counts it, and makes it the leader if it is strictly higher than
/// the highest bid so far.
pub fn reveal_bid_with_digest(
    ctx: &mut RevealBid,
    now: i64,
    amount: u64,
    nonce: [u8; 32],
    digest: &[u8; 32],
) -> (result: Result<BidRevealed, AuctionError>)
    ensures
        match result {
            Ok(event) => {
                &&& old(ctx).error(now, digest@) is None
                &&& *final(ctx) == old(ctx).revealed(amount, nonce)
                &&& event == (BidRevealed {
                    auction: old(ctx).auction_key,
                    bidder: old(ctx).bid.bidder,
                    amount,
                })
            },
            Err(e) => old(ctx).error(now, digest@) == Some(e) && *final(ctx) == *old(ctx),
        },
        old(ctx).auction.wf() ==> final(ctx).auction.wf(),
        old(ctx).bid.wf() ==> final(ctx).bid.wf(),
{
    if !ctx.bid.committed {
        return Err(AuctionError::BidNotCommitted);
    }
    if ctx.bid.revealed {
        return Err(AuctionError::AlreadyRevealed);
    }
    if now < ctx.auction.end_ts {
        return Err(AuctionError::RevealNotStarted);
    }
    if now >= ctx.auction.reveal_end_ts {
        return Err(AuctionError::RevealClosed);
    }
    if !bytes32_eq(&ctx.bid.bid_hash, digest) {
        return Err(AuctionError::InvalidReveal);
    }
    let total_revealed = match ctx.auction.total_revealed.checked_add(1) {
        Some(n) => n,
        None => {
            return Err(AuctionError::MathOverflow);
        },
    };

    ctx.bid.revealed = true;
    ctx.bid.amount = amount;
    ctx.bid.nonce = nonce;
    ctx.auction.total_revealed = total_revealed;
    if amount > ctx.auction.highest_bid {
        ctx.auction.highest_bid = amount;
        ctx.auction.highest_bidder = Some(ctx.bid.bidder);
    }
    Ok(BidRevealed { auction: ctx.auction_key, bidder: ctx.bid.bidder, amount })
}

/// Reveals `amount` and `nonce` at time `now`: the reveal is held against the
/// commitment of `amount`, `nonce`, the bidder of the bid and the address of
/// the auction, and otherwise goes as `reveal_bid_with_digest` says.
pub fn reveal_bid(ctx: &mut RevealBid, now: i64, amount: u64, nonce: [u8; 32]) -> (result: Result<
    BidRevealed,
    AuctionError,
>)
    ensures
        match result {
            Ok(event) => {
                &&& old(ctx).error(now, old(ctx).commitment(amount, nonce)) is None
                &&& *final(ctx) == old(ctx).revealed(amount, nonce)
                &&& event == (BidRevealed {
                    auction: old(ctx).auction_key,
                    bidder: old(ctx).bid.bidder,
                    amount,
                })
            },
            Err(e) => old(ctx).error(now, old(ctx).commitment(amount, nonce)) == Some(e)
                && *final(ctx) == *old(ctx),
        },
        old(ctx).auction.wf() ==> final(ctx).auction.wf(),
        old(ctx).bid.wf() ==> final(ctx).bid.wf(),
{
    let expected = compute_bid_hash(amount, &nonce, &ctx.bid.bidder, &ctx.auction_key);
    reveal_bid_with_digest(ctx, now, amount, nonce, &expected)
}

} // verus!
