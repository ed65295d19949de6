use vstd::prelude::*;

use crate::address::{zero32, Address};
use crate::error::AuctionError;

verus! {

/// The bid of one bidder in one auction.  It is provisioned empty, committed
/// once and revealed once, and never goes back.
#[derive(Clone, Copy, Debug, PartialEq, Eq)]
pub struct Bid {
    pub auction: Address,
    pub bidder: Address,
    pub bid_hash: [u8; 32],
    pub committed: bool,
    pub revealed: bool,
    pub amount: u64,
    pub nonce: [u8; 32],
    pub bump: u8,
}

impl Bid {
    /// Only a committed bid is ever revealed.
    pub open spec fn wf(self) -> bool {
        self.revealed ==> self.committed
    }

    /// The empty bid of `bidder` in `auction`.
    pub open spec fn provisioned(auction: Address, bidder: Address, bump: u8) -> Bid {
        Bid {
            auction,
            bidder,
            bid_hash: zero32(),
            committed: false,
            revealed: false,
            amount: 0,
            nonce: zero32(),
            bump,
        }
    }

    /// The bid once `bid_hash` has been committed.
    pub open spec fn with_commit(self, bid_hash: [u8; 32]) -> Bid {
        Bid { bid_hash, committed: true, revealed: false, amount: 0, nonce: zero32(), ..self }
    }

    /// The bid once `amount` and `nonce` have been revealed.
    pub open spec fn with_reveal(self, amount: u64, nonce: [u8; 32]) -> Bid {
        Bid { revealed: true, amount, nonce, ..self }
    }

    /// Why a hash cannot be committed to this bid by `bidder` in the auction
    /// at `auction`, if it cannot.
    pub open spec fn commit_error(self, auction: Address, bidder: Address) -> Option<AuctionError> {
        if self.committed {
            Some(AuctionError::BidAlreadyCommitted)
        } else if self.auction != auction || self.bidder != bidder {
            Some(AuctionError::BidAccountMismatch)
        } else {
            None
        }
    }

    /// Why this bid cannot be revealed, whatever is revealed, if it cannot.
    pub open spec fn reveal_error(self) -> Option<AuctionError> {
        if !self.committed {
            Some(AuctionError::BidNotCommitted)
        } else if self.revealed {
            Some(AuctionError::AlreadyRevealed)
        } else {
            None
        }
    }
}

} // verus!
