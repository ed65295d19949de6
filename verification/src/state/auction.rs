use vstd::prelude::*;

use crate::address::Address;
use crate::error::AuctionError;

verus! {

/// The stored status of an auction.  The bidding and reveal phases share the
/// status `Bidding`: which of the two an auction is in follows from the clock.
#[derive(Clone, Copy, Debug, PartialEq, Eq, Structural)]
pub enum AuctionStatus {
    Bidding,
    Finalized,
}

/// One auction: its time windows, its reserve price and the running result
/// of the bids committed and revealed so far.
#[derive(Clone, Copy, Debug, PartialEq, Eq)]
pub struct Auction {
    pub auction_id: u64,
    pub authority: Address,
    pub start_ts: i64,
    pub end_ts: i64,
    pub reveal_end_ts: i64,
    pub reserve_price: u64,
    pub highest_bid: u64,
    pub highest_bidder: Option<Address>,
    pub total_bids: u32,
    pub total_revealed: u32,
    pub status: AuctionStatus,
    pub bump: u8,
}

impl Auction {
    /// Bidding opens before it closes, and closes before the reveal window does.
    pub open spec fn windows_ordered(self) -> bool {
        self.start_ts < self.end_ts < self.reveal_end_ts
    }

    /// What holds of every auction record that was opened by `create_auction`
    /// and changed only by the operations of this crate: its windows are
    /// ordered, and a leading bidder is recorded only beside a positive bid.
    pub open spec fn wf(self) -> bool {
        &&& self.windows_ordered()
        &&& self.highest_bidder is Some ==> self.highest_bid > 0
    }

    /// The record of an auction at the moment it is opened.
    pub open spec fn opened(
        auction_id: u64,
        authority: Address,
        start_ts: i64,
        end_ts: i64,
        reveal_end_ts: i64,
        reserve_price: u64,
        bump: u8,
    ) -> Auction {
        Auction {
            auction_id,
            authority,
            start_ts,
            end_ts,
            reveal_end_ts,
            reserve_price,
            highest_bid: 0,
            highest_bidder: None,
            total_bids: 0,
            total_revealed: 0,
            status: AuctionStatus::Bidding,
            bump,
        }
    }

    /// Why an auction with these windows cannot be opened at time `now`, if it cannot.
    pub open spec fn open_error(now: i64, start_ts: i64, end_ts: i64, reveal_end_ts: i64) -> Option<
        AuctionError,
    > {
        if start_ts < now {
            Some(AuctionError::StartInPast)
        } else if !(start_ts < end_ts < reveal_end_ts) {
            Some(AuctionError::InvalidTimeRange)
        } else {
            None
        }
    }

    /// Why no bid can be committed at time `now`, if the bidding window is not open then.
    pub open spec fn bidding_window_error(self, now: i64) -> Option<AuctionError> {
        if now < self.start_ts {
            Some(AuctionError::AuctionNotStarted)
        } else if now >= self.end_ts {
            Some(AuctionError::BiddingClosed)
        } else {
            None
        }
    }

    /// Why no bid can be revealed at time `now`, if the reveal window is not open then.
    pub open spec fn reveal_window_error(self, now: i64) -> Option<AuctionError> {
        if now < self.end_ts {
            Some(AuctionError::RevealNotStarted)
        } else if now >= self.reveal_end_ts {
            Some(AuctionError::RevealClosed)
        } else {
            None
        }
    }

    /// Why a commit cannot be recorded at time `now`, if it cannot.
    pub open spec fn commit_error(self, now: i64) -> Option<AuctionError> {
        if self.bidding_window_error(now) is Some {
            self.bidding_window_error(now)
        } else if self.total_bids == u32::MAX {
            Some(AuctionError::MathOverflow)
        } else {
            None
        }
    }

    /// The auction after one more commit was recorded.
    pub open spec fn with_commit(self) -> Auction {
        Auction { total_bids: (self.total_bids + 1) as u32, ..self }
    }

    /// Why a reveal cannot be recorded at time `now`, if it cannot: `digest` is
    /// the commitment of what is being revealed, `stored_hash` the hash that
    /// was committed.
    pub open spec fn reveal_error(self, now: i64, stored_hash: Seq<u8>, digest: Seq<u8>) -> Option<
        AuctionError,
    > {
        if self.reveal_window_error(now) is Some {
            self.reveal_window_error(now)
        } else if digest != stored_hash {
            Some(AuctionError::InvalidReveal)
        } else if self.total_revealed == u32::MAX {
            Some(AuctionError::MathOverflow)
        } else {
            None
        }
    }

    /// The auction after `bidder` revealed a bid of `amount`: one more reveal
    /// is counted, and the bid leads only if it is strictly higher than the
    /// highest so far, so that of equal bids the earliest keeps the lead.
    pub open spec fn with_reveal(self, bidder: Address, amount: u64) -> Auction {
        if amount > self.highest_bid {
            Auction {
                total_revealed: (self.total_revealed + 1) as u32,
                highest_bid: amount,
                highest_bidder: Some(bidder),
                ..self
            }
        } else {
            Auction { total_revealed: (self.total_revealed + 1) as u32, ..self }
        }
    }

    /// Why the auction cannot be finalized at time `now`, if it cannot.
    pub open spec fn finalize_error(self, now: i64) -> Option<AuctionError> {
        if now < self.reveal_end_ts {
            Some(AuctionError::RevealStillOpen)
        } else if self.status == AuctionStatus::Finalized {
            Some(AuctionError::AuctionAlreadyFinalized)
        } else {
            None
        }
    }

    /// The finalized auction: a highest bid under the reserve price leaves no
    /// winner, and every other field is kept.
    pub open spec fn finalized(self) -> Auction {
        Auction {
            status: AuctionStatus::Finalized,
            highest_bidder: if self.highest_bid < self.reserve_price {
                None
            } else {
                self.highest_bidder
            },
            ..self
        }
    }

    /// Why the auction cannot be settled, if it cannot.
    pub open spec fn settle_error(self) -> Option<AuctionError> {
        if self.status == AuctionStatus::Finalized {
            None
        } else {
            Some(AuctionError::AuctionNotFinalized)
        }
    }
}

} // verus!
