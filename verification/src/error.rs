use vstd::prelude::*;

verus! {

/// Why an operation was rejected.  Every error reports a violated
/// precondition of the call; none is transient.
#[derive(Clone, Copy, Debug, PartialEq, Eq, Structural)]
pub enum AuctionError {
    StartInPast,
    InvalidTimeRange,
    AuctionNotStarted,
    BiddingClosed,
    RevealNotStarted,
    RevealClosed,
    AlreadyRevealed,
    InvalidReveal,
    RevealStillOpen,
    AuctionAlreadyFinalized,
    AuctionNotFinalized,
    MathOverflow,
    PermissionedAccountMismatch,
    PermissionAccountMismatch,
    UnauthorizedAuthority,
    InvalidValidator,
    BidNotCommitted,
    BidAlreadyCommitted,
    BidAccountMismatch,
}

impl AuctionError {
    /// The text shown to the caller for this error.
    pub open spec fn message_text(self) -> Seq<char> {
        match self {
            AuctionError::StartInPast => "Auction start time cannot be in the past."@,
            AuctionError::InvalidTimeRange => "Auction time range is invalid."@,
            AuctionError::AuctionNotStarted => "Auction has not started yet."@,
            AuctionError::BiddingClosed => "Bidding phase has ended."@,
            AuctionError::RevealNotStarted => "Reveal phase has not started yet."@,
            AuctionError::RevealClosed => "Reveal phase has ended."@,
            AuctionError::AlreadyRevealed => "Bid was already revealed."@,
            AuctionError::InvalidReveal => "Reveal payload does not match committed bid hash."@,
            AuctionError::RevealStillOpen => "Reveal window is still open."@,
            AuctionError::AuctionAlreadyFinalized => "Auction was already finalized."@,
            AuctionError::AuctionNotFinalized => "Auction must be finalized before settling."@,
            AuctionError::MathOverflow => "Math overflow."@,
            AuctionError::PermissionedAccountMismatch => "Permissioned account does not match derived PDA."@,
            AuctionError::PermissionAccountMismatch => "Permission account does not match derived PDA."@,
            AuctionError::UnauthorizedAuthority => "Caller is not authorized to manage this account."@,
            AuctionError::InvalidValidator => "Validator account missing or does not match requested validator."@,
            AuctionError::BidNotCommitted => "Bid account is not committed yet."@,
            AuctionError::BidAlreadyCommitted => "Bid account was already committed."@,
            AuctionError::BidAccountMismatch => "Bid account does not match expected auction/bidder."@,
        }
    }

    /// The text shown to the caller for this error.
    pub fn message(&self) -> (text: String)
        ensures
            text@ == self.message_text(),
    {
        match self {
            AuctionError::StartInPast => "Auction start time cannot be in the past.".to_owned(),
            AuctionError::InvalidTimeRange => "Auction time range is invalid.".to_owned(),
            AuctionError::AuctionNotStarted => "Auction has not started yet.".to_owned(),
            AuctionError::BiddingClosed => "Bidding phase has ended.".to_owned(),
            AuctionError::RevealNotStarted => "Reveal phase has not started yet.".to_owned(),
            AuctionError::RevealClosed => "Reveal phase has ended.".to_owned(),
            AuctionError::AlreadyRevealed => "Bid was already revealed.".to_owned(),
            AuctionError::InvalidReveal => "Reveal payload does not match committed bid hash.".to_owned(),
            AuctionError::RevealStillOpen => "Reveal window is still open.".to_owned(),
            AuctionError::AuctionAlreadyFinalized => "Auction was already finalized.".to_owned(),
            AuctionError::AuctionNotFinalized => "Auction must be finalized before settling.".to_owned(),
            AuctionError::MathOverflow => "Math overflow.".to_owned(),
            AuctionError::PermissionedAccountMismatch => "Permissioned account does not match derived PDA.".to_owned(),
            AuctionError::PermissionAccountMismatch => "Permission account does not match derived PDA.".to_owned(),
            AuctionError::UnauthorizedAuthority => "Caller is not authorized to manage this account.".to_owned(),
            AuctionError::InvalidValidator => "Validator account missing or does not match requested validator.".to_owned(),
            AuctionError::BidNotCommitted => "Bid account is not committed yet.".to_owned(),
            AuctionError::BidAlreadyCommitted => "Bid account was already committed.".to_owned(),
            AuctionError::BidAccountMismatch => "Bid account does not match expected auction/bidder.".to_owned(),
        }
    }
}

} // verus!
