use sealed_auction::address::Address;
use sealed_auction::error::AuctionError;
use sealed_auction::event::{AuctionCreated, BidCommitted};
use sealed_auction::handlers::{
    create_auction, initialize_bid_account, submit_sealed_bid, submit_sealed_bid_delegated,
    CreateAuction, InitializeBidAccount, SubmitSealedBid, SubmitSealedBidDelegated,
};
use sealed_auction::state::{Auction, AuctionStatus, Bid};

fn key(byte: u8) -> Address {
    Address::new([byte; 32])
}

fn creation() -> CreateAuction {
    CreateAuction { auction_key: key(10), authority: key(1), bump: 254 }
}

fn open_auction() -> Auction {
    create_auction(&creation(), 1_000, 7, 1_000, 2_000, 3_000, 100).unwrap().0
}

#[test]
fn create_sets_every_field() {
    let (auction, event) = create_auction(&creation(), 500, 7, 1_000, 2_000, 3_000, 100).unwrap();
    assert_eq!(
        auction,
        Auction {
            auction_id: 7,
            authority: key(1),
            start_ts: 1_000,
            end_ts: 2_000,
            reveal_end_ts: 3_000,
            reserve_price: 100,
            highest_bid: 0,
            highest_bidder: None,
            total_bids: 0,
            total_revealed: 0,
            status: AuctionStatus::Bidding,
            bump: 254,
        }
    );
    assert_eq!(
        event,
        AuctionCreated {
            auction: key(10),
            authority: key(1),
            start_ts: 1_000,
            end_ts: 2_000,
            reveal_end_ts: 3_000,
            reserve_price: 100,
        }
    );
}

#[test]
fn create_accepts_start_at_now() {
    assert!(create_auction(&creation(), 1_000, 1, 1_000, 1_001, 1_002, 0).is_ok());
}

#[test]
fn create_rejects_start_in_past() {
    assert_eq!(
        create_auction(&creation(), 1_001, 1, 1_000, 2_000, 3_000, 0),
        Err(AuctionError::StartInPast)
    );
}

#[test]
fn create_reports_start_in_past_before_bad_range() {
    assert_eq!(
        create_auction(&creation(), 1_001, 1, 1_000, 900, 800, 0),
        Err(AuctionError::StartInPast)
    );
}

#[test]
fn create_rejects_end_not_after_start() {
    assert_eq!(
        create_auction(&creation(), 0, 1, 1_000, 1_000, 3_000, 0),
        Err(AuctionError::InvalidTimeRange)
    );
    assert_eq!(
        create_auction(&creation(), 0, 1, 1_000, 999, 3_000, 0),
        Err(AuctionError::InvalidTimeRange)
    );
}

#[test]
fn create_rejects_reveal_end_not_after_end() {
    assert_eq!(
        create_auction(&creation(), 0, 1, 1_000, 2_000, 2_000, 0),
        Err(AuctionError::InvalidTimeRange)
    );
    assert_eq!(
        create_auction(&creation(), 0, 1, 1_000, 2_000, 1_500, 0),
        Err(AuctionError::InvalidTimeRange)
    );
}

#[test]
fn create_handles_extreme_timestamps() {
    assert!(create_auction(&creation(), i64::MIN, 1, i64::MIN, 0, i64::MAX, u64::MAX).is_ok());
    assert_eq!(
        create_auction(&creation(), i64::MAX, 1, i64::MAX, i64::MAX, i64::MAX, 0),
        Err(AuctionError::InvalidTimeRange)
    );
}

#[test]
fn provisioned_bid_is_empty() {
    let bid = initialize_bid_account(&InitializeBidAccount {
        auction_key: key(10),
        bidder: key(2),
        bump: 253,
    });
    assert_eq!(
        bid,
        Bid {
            auction: key(10),
            bidder: key(2),
            bid_hash: [0u8; 32],
            committed: false,
            revealed: false,
            amount: 0,
            nonce: [0u8; 32],
            bump: 253,
        }
    );
}

#[test]
fn direct_commit_creates_committed_bid() {
    let mut ctx =
        SubmitSealedBid { auction_key: key(10), auction: open_auction(), bidder: key(2), bump: 9 };
    let (bid, event) = submit_sealed_bid(&mut ctx, 1_500, [0xAB; 32]).unwrap();
    assert_eq!(
        bid,
        Bid {
            auction: key(10),
            bidder: key(2),
            bid_hash: [0xAB; 32],
            committed: true,
            revealed: false,
            amount: 0,
            nonce: [0u8; 32],
            bump: 9,
        }
    );
    assert_eq!(event, BidCommitted { auction: key(10), bidder: key(2) });
    assert_eq!(ctx.auction.total_bids, 1);
    assert_eq!(ctx.auction.total_revealed, 0);
    assert_eq!(ctx.auction, Auction { total_bids: 1, ..open_auction() });
}

#[test]
fn direct_commit_window_is_half_open() {
    let base =
        SubmitSealedBid { auction_key: key(10), auction: open_auction(), bidder: key(2), bump: 9 };
    let mut ctx = base;
    assert_eq!(submit_sealed_bid(&mut ctx, 999, [1; 32]), Err(AuctionError::AuctionNotStarted));
    assert_eq!(ctx, base);
    assert!(submit_sealed_bid(&mut ctx, 1_000, [1; 32]).is_ok());
    let mut ctx = base;
    assert!(submit_sealed_bid(&mut ctx, 1_999, [1; 32]).is_ok());
    let mut ctx = base;
    assert_eq!(submit_sealed_bid(&mut ctx, 2_000, [1; 32]), Err(AuctionError::BiddingClosed));
    assert_eq!(ctx, base);
    assert_eq!(submit_sealed_bid(&mut ctx, 5_000, [1; 32]), Err(AuctionError::BiddingClosed));
}

#[test]
fn direct_commit_rejects_counter_overflow() {
    let auction = Auction { total_bids: u32::MAX, ..open_auction() };
    let base = SubmitSealedBid { auction_key: key(10), auction, bidder: key(2), bump: 9 };
    let mut ctx = base;
    assert_eq!(submit_sealed_bid(&mut ctx, 1_500, [1; 32]), Err(AuctionError::MathOverflow));
    assert_eq!(ctx, base);
    let auction = Auction { total_bids: u32::MAX - 1, ..open_auction() };
    let mut ctx = SubmitSealedBid { auction_key: key(10), auction, bidder: key(2), bump: 9 };
    assert!(submit_sealed_bid(&mut ctx, 1_500, [1; 32]).is_ok());
    assert_eq!(ctx.auction.total_bids, u32::MAX);
}

fn provisioned(bidder: Address) -> Bid {
    initialize_bid_account(&InitializeBidAccount { auction_key: key(10), bidder, bump: 3 })
}

#[test]
fn delegated_commit_fills_provisioned_bid() {
    let mut ctx = SubmitSealedBidDelegated {
        auction_key: key(10),
        auction: open_auction(),
        bid: provisioned(key(2)),
        bidder: key(2),
    };
    let event = submit_sealed_bid_delegated(&mut ctx, 1_200, [0xCD; 32]).unwrap();
    assert_eq!(event, BidCommitted { auction: key(10), bidder: key(2) });
    assert_eq!(
        ctx.bid,
        Bid {
            auction: key(10),
            bidder: key(2),
            bid_hash: [0xCD; 32],
            committed: true,
            revealed: false,
            amount: 0,
            nonce: [0u8; 32],
            bump: 3,
        }
    );
    assert_eq!(ctx.auction, Auction { total_bids: 1, ..open_auction() });
    assert_eq!(ctx.auction_key, key(10));
    assert_eq!(ctx.bidder, key(2));
}

#[test]
fn delegated_commit_rejects_second_commit() {
    let mut ctx = SubmitSealedBidDelegated {
        auction_key: key(10),
        auction: open_auction(),
        bid: provisioned(key(2)),
        bidder: key(2),
    };
    submit_sealed_bid_delegated(&mut ctx, 1_200, [0xCD; 32]).unwrap();
    let before = ctx;
    assert_eq!(
        submit_sealed_bid_delegated(&mut ctx, 1_300, [0xEE; 32]),
        Err(AuctionError::BidAlreadyCommitted)
    );
    assert_eq!(ctx, before);
    assert_eq!(ctx.auction.total_bids, 1);
}

#[test]
fn delegated_commit_rejects_bid_of_other_auction() {
    let base = SubmitSealedBidDelegated {
        auction_key: key(11),
        auction: open_auction(),
        bid: provisioned(key(2)),
        bidder: key(2),
    };
    let mut ctx = base;
    assert_eq!(
        submit_sealed_bid_delegated(&mut ctx, 1_200, [1; 32]),
        Err(AuctionError::BidAccountMismatch)
    );
    assert_eq!(ctx, base);
}

#[test]
fn delegated_commit_rejects_bid_of_other_bidder() {
    let base = SubmitSealedBidDelegated {
        auction_key: key(10),
        auction: open_auction(),
        bid: provisioned(key(2)),
        bidder: key(3),
    };
    let mut ctx = base;
    assert_eq!(
        submit_sealed_bid_delegated(&mut ctx, 1_200, [1; 32]),
        Err(AuctionError::BidAccountMismatch)
    );
    assert_eq!(ctx, base);
}

#[test]
fn delegated_commit_checks_window_before_bid() {
    let mut committed = provisioned(key(2));
    committed.committed = true;
    let mut ctx = SubmitSealedBidDelegated {
        auction_key: key(10),
        auction: open_auction(),
        bid: committed,
        bidder: key(2),
    };
    assert_eq!(
        submit_sealed_bid_delegated(&mut ctx, 999, [1; 32]),
        Err(AuctionError::AuctionNotStarted)
    );
    assert_eq!(
        submit_sealed_bid_delegated(&mut ctx, 2_000, [1; 32]),
        Err(AuctionError::BiddingClosed)
    );
    assert_eq!(
        submit_sealed_bid_delegated(&mut ctx, 1_999, [1; 32]),
        Err(AuctionError::BidAlreadyCommitted)
    );
}

#[test]
fn delegated_commit_checks_bid_before_counter() {
    let auction = Auction { total_bids: u32::MAX, ..open_auction() };
    let mut ctx = SubmitSealedBidDelegated {
        auction_key: key(10),
        auction,
        bid: provisioned(key(2)),
        bidder: key(3),
    };
    assert_eq!(
        submit_sealed_bid_delegated(&mut ctx, 1_500, [1; 32]),
        Err(AuctionError::BidAccountMismatch)
    );
    ctx.bidder = key(2);
    let before = ctx;
    assert_eq!(
        submit_sealed_bid_delegated(&mut ctx, 1_500, [1; 32]),
        Err(AuctionError::MathOverflow)
    );
    assert_eq!(ctx, before);
    assert!(!ctx.bid.committed);
}
