pub mod create_auction;
pub mod create_permission;
pub mod delegate_auction;
pub mod delegate_bid;
pub mod finalize_auction;
pub mod finalize_settle;
pub mod initialize_bid;
pub mod reveal_bid;
pub mod submit_sealed_bid;
pub mod submit_sealed_bid_del;

pub use create_auction::{create_auction, CreateAuction};
pub use create_permission::{
    create_auction_permission, create_bid_permission, CreateAuctionPermission, CreateBidPermission,
};
pub use delegate_auction::{delegate_auction, DelegateAuction};
pub use delegate_bid::{delegate_bid, DelegateBid};
pub use finalize_auction::{finalize_auction, FinalizeAuction};
pub use finalize_settle::{finalize_and_settle, FinalizeAndSettle};
pub use initialize_bid::{initialize_bid_account, InitializeBidAccount};
pub use reveal_bid::{reveal_bid, reveal_bid_with_digest, RevealBid};
pub use submit_sealed_bid::{submit_sealed_bid, SubmitSealedBid};
pub use submit_sealed_bid_del::{submit_sealed_bid_delegated, SubmitSealedBidDelegated};
