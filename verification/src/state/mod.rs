pub mod auction;
pub mod bid;

pub use auction::{Auction, AuctionStatus};
pub use bid::Bid;
