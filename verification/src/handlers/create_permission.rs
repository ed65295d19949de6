use vstd::prelude::*;

use crate::address::Address;
use crate::constant::AUTHORITY_FLAG;
use crate::permission::{Member, PermissionRequest};
use crate::seeds::{auction_seeds, auction_seeds_of, bid_seeds, bid_seeds_of, signer_seeds_of, with_bump};
use crate::state::{Auction, Bid};

verus! {

/// The records of a permission request for an auction: the auction with its
/// address, the permission record to create, and who pays.
#[derive(Clone, Copy, Debug, PartialEq, Eq)]
pub struct CreateAuctionPermission {
    pub auction_key: Address,
    pub auction: Auction,
    pub permission: Address,
    pub payer: Address,
}

/// The records of a permission request for a bid: the bid with its address,
/// the permission record to create, and who pays.
#[derive(Clone, Copy, Debug, PartialEq, Eq)]
pub struct CreateBidPermission {
    pub bid_key: Address,
    pub bid: Bid,
    pub permission: Address,
    pub payer: Address,
}

/// Builds the request that makes the authority of the auction the one
/// controller of the auction record, with the authority capability.  The
/// request is signed for with the seeds and bump of the auction record.
pub fn create_auction_permission(ctx: &CreateAuctionPermission) -> (request: PermissionRequest)
    ensures
        request.permission == ctx.permission,
        request.permissioned_account == ctx.auction_key,
        request.payer == ctx.payer,
        request.members@ == seq![Member { flags: AUTHORITY_FLAG, pubkey: ctx.auction.authority }],
        request.signer_seeds.deep_view() == signer_seeds_of(
            auction_seeds_of(ctx.auction.authority, ctx.auction.auction_id),
            ctx.auction.bump,
        ),
{
    let mut members: Vec<Member> = Vec::new();
    members.push(Member { flags: AUTHORITY_FLAG, pubkey: ctx.auction.authority });
    let seeds = auction_seeds(&ctx.auction.authority, ctx.auction.auction_id);
    PermissionRequest {
        permission: ctx.permission,
        permissioned_account: ctx.auction_key,
        payer: ctx.payer,
        members,
        signer_seeds: with_bump(seeds, ctx.auction.bump),
    }
}

/// Builds the request that makes the bidder of the bid the one controller of
/// the bid record, with the authority capability.  The request is signed for
/// with the seeds and bump of the bid record.
pub fn create_bid_permission(ctx: &CreateBidPermission) -> (request: PermissionRequest)
    ensures
        request.permission == ctx.permission,
        request.permissioned_account == ctx.bid_key,
        request.payer == ctx.payer,
        request.members@ == seq![Member { flags: AUTHORITY_FLAG, pubkey: ctx.bid.bidder }],
        request.signer_seeds.deep_view() == signer_seeds_of(
            bid_seeds_of(ctx.bid.auction, ctx.bid.bidder),
            ctx.bid.bump,
        ),
{
    let mut members: Vec<Member> = Vec::new();
    members.push(Member { flags: AUTHORITY_FLAG, pubkey: ctx.bid.bidder });
    let seeds = bid_seeds(&ctx.bid.auction, &ctx.bid.bidder);
    PermissionRequest {
        permission: ctx.permission,
        permissioned_account: ctx.bid_key,
        payer: ctx.payer,
        members,
        signer_seeds: with_bump(seeds, ctx.bid.bump),
    }
}

} // verus!
