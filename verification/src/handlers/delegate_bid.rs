use vstd::prelude::*;

use crate::address::Address;
use crate::delegation::{DelegateConfig, DelegateRequest};
use crate::seeds::{bid_seeds, bid_seeds_of};

verus! {

/// The accounts of a delegation of a bid record: who pays, the remote
/// operator to pin the record to, if any, and the address of the record.
#[derive(Clone, Copy, Debug, PartialEq, Eq)]
pub struct DelegateBid {
    pub payer: Address,
    pub validator: Option<Address>,
    pub bid: Address,
}

/// Builds the request that hands the bid record of `bidder` in the auction at
/// `auction` to a remote execution context.  The record is committed back
/// only on request, never periodically, and is pinned to the operator that
/// `ctx` names, if it names one.
pub fn delegate_bid(ctx: &DelegateBid, auction: Address, bidder: Address) -> (request: DelegateRequest)
    ensures
        request.payer == ctx.payer,
        request.record == ctx.bid,
        request.seeds.deep_view() == bid_seeds_of(auction, bidder),
        request.config == (DelegateConfig { commit_frequency_ms: 0, validator: ctx.validator }),
{
    DelegateRequest {
        payer: ctx.payer,
        record: ctx.bid,
        seeds: bid_seeds(&auction, &bidder),
        config: DelegateConfig { commit_frequency_ms: 0, validator: ctx.validator },
    }
}

} // verus!
