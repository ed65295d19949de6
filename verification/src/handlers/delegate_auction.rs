use vstd::prelude::*;

use crate::address::Address;
use crate::delegation::{DelegateConfig, DelegateRequest};
use crate::seeds::{auction_seeds, auction_seeds_of};

verus! {

/// The accounts of a delegation of an auction record: who pays, the remote
/// operator to pin the record to, if any, and the address of the record.
#[derive(Clone, Copy, Debug, PartialEq, Eq)]
pub struct DelegateAuction {
    pub payer: Address,
    pub validator: Option<Address>,
    pub auction: Address,
}

/// Builds the request that hands the auction record of `authority` with id
/// `auction_id` to a remote execution context.  The record is committed back
/// only on request, never periodically, and is pinned to the operator that
/// `ctx` names, if it names one.
pub fn delegate_auction(ctx: &DelegateAuction, authority: Address, auction_id: u64) -> (request:
    DelegateRequest)
    ensures
        request.payer == ctx.payer,
        request.record == ctx.auction,
        request.seeds.deep_view() == auction_seeds_of(authority, auction_id),
        request.config == (DelegateConfig { commit_frequency_ms: 0, validator: ctx.validator }),
{
    DelegateRequest {
        payer: ctx.payer,
        record: ctx.auction,
        seeds: auction_seeds(&authority, auction_id),
        config: DelegateConfig { commit_frequency_ms: 0, validator: ctx.validator },
    }
}

} // verus!
