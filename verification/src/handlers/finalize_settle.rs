use vstd::prelude::*;

use crate::address::Address;
use crate::delegation::SettleStep;
use crate::error::AuctionError;
use crate::event::AuctionSettled;
use crate::state::{Auction, AuctionStatus};

verus! {

/// The records of a settlement: the auction with its address, and who pays
/// for the commit.
#[derive(Clone, Copy, Debug, PartialEq, Eq)]
pub struct FinalizeAndSettle {
    pub auction_key: Address,
    pub auction: Auction,
    pub payer: Address,
}

impl FinalizeAndSettle {
    /// Whether `steps` is the settlement of this auction: flush the record,
    /// then commit it and release its delegation, then notify.
    pub open spec fn is_settlement(self, steps: Seq<SettleStep>) -> bool {
        &&& steps.len() == 3
        &&& steps[0] == (SettleStep::Flush { record: self.auction_key })
        &&& steps[1] matches SettleStep::CommitAndUndelegate { payer, records }
        &&& payer == self.payer
        &&& records@ == seq![self.auction_key]
        &&& steps[2] == (SettleStep::Notify { event: AuctionSettled { auction: self.auction_key } })
    }
}

/// Plans the settlement of a finalized auction.
///
/// Fails with `AuctionNotFinalized` unless the auction is finalized, and then
/// asks for no step at all.  Otherwise the steps are to be performed in the
/// order given: the record is flushed before it is committed, so that the
/// commit carries its latest state.  The auction itself is not changed: where
/// the commit fails, the same call plans the same steps again.
pub fn finalize_and_settle(ctx: &FinalizeAndSettle) -> (result: Result<Vec<SettleStep>, AuctionError>)
    ensures
        match result {
            Ok(steps) => ctx.auction.settle_error() is None && ctx.is_settlement(steps@),
            Err(e) => ctx.auction.settle_error() == Some(e),
        },
        result is Ok <==> ctx.auction.status == AuctionStatus::Finalized,
{
    if ctx.auction.status != AuctionStatus::Finalized {
        return Err(AuctionError::AuctionNotFinalized);
    }
    let mut records: Vec<Address> = Vec::new();
    records.push(ctx.auction_key);
    let mut steps: Vec<SettleStep> = Vec::new();
    steps.push(SettleStep::Flush { record: ctx.auction_key });
    steps.push(SettleStep::CommitAndUndelegate { payer: ctx.payer, records });
    steps.push(SettleStep::Notify { event: AuctionSettled { auction: ctx.auction_key } });
    Ok(steps)
}

} // verus!
