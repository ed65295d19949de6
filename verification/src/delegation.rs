use vstd::prelude::*;

use crate::address::Address;
use crate::event::AuctionSettled;

verus! {

/// How a delegated record is reconciled: every `commit_frequency_ms`
/// milliseconds, or only on request where that is zero; and the remote
/// operator it is pinned to, if any.
#[derive(Clone, Copy, Debug, PartialEq, Eq)]
pub struct DelegateConfig {
    pub commit_frequency_ms: u32,
    pub validator: Option<Address>,
}

/// A request to the delegation coordinator: hand the record at `record`,
/// whose address derives from `seeds`, to a remote execution context.
#[derive(Clone, Debug, PartialEq, Eq)]
pub struct DelegateRequest {
    pub payer: Address,
    pub record: Address,
    pub seeds: Vec<Vec<u8>>,
    pub config: DelegateConfig,
}

/// One step of a settlement, for the caller to perform.
#[derive(Clone, Debug, PartialEq, Eq)]
pub enum SettleStep {
    /// Write the record at `record` out in its serialized form.
    Flush { record: Address },
    /// Have the coordinator commit the records at `records` to the primary
    /// ledger and release their delegation, paid for by `payer`.
    CommitAndUndelegate { payer: Address, records: Vec<Address> },
    /// Emit the settlement notification.
    Notify { event: AuctionSettled },
}

} // verus!
