use vstd::prelude::*;

verus! {

/// Namespace tag under which auction records are derived.
pub const AUCTION_SEED: [u8; 7] = [97, 117, 99, 116, 105, 111, 110];

/// Namespace tag under which bid records are derived.
pub const BID_SEED: [u8; 3] = [98, 105, 100];

/// Capability flag of a controller that holds authority over a record.
pub const AUTHORITY_FLAG: u8 = 1;

} // verus!
