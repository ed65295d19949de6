use vstd::prelude::*;

use crate::address::Address;

verus! {

/// A controller of a record and the capabilities it is granted.
#[derive(Clone, Copy, Debug, PartialEq, Eq)]
pub struct Member {
    pub flags: u8,
    pub pubkey: Address,
}

/// A request to the permission service: register `members` as controllers of
/// the record at `permissioned_account`, under the permission record at
/// `permission`, paid for by `payer` and signed for with `signer_seeds`.
#[derive(Clone, Debug, PartialEq, Eq)]
pub struct PermissionRequest {
    pub permission: Address,
    pub permissioned_account: Address,
    pub payer: Address,
    pub members: Vec<Member>,
    pub signer_seeds: Vec<Vec<u8>>,
}

} // verus!
