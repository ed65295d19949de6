use vstd::bytes::{spec_u64_to_le_bytes, u64_to_le_bytes};
use vstd::prelude::*;
use vstd::slice::slice_to_vec;

use crate::address::Address;
use crate::constant::{AUCTION_SEED, BID_SEED};

verus! {

/// The seeds from which the address of an auction record is derived: the
/// auction tag, the authority, and the auction id as eight little-endian bytes.
pub open spec fn auction_seeds_of(authority: Address, auction_id: u64) -> Seq<Seq<u8>> {
    seq![AUCTION_SEED@, authority@, spec_u64_to_le_bytes(auction_id)]
}

/// The seeds from which the address of a bid record is derived: the bid tag,
/// the auction and the bidder.
pub open spec fn bid_seeds_of(auction: Address, bidder: Address) -> Seq<Seq<u8>> {
    seq![BID_SEED@, auction@, bidder@]
}

/// Seeds together with the bump of the derived address, as a record's owner
/// presents them to sign for the record.
pub open spec fn signer_seeds_of(seeds: Seq<Seq<u8>>, bump: u8) -> Seq<Seq<u8>> {
    seeds.push(seq![bump])
}

/// Builds the seeds of the auction record of `authority` with id `auction_id`.
pub fn auction_seeds(authority: &Address, auction_id: u64) -> (seeds: Vec<Vec<u8>>)
    ensures
        seeds.deep_view() == auction_seeds_of(*authority, auction_id),
{
    let mut seeds: Vec<Vec<u8>> = Vec::new();
    seeds.push(slice_to_vec(AUCTION_SEED.as_slice()));
    seeds.push(slice_to_vec(authority.bytes.as_slice()));
    seeds.push(u64_to_le_bytes(auction_id));
    assert(seeds.deep_view() =~~= auction_seeds_of(*authority, auction_id));
    seeds
}

/// Builds the seeds of the bid record of `bidder` in the auction at `auction`.
pub fn bid_seeds(auction: &Address, bidder: &Address) -> (seeds: Vec<Vec<u8>>)
    ensures
        seeds.deep_view() == bid_seeds_of(*auction, *bidder),
{
    let mut seeds: Vec<Vec<u8>> = Vec::new();
    seeds.push(slice_to_vec(BID_SEED.as_slice()));
    seeds.push(slice_to_vec(auction.bytes.as_slice()));
    seeds.push(slice_to_vec(bidder.bytes.as_slice()));
    assert(seeds.deep_view() =~~= bid_seeds_of(*auction, *bidder));
    seeds
}

/// Appends the bump to seeds, which makes them signer seeds.
pub fn with_bump(seeds: Vec<Vec<u8>>, bump: u8) -> (signer_seeds: Vec<Vec<u8>>)
    ensures
        signer_seeds.deep_view() == signer_seeds_of(seeds.deep_view(), bump),
{
    let mut signer_seeds = seeds;
    let mut last: Vec<u8> = Vec::new();
    last.push(bump);
    signer_seeds.push(last);
    assert(signer_seeds.deep_view() =~~= signer_seeds_of(seeds.deep_view(), bump));
    signer_seeds
}

} // verus!
