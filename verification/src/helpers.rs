use sha2::{Digest, Sha256};
use vstd::bytes::{lemma_auto_spec_u64_to_from_le_bytes, spec_u64_to_le_bytes, u64_to_le_bytes};
use vstd::prelude::*;

use crate::address::Address;

verus! {

/// The SHA-256 digest of `data`, as `sha2` computes it.
pub uninterp spec fn sha256_of(data: Seq<u8>) -> Seq<u8>;

/// Calls `sha2::Sha256::digest` (`digest::Digest::digest`), which hashes the
/// whole of `data` in one go.  The digest is a function of the bytes of
/// `data` alone; its 32 bytes are handed back as they come.
#[verifier::external_body]
fn sha256(data: &[u8]) -> (digest: [u8; 32])
    ensures
        digest@ == sha256_of(data@),
{
    let digest = Sha256::digest(data);
    let mut output = [0_u8; 32];
    output.copy_from_slice(&digest);
    output
}

/// What is hashed to commit to a bid: the amount as eight little-endian
/// bytes, then the nonce, the bidder and the auction, 32 bytes each.  Every
/// field has a fixed width, so no two bids share a preimage.
pub open spec fn bid_preimage(amount: u64, nonce: Seq<u8>, bidder: Seq<u8>, auction: Seq<u8>) -> Seq<
    u8,
> {
    spec_u64_to_le_bytes(amount) + nonce + bidder + auction
}

/// The commitment to a bid of `amount` with `nonce`, made by `bidder` in the
/// auction at `auction`.
pub open spec fn bid_commitment(amount: u64, nonce: [u8; 32], bidder: Address, auction: Address) -> Seq<
    u8,
> {
    sha256_of(bid_preimage(amount, nonce@, bidder@, auction@))
}

/// Appends the bytes of `bytes` to `buffer`.
fn append_bytes(buffer: &mut Vec<u8>, bytes: &[u8; 32])
    ensures
        final(buffer)@ == old(buffer)@ + bytes@,
{
    let mut i: usize = 0;
    while i < 32
        invariant
            i <= 32,
            buffer@ == old(buffer)@ + bytes@.subrange(0, i as int),
        decreases 32 - i,
    {
        buffer.push(bytes[i]);
        assert(bytes@.subrange(0, i as int).push(bytes@[i as int]) == bytes@.subrange(
            0,
            i as int + 1,
        ));
        i += 1;
    }
    assert(bytes@.subrange(0, 32) == bytes@);
}

/// Computes the commitment to a bid: the SHA-256 digest of the amount, the
/// nonce, the bidder and the auction, in that order.
pub fn compute_bid_hash(amount: u64, nonce: &[u8; 32], bidder: &Address, auction: &Address) -> (digest:
    [u8; 32])
    ensures
        digest@ == bid_commitment(amount, *nonce, *bidder, *auction),
{
    let mut preimage = u64_to_le_bytes(amount);
    append_bytes(&mut preimage, nonce);
    append_bytes(&mut preimage, &bidder.bytes);
    append_bytes(&mut preimage, &auction.bytes);
    sha256(preimage.as_slice())
}

/// A preimage is 104 bytes long, and two bids with the same preimage agree in
/// amount, nonce, bidder and auction.
pub proof fn bid_preimage_is_injective(
    amount1: u64,
    nonce1: [u8; 32],
    bidder1: Address,
    auction1: Address,
    amount2: u64,
    nonce2: [u8; 32],
    bidder2: Address,
    auction2: Address,
)
    ensures
        bid_preimage(amount1, nonce1@, bidder1@, auction1@).len() == 104,
        bid_preimage(amount1, nonce1@, bidder1@, auction1@) == bid_preimage(
            amount2,
            nonce2@,
            bidder2@,
            auction2@,
        ) <==> amount1 == amount2 && nonce1 == nonce2 && bidder1 == bidder2 && auction1
            == auction2,
{
    lemma_auto_spec_u64_to_from_le_bytes();
    let first = bid_preimage(amount1, nonce1@, bidder1@, auction1@);
    let second = bid_preimage(amount2, nonce2@, bidder2@, auction2@);
    assert(first.len() == 104);
    if first == second {
        assert(first.subrange(0, 8) == spec_u64_to_le_bytes(amount1));
        assert(second.subrange(0, 8) == spec_u64_to_le_bytes(amount2));
        assert(first.subrange(8, 40) == nonce1@);
        assert(second.subrange(8, 40) == nonce2@);
        assert(first.subrange(40, 72) == bidder1@);
        assert(second.subrange(40, 72) == bidder2@);
        assert(first.subrange(72, 104) == auction1@);
        assert(second.subrange(72, 104) == auction2@);
        assert(nonce1 =~= nonce2);
        assert(bidder1.bytes =~= bidder2.bytes);
        assert(auction1.bytes =~= auction2.bytes);
    }
}

} // verus!
