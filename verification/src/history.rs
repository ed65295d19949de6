use vstd::prelude::*;

use crate::address::Address;
use crate::error::AuctionError;
use crate::handlers::{RevealBid, SubmitSealedBid, SubmitSealedBidDelegated};
use crate::helpers::{bid_preimage, sha256_of};
use crate::state::{Auction, AuctionStatus, Bid};

verus! {

/// One call on an auction and the bids made in it.
pub enum Call {
    /// `bidder` has an empty bid provisioned.
    Provision { bidder: Address, bump: u8 },
    /// `bidder` commits `bid_hash` at time `now`: to the bid provisioned for
    /// them, or, where there is none, to a bid that the call creates.
    Commit { bidder: Address, bid_hash: [u8; 32], bump: u8, now: i64 },
    /// `bidder` reveals `amount` and `nonce` at time `now`.
    Reveal { bidder: Address, amount: u64, nonce: [u8; 32], now: i64 },
    /// The auction is finalized at time `now`.
    Finalize { now: i64 },
}

/// An auction together with the bids made in it, each under its bidder.
pub struct Book {
    pub auction_key: Address,
    pub auction: Auction,
    pub bids: Map<Address, Bid>,
}

/// A bid that was revealed: who revealed it, and the amount.
pub struct Revealed {
    pub bidder: Address,
    pub amount: u64,
}

impl Book {
    /// The auction is well formed, and every bid is well formed and belongs
    /// to this auction and to the bidder it is kept under.
    pub open spec fn wf(self) -> bool {
        &&& self.auction.wf()
        &&& forall|bidder: Address| #[trigger]
            self.bids.dom().contains(bidder) ==> {
                &&& self.bids[bidder].wf()
                &&& self.bids[bidder].bidder == bidder
                &&& self.bids[bidder].auction == self.auction_key
            }
    }

    /// The records that a commit by `bidder` to their provisioned bid works on.
    pub open spec fn commit_records(self, bidder: Address) -> SubmitSealedBidDelegated {
        SubmitSealedBidDelegated {
            auction_key: self.auction_key,
            auction: self.auction,
            bid: self.bids[bidder],
            bidder,
        }
    }

    /// The records that a commit by `bidder` works on where it creates the bid.
    pub open spec fn create_records(self, bidder: Address, bump: u8) -> SubmitSealedBid {
        SubmitSealedBid { auction_key: self.auction_key, auction: self.auction, bidder, bump }
    }

    /// The records that a reveal by `bidder` works on.
    pub open spec fn reveal_records(self, bidder: Address) -> RevealBid {
        RevealBid { auction_key: self.auction_key, auction: self.auction, bid: self.bids[bidder] }
    }

    /// Whether `call` succeeds on this book.
    pub open spec fn accepts(self, call: Call) -> bool {
        match call {
            Call::Provision { bidder, bump } => !self.bids.dom().contains(bidder),
            Call::Commit { bidder, bid_hash, bump, now } => if self.bids.dom().contains(bidder) {
                self.commit_records(bidder).error(now) is None
            } else {
                self.auction.commit_error(now) is None
            },
            Call::Reveal { bidder, amount, nonce, now } => {
                &&& self.bids.dom().contains(bidder)
                &&& self.reveal_records(bidder).error(
                    now,
                    self.reveal_records(bidder).commitment(amount, nonce),
                ) is None
            },
            Call::Finalize { now } => self.auction.finalize_error(now) is None,
        }
    }

    /// The book after `call`.  A call that fails changes nothing.
    pub open spec fn after(self, call: Call) -> Book {
        if !self.accepts(call) {
            self
        } else {
            match call {
                Call::Provision { bidder, bump } => Book {
                    bids: self.bids.insert(bidder, Bid::provisioned(self.auction_key, bidder, bump)),
                    ..self
                },
                Call::Commit { bidder, bid_hash, bump, now } => if self.bids.dom().contains(bidder) {
                    let done = self.commit_records(bidder).committed(bid_hash);
                    Book { auction: done.auction, bids: self.bids.insert(bidder, done.bid), ..self }
                } else {
                    let records = self.create_records(bidder, bump);
                    Book {
                        auction: records.committed().auction,
                        bids: self.bids.insert(bidder, records.new_bid(bid_hash)),
                        ..self
                    }
                },
                Call::Reveal { bidder, amount, nonce, now } => {
                    let done = self.reveal_records(bidder).revealed(amount, nonce);
                    Book { auction: done.auction, bids: self.bids.insert(bidder, done.bid), ..self }
                },
                Call::Finalize { now } => Book { auction: self.auction.finalized(), ..self },
            }
        }
    }

    /// The book after `calls`, made one after the other.
    pub open spec fn after_all(self, calls: Seq<Call>) -> Book
        decreases calls.len(),
    {
        if calls.len() == 0 {
            self
        } else {
            self.after_all(calls.drop_last()).after(calls.last())
        }
    }

    /// How many of `calls` are commits that succeed.
    pub open spec fn commits(self, calls: Seq<Call>) -> nat
        decreases calls.len(),
    {
        if calls.len() == 0 {
            0
        } else {
            let counted = self.commits(calls.drop_last());
            if calls.last() is Commit && self.after_all(calls.drop_last()).accepts(calls.last()) {
                counted + 1
            } else {
                counted
            }
        }
    }

    /// The reveals among `calls` that succeed, in the order they are made.
    pub open spec fn reveals(self, calls: Seq<Call>) -> Seq<Revealed>
        decreases calls.len(),
    {
        if calls.len() == 0 {
            Seq::empty()
        } else {
            let earlier = self.reveals(calls.drop_last());
            match calls.last() {
                Call::Reveal { bidder, amount, nonce, now } => if self.after_all(
                    calls.drop_last(),
                ).accepts(calls.last()) {
                    earlier.push(Revealed { bidder, amount })
                } else {
                    earlier
                },
                _ => earlier,
            }
        }
    }
}

/// Whether the reveal at index `k` is the first of the highest among `reveals`.
pub open spec fn first_highest(reveals: Seq<Revealed>, k: int) -> bool {
    &&& 0 <= k < reveals.len()
    &&& forall|j: int| 0 <= j < reveals.len() ==> (#[trigger] reveals[j]).amount <= reveals[k].amount
    &&& forall|j: int| 0 <= j < k ==> (#[trigger] reveals[j]).amount < reveals[k].amount
}

/// Whatever calls are made on a well-formed book, in whatever order, the book
/// stays well formed: the windows of the auction stay ordered, no bid is
/// revealed that was not committed, and every bid stays with its bidder.
pub proof fn wf_is_kept(book: Book, calls: Seq<Call>)
    requires
        book.wf(),
    ensures
        book.after_all(calls).wf(),
    decreases calls.len(),
{
    if calls.len() > 0 {
        wf_is_kept(book, calls.drop_last());
    }
}

/// The counters of the auction count the calls that succeed, whatever the
/// order in which the bidders make them: `total_bids` grows by the number of
/// successful commits, `total_revealed` by the number of successful reveals.
pub proof fn counters_count_successes(book: Book, calls: Seq<Call>)
    ensures
        book.after_all(calls).auction.total_bids == book.auction.total_bids + book.commits(calls),
        book.after_all(calls).auction.total_revealed == book.auction.total_revealed + book.reveals(
            calls,
        ).len(),
    decreases calls.len(),
{
    if calls.len() > 0 {
        counters_count_successes(book, calls.drop_last());
    }
}

/// The time windows, the reserve price and the identity of an auction never
/// change, and its highest bid and its counters never fall.
pub proof fn auction_only_grows(book: Book, calls: Seq<Call>)
    ensures
        book.after_all(calls).auction_key == book.auction_key,
        book.after_all(calls).auction.auction_id == book.auction.auction_id,
        book.after_all(calls).auction.authority == book.auction.authority,
        book.after_all(calls).auction.start_ts == book.auction.start_ts,
        book.after_all(calls).auction.end_ts == book.auction.end_ts,
        book.after_all(calls).auction.reveal_end_ts == book.auction.reveal_end_ts,
        book.after_all(calls).auction.reserve_price == book.auction.reserve_price,
        book.after_all(calls).auction.highest_bid >= book.auction.highest_bid,
        book.after_all(calls).auction.total_bids >= book.auction.total_bids,
        book.after_all(calls).auction.total_revealed >= book.auction.total_revealed,
        book.auction.status == AuctionStatus::Finalized ==> book.after_all(calls).auction.status
            == AuctionStatus::Finalized,
    decreases calls.len(),
{
    if calls.len() > 0 {
        auction_only_grows(book, calls.drop_last());
    }
}

/// After any calls on an auction that had no bid revealed before, none of
/// them a finalization: the highest bid of the auction is the highest amount
/// revealed, and its highest bidder is the first to have revealed that
/// amount.  The index `k` that is handed back is that of this first reveal,
/// where some reveal was above zero.  Where none was, the highest bid is zero
/// and the auction has no highest bidder.
pub proof fn leader_is_first_highest(book: Book, calls: Seq<Call>) -> (k: int)
    requires
        book.wf(),
        book.auction.highest_bid == 0,
        forall|i: int| 0 <= i < calls.len() ==> !(#[trigger] calls[i] is Finalize),
    ensures
        forall|i: int|
            0 <= i < book.reveals(calls).len() ==> (#[trigger] book.reveals(calls)[i]).amount
                <= book.after_all(calls).auction.highest_bid,
        book.after_all(calls).auction.highest_bid == 0 ==> book.after_all(
            calls,
        ).auction.highest_bidder is None,
        book.after_all(calls).auction.highest_bid > 0 ==> {
            &&& first_highest(book.reveals(calls), k)
            &&& book.after_all(calls).auction.highest_bid == book.reveals(calls)[k].amount
            &&& book.after_all(calls).auction.highest_bidder == Some(book.reveals(calls)[k].bidder)
        },
    decreases calls.len(),
{
    if calls.len() == 0 {
        0
    } else {
        let earlier = calls.drop_last();
        assert forall|i: int| 0 <= i < earlier.len() implies !(#[trigger] earlier[i] is Finalize) by {
            assert(earlier[i] == calls[i]);
        }
        let k0 = leader_is_first_highest(book, earlier);
        wf_is_kept(book, earlier);
        let before = book.after_all(earlier);
        let seen = book.reveals(earlier);
        assert(!(calls[calls.len() - 1] is Finalize));
        match calls.last() {
            Call::Reveal { bidder, amount, nonce, now } => {
                if before.accepts(calls.last()) {
                    assert(before.bids[bidder].bidder == bidder);
                    if amount > before.auction.highest_bid {
                        seen.len() as int
                    } else {
                        k0
                    }
                } else {
                    k0
                }
            },
            _ => k0,
        }
    }
}

/// Before the end of the reveal window a finalization fails with
/// `RevealStillOpen`.  From then on it succeeds on an auction that is not
/// finalized, and only on such: after it has succeeded once, it fails at every
/// time, with `AuctionAlreadyFinalized` from the end of the reveal window on.
pub proof fn finalize_succeeds_once(auction: Auction, now: i64, later: i64)
    ensures
        now < auction.reveal_end_ts ==> auction.finalize_error(now) == Some(
            AuctionError::RevealStillOpen,
        ),
        now >= auction.reveal_end_ts && auction.status == AuctionStatus::Bidding
            ==> auction.finalize_error(now) is None,
        auction.finalized().finalize_error(later) is Some,
        later >= auction.reveal_end_ts ==> auction.finalized().finalize_error(later) == Some(
            AuctionError::AuctionAlreadyFinalized,
        ),
{
}

/// Where the highest bid is under the reserve price, the finalized auction
/// has no winner; where it is not, the highest bidder wins.  Either way the
/// highest bid and the counters stay as they were.
pub proof fn reserve_decides_winner(auction: Auction)
    ensures
        auction.highest_bid < auction.reserve_price ==> auction.finalized().highest_bidder is None,
        auction.highest_bid >= auction.reserve_price ==> auction.finalized().highest_bidder
            == auction.highest_bidder,
        auction.finalized().highest_bid == auction.highest_bid,
        auction.finalized().total_bids == auction.total_bids,
        auction.finalized().total_revealed == auction.total_revealed,
        auction.finalized().status == AuctionStatus::Finalized,
{
}

/// Where nothing else stands in the way of a reveal (the bid is committed and
/// not revealed, the reveal window is open, the counter has room), the reveal
/// succeeds if and only if the commitment of what is revealed is the
/// committed hash, and fails with `InvalidReveal` otherwise.
pub proof fn reveal_succeeds_iff_commitment_matches(
    records: RevealBid,
    now: i64,
    amount: u64,
    nonce: [u8; 32],
)
    requires
        records.bid.committed,
        !records.bid.revealed,
        records.auction.end_ts <= now < records.auction.reveal_end_ts,
        records.auction.total_revealed < u32::MAX,
    ensures
        records.error(now, records.commitment(amount, nonce)) is None <==> records.commitment(
            amount,
            nonce,
        ) == records.bid.bid_hash@,
        records.error(now, records.commitment(amount, nonce)) is Some ==> records.error(
            now,
            records.commitment(amount, nonce),
        ) == Some(AuctionError::InvalidReveal),
{
}

/// Take a reveal that succeeds, and change the amount, the nonce, the bidder
/// or the address of the auction, leaving the committed hash and the rest as
/// they are.  Then what is hashed differs, and the changed reveal fails with
/// `InvalidReveal`, unless the two preimages have the same SHA-256 digest.
pub proof fn changed_reveal_is_rejected(
    records: RevealBid,
    now: i64,
    amount: u64,
    nonce: [u8; 32],
    changed: RevealBid,
    changed_amount: u64,
    changed_nonce: [u8; 32],
)
    requires
        records.error(now, records.commitment(amount, nonce)) is None,
        changed.auction == records.auction,
        changed.bid.bid_hash == records.bid.bid_hash,
        changed.bid.committed == records.bid.committed,
        changed.bid.revealed == records.bid.revealed,
        amount != changed_amount || nonce != changed_nonce || records.bid.bidder
            != changed.bid.bidder || records.auction_key != changed.auction_key,
    ensures
        bid_preimage(amount, nonce@, records.bid.bidder@, records.auction_key@) != bid_preimage(
            changed_amount,
            changed_nonce@,
            changed.bid.bidder@,
            changed.auction_key@,
        ),
        changed.error(now, changed.commitment(changed_amount, changed_nonce)) == Some(
            AuctionError::InvalidReveal,
        ) || sha256_of(bid_preimage(amount, nonce@, records.bid.bidder@, records.auction_key@))
            == sha256_of(
            bid_preimage(changed_amount, changed_nonce@, changed.bid.bidder@, changed.auction_key@),
        ),
{
    crate::helpers::bid_preimage_is_injective(
        amount,
        nonce,
        records.bid.bidder,
        records.auction_key,
        changed_amount,
        changed_nonce,
        changed.bid.bidder,
        changed.auction_key,
    );
}

} // verus!
