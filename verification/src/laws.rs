use crate::auction::{winner_candidate, Auction};
use crate::errors::ErrorCode;
use crate::ledger::{active_amount, total_amount};
use crate::vault::authority_digest_of;
use vstd::prelude::*;

verus! {

/// Fund conservation: for a well-formed auction, everything ever
/// deposited is either still in custody or has been released, and what
/// was deposited is exactly the sum of the recorded bid amounts.
pub proof fn lemma_fund_conservation(a: Auction)
    requires
        a.wf(),
    ensures
        a.vault.total_deposited == a.vault.total_released + a.vault.balance,
        a.vault.total_deposited == total_amount(a.records()),
        a.vault.balance == active_amount(a.records()),
{
}

/// At most one bid record ever reaches `Won`, and it is the one matching
/// the auction's recorded winner and winning amount.
pub proof fn lemma_single_winner(a: Auction, i: int, j: int)
    requires
        a.wf(),
        0 <= i < a.records().len(),
        0 <= j < a.records().len(),
        a.records()[i].status is Won,
        a.records()[j].status is Won,
    ensures
        i == j,
        a.winner == Some(a.records()[i].bidder),
        a.records()[i].amount == a.winning_amount,
{
    if !(a.status is Closed) {
        assert(a.records()[i].status is Active);
    }
    let w = a.winner->Some_0;
    assert(a.records()[i].bidder == w);
    assert(a.records()[j].bidder == w);
    if i != j {
        if i < j {
            assert(a.ledger.records@[i].bidder != a.ledger.records@[j].bidder);
        } else {
            assert(a.ledger.records@[j].bidder != a.ledger.records@[i].bidder);
        }
    }
}

/// Applying a result to a closed auction is rejected with a precondition
/// error, whatever the result says; together with the contract of
/// `apply_result` (a rejected call changes nothing), applying a result
/// twice cannot re-set the winner or move funds.
pub proof fn lemma_apply_result_after_close_rejected(
    a: Auction,
    winner: u64,
    amount: u64,
    proof_valid: bool,
    now: i64,
)
    requires
        a.status is Closed,
    ensures
        Auction::apply_result_outcome(a, winner, amount, proof_valid, now) == Err::<
            (),
            ErrorCode,
        >(ErrorCode::AuctionNotActive),
{
}

/// Once any bid has been accepted, cancellation is permanently
/// unavailable, whatever operations happened in between.
pub proof fn lemma_cancel_with_bids_rejected(a: Auction)
    requires
        a.bid_count > 0,
    ensures
        Auction::cancel_outcome(a) == Err::<(), ErrorCode>(ErrorCode::CannotCancelWithBids),
{
}

/// The winner's record can never be refunded once the auction is closed:
/// the request fails either because the record belongs to the winner or
/// because it has already been settled.
pub proof fn lemma_refund_winner_rejected(a: Auction, w: u64, authority: Seq<u8>)
    requires
        a.wf(),
        a.status is Closed,
        a.winner == Some(w),
    ensures
        Auction::refund_outcome(a, w, authority) == Err::<(), ErrorCode>(
            ErrorCode::CannotRefundWinner,
        ) || Auction::refund_outcome(a, w, authority) == Err::<(), ErrorCode>(
            ErrorCode::BidAlreadyProcessed,
        ),
{
    let j = choose|j: int|
        0 <= j < a.records().len() && winner_candidate(
            #[trigger] a.records()[j],
            w,
            a.winning_amount,
        );
    assert(a.records()[j].bidder == w);
}

/// Every other bidder's still-active record is refundable once the
/// auction is closed and the caller presents the auction's capability.
pub proof fn lemma_refund_loser_accepted(a: Auction, bidder: u64, authority: Seq<u8>, i: int)
    requires
        a.wf(),
        a.status is Closed,
        0 <= i < a.records().len(),
        a.records()[i].bidder == bidder,
        a.records()[i].status is Active,
        a.winner != Some(bidder),
        authority == authority_digest_of(a.creator, a.auction_id),
    ensures
        Auction::refund_outcome(a, bidder, authority) == Ok::<(), ErrorCode>(()),
{
    assert(a.records()[i].bidder == bidder);
}

/// A record that has left the `Active` state cannot be refunded again:
/// the refund of each losing record succeeds at most once.
pub proof fn lemma_refund_only_once(a: Auction, bidder: u64, authority: Seq<u8>, i: int)
    requires
        a.wf(),
        a.status is Closed,
        0 <= i < a.records().len(),
        a.records()[i].bidder == bidder,
        !(a.records()[i].status is Active),
    ensures
        Auction::refund_outcome(a, bidder, authority) == Err::<(), ErrorCode>(
            ErrorCode::BidAlreadyProcessed,
        ),
{
    assert forall|j: int|
        0 <= j < a.records().len() implies !((#[trigger] a.records()[j]).bidder == bidder
        && a.records()[j].status is Active) by {
        if j != i && a.records()[j].bidder == bidder {
            if j < i {
                assert(a.ledger.records@[j].bidder != a.ledger.records@[i].bidder);
            } else {
                assert(a.ledger.records@[i].bidder != a.ledger.records@[j].bidder);
            }
        }
    }
    assert(a.records()[i].bidder == bidder);
}

} // verus!
