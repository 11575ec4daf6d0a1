use crate::auction::Auction;
use crate::errors::ErrorCode;
use crate::ledger::{BidRecord, BidStatus};
use vstd::prelude::*;

verus! {

/// Result reported by the external winner computation, as it arrives from
/// the collaborator: a claimed winner, a claimed winning amount, and an
/// opaque attestation of correct computation.
#[derive(Debug)]
pub struct MpcResult {
    pub winner: u64,
    pub winning_amount: u64,
    pub computation_proof: Vec<u8>,
    pub computed_at: i64,
}

/// A record that backs a reported result exactly: it belongs to the
/// reported winner, carries the reported amount, and is still `Active`.
pub open spec fn winner_matches(r: BidRecord, winner: u64, amount: u64) -> bool {
    r.bidder == winner && r.amount == amount && r.status is Active
}

/// Whether a reported result is accepted against the recorded bid set,
/// and if not, why. `proof_valid` is the verdict of the external
/// attestation collaborator on the computation proof.
pub open spec fn validate_outcome(
    a: Auction,
    winner: u64,
    amount: u64,
    proof_valid: bool,
) -> Result<(), ErrorCode> {
    if !proof_valid {
        Err(ErrorCode::InvalidProof)
    } else if amount < a.reserve_price {
        Err(ErrorCode::BidBelowReserve)
    } else if !(exists|i: int|
        0 <= i < a.records().len() && winner_matches(#[trigger] a.records()[i], winner, amount)) {
        Err(ErrorCode::NoValidBids)
    } else {
        Ok(())
    }
}

/// Decide whether an externally reported result may be trusted to close
/// the auction. On acceptance, the index of the single record that backs
/// the result is returned; any failure is non-fatal and leaves the
/// auction untouched.
pub fn validate_result(a: &Auction, result: &MpcResult, proof_valid: bool) -> (r: Result<
    usize,
    ErrorCode,
>)
    requires
        a.wf(),
    ensures
        match r {
            Ok(i) => validate_outcome(*a, result.winner, result.winning_amount, proof_valid)
                == Ok::<(), ErrorCode>(()) && i < a.records().len() && winner_matches(
                a.records()[i as int],
                result.winner,
                result.winning_amount,
            ),
            Err(e) => validate_outcome(*a, result.winner, result.winning_amount, proof_valid)
                == Err::<(), ErrorCode>(e),
        },
{
    if !proof_valid {
        return Err(ErrorCode::InvalidProof);
    }
    if result.winning_amount < a.reserve_price {
        return Err(ErrorCode::BidBelowReserve);
    }
    match a.ledger.find_bid(result.winner) {
        Option::Some(i) => {
            let record = a.ledger.record(i);
            if record.amount == result.winning_amount && record.status == BidStatus::Active {
                proof {
                    assert(winner_matches(
                        a.records()[i as int],
                        result.winner,
                        result.winning_amount,
                    ));
                }
                Ok(i)
            } else {
                proof {
                    assert forall|j: int|
                        0 <= j < a.records().len() implies !winner_matches(
                        #[trigger] a.records()[j],
                        result.winner,
                        result.winning_amount,
                    ) by {
                        if j != i as int && a.records()[j].bidder == result.winner {
                            if j < i as int {
                                assert(a.ledger.records@[j].bidder
                                    != a.ledger.records@[i as int].bidder);
                            } else {
                                assert(a.ledger.records@[i as int].bidder
                                    != a.ledger.records@[j].bidder);
                            }
                        }
                    }
                }
                Err(ErrorCode::NoValidBids)
            }
        },
        Option::None => {
            proof {
                assert forall|j: int|
                    0 <= j < a.records().len() implies !winner_matches(
                    #[trigger] a.records()[j],
                    result.winner,
                    result.winning_amount,
                ) by {
                    assert(a.ledger.records@[j].bidder != result.winner);
                }
            }
            Err(ErrorCode::NoValidBids)
        },
    }
}

} // verus!
