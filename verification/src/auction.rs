use crate::buf::{bytes_eq, clone_bytes};
use crate::crypto::{sha256_digest, sha256_of};
use crate::errors::ErrorCode;
use crate::events::{log_extends_one, AuctionEvent, EventLog};
use crate::ledger::{
    active_amount, lemma_active_amount_covers, lemma_sums_push, lemma_sums_update,
    total_amount, with_status, BidLedger, BidRecord, BidStatus,
};
use crate::validator::{validate_outcome, validate_result, MpcResult};
use crate::vault::{authority_digest_of, EscrowAuthority, EscrowVault, Receipt};
use vstd::prelude::*;

verus! {

/// Longest accepted item name, in characters.
pub const MAX_ITEM_NAME_LEN: usize = 64;

/// Longest accepted item description, in characters.
pub const MAX_ITEM_DESCRIPTION_LEN: usize = 256;

/// Lifecycle state of one auction. `Closed` and `Cancelled` are terminal:
/// no transition leaves them.
#[derive(Clone, Copy, Debug, PartialEq, Eq, Structural)]
pub enum AuctionStatus {
    Pending,
    Active,
    Closed,
    Cancelled,
}

/// What the external winner computation needs: the auction identity and
/// the sealed payloads of all recorded bids, newest first.
#[derive(Debug)]
pub struct ComputeRequest {
    pub auction_id: u64,
    pub sealed_payloads: Vec<Vec<u8>>,
}

/// One auction: the authoritative status, the bid ledger, the escrow vault
/// and the derived event log, mutated only by the transition operations
/// below.
#[derive(Debug)]
pub struct Auction {
    pub auction_id: u64,
    pub creator: u64,
    pub start_time: i64,
    pub end_time: i64,
    pub reserve_price: u64,
    pub item_name: String,
    pub item_description: String,
    pub status: AuctionStatus,
    pub bid_count: u32,
    pub winner: Option<u64>,
    pub winning_amount: u64,
    pub ledger: BidLedger,
    pub vault: EscrowVault,
    pub events: EventLog,
}

/// A record that the recorded winner and winning amount may refer to: it
/// belongs to the winner, carries the winning amount, and has either not
/// been settled yet or been marked as won.
pub open spec fn winner_candidate(r: BidRecord, winner: u64, amount: u64) -> bool {
    r.bidder == winner && r.amount == amount && (r.status is Active || r.status is Won)
}

impl Auction {
    /// The recorded bids, oldest first.
    pub open spec fn records(self) -> Seq<BidRecord> {
        self.ledger.records@
    }

    /// Every record is still in `Active` state.
    pub open spec fn all_records_active(self) -> bool {
        forall|i: int|
            0 <= i < self.records().len() ==> (#[trigger] self.records()[i]).status is Active
    }

    /// What a closed auction guarantees about its winner: the winner is
    /// recorded, a record matching the winner and the winning amount
    /// exists, only that record can be marked `Won`, and the winner's
    /// record is never refunded.
    pub open spec fn closed_consistent(self) -> bool {
        match self.winner {
            Option::Some(w) => {
                &&& exists|i: int|
                    0 <= i < self.records().len() && winner_candidate(
                        #[trigger] self.records()[i],
                        w,
                        self.winning_amount,
                    )
                &&& forall|i: int|
                    0 <= i < self.records().len() && (#[trigger] self.records()[i]).status is Won
                        ==> self.records()[i].bidder == w && self.records()[i].amount
                        == self.winning_amount
                &&& forall|i: int|
                    0 <= i < self.records().len() && (
                    #[trigger] self.records()[i]).status is Refunded ==> self.records()[i].bidder
                        != w
            },
            Option::None => false,
        }
    }

    /// Well-formedness of one auction, preserved by every operation.
    ///
    /// Besides the validity of the parts, it ties the vault to the ledger:
    /// everything ever deposited is the sum of the recorded amounts, and
    /// the funds still in custody are the sum of the amounts of the
    /// records still in `Active` state.
    pub open spec fn wf(self) -> bool {
        &&& self.start_time < self.end_time
        &&& self.item_name@.len() <= MAX_ITEM_NAME_LEN
        &&& self.item_description@.len() <= MAX_ITEM_DESCRIPTION_LEN
        &&& self.ledger.wf()
        &&& self.ledger.bidders_distinct()
        &&& self.bid_count == self.records().len()
        &&& self.vault.wf()
        &&& self.vault.auction_id == self.auction_id
        &&& self.vault.authority_digest@ == authority_digest_of(self.creator, self.auction_id)
        &&& self.vault.total_deposited == total_amount(self.records())
        &&& self.vault.balance == active_amount(self.records())
        &&& forall|i: int|
            0 <= i < self.records().len() ==> !((#[trigger] self.records()[i]).status is Lost)
        &&& match self.status {
            AuctionStatus::Pending => self.records().len() == 0 && self.winner is None
                && self.winning_amount == 0,
            AuctionStatus::Active => self.winner is None && self.winning_amount == 0
                && self.all_records_active(),
            AuctionStatus::Cancelled => self.records().len() == 0 && self.winner is None
                && self.winning_amount == 0,
            AuctionStatus::Closed => self.closed_consistent(),
        }
    }

    /// The fields that no transition ever changes.
    pub open spec fn same_core(a: Auction, b: Auction) -> bool {
        &&& b.auction_id == a.auction_id
        &&& b.creator == a.creator
        &&& b.start_time == a.start_time
        &&& b.end_time == a.end_time
        &&& b.reserve_price == a.reserve_price
        &&& b.item_name == a.item_name
        &&& b.item_description == a.item_description
    }

    /// Whether a creation request is accepted, and if not, why.
    pub open spec fn create_outcome(
        start_time: i64,
        end_time: i64,
        item_name: Seq<char>,
        item_description: Seq<char>,
        now: i64,
    ) -> Result<(), ErrorCode> {
        if end_time <= start_time {
            Err(ErrorCode::InvalidTimeRange)
        } else if start_time < now {
            Err(ErrorCode::StartTimeInPast)
        } else if item_name.len() > MAX_ITEM_NAME_LEN {
            Err(ErrorCode::NameTooLong)
        } else if item_description.len() > MAX_ITEM_DESCRIPTION_LEN {
            Err(ErrorCode::DescriptionTooLong)
        } else {
            Ok(())
        }
    }

    /// Open a new auction in `Pending` state with an empty ledger, an
    /// empty vault and the creation event recorded.
    pub fn create(
        auction_id: u64,
        creator: u64,
        start_time: i64,
        end_time: i64,
        reserve_price: u64,
        item_name: String,
        item_description: String,
        now: i64,
    ) -> (r: Result<Auction, ErrorCode>)
        ensures
            match r {
                Ok(a) => {
                    &&& Self::create_outcome(
                        start_time,
                        end_time,
                        item_name@,
                        item_description@,
                        now,
                    ) == Ok::<(), ErrorCode>(())
                    &&& a.wf()
                    &&& a.auction_id == auction_id
                    &&& a.creator == creator
                    &&& a.start_time == start_time
                    &&& a.end_time == end_time
                    &&& a.reserve_price == reserve_price
                    &&& a.item_name == item_name
                    &&& a.item_description == item_description
                    &&& a.status is Pending
                    &&& a.bid_count == 0
                    &&& a.records().len() == 0
                    &&& a.vault.balance == 0
                    &&& a.vault.total_deposited == 0
                    &&& a.vault.total_released == 0
                    &&& a.events.entries@.len() == 1
                    &&& a.events.entries@[0] == (AuctionEvent::AuctionCreated {
                        auction_id,
                        creator,
                        start_time,
                        end_time,
                    })
                },
                Err(e) => Self::create_outcome(
                    start_time,
                    end_time,
                    item_name@,
                    item_description@,
                    now,
                ) == Err::<(), ErrorCode>(e),
            },
    {
        if end_time <= start_time {
            return Err(ErrorCode::InvalidTimeRange);
        }
        if start_time < now {
            return Err(ErrorCode::StartTimeInPast);
        }
        if item_name.as_str().unicode_len() > MAX_ITEM_NAME_LEN {
            return Err(ErrorCode::NameTooLong);
        }
        if item_description.as_str().unicode_len() > MAX_ITEM_DESCRIPTION_LEN {
            return Err(ErrorCode::DescriptionTooLong);
        }
        let mut events = EventLog::new();
        events.append(
            AuctionEvent::AuctionCreated { auction_id, creator, start_time, end_time },
        );
        let auction = Auction {
            auction_id,
            creator,
            start_time,
            end_time,
            reserve_price,
            item_name,
            item_description,
            status: AuctionStatus::Pending,
            bid_count: 0,
            winner: None,
            winning_amount: 0,
            ledger: BidLedger::new(),
            vault: EscrowVault::new(creator, auction_id),
            events,
        };
        Ok(auction)
    }

    /// Whether a start request is accepted, and if not, why.
    pub open spec fn start_outcome(a: Auction, now: i64) -> Result<(), ErrorCode> {
        if !(a.status is Pending) {
            Err(ErrorCode::AuctionAlreadyStarted)
        } else if now < a.start_time {
            Err(ErrorCode::TooEarlyToStart)
        } else {
            Ok(())
        }
    }

    /// Move the auction from `Pending` to `Active` once its start time has
    /// been reached.
    pub fn start(&mut self, now: i64) -> (r: Result<(), ErrorCode>)
        requires
            old(self).wf(),
        ensures
            final(self).wf(),
            r == Self::start_outcome(*old(self), now),
            r is Err ==> *final(self) == *old(self),
            r is Ok ==> ({
                &&& Self::same_core(*old(self), *final(self))
                &&& final(self).status is Active
                &&& final(self).bid_count == old(self).bid_count
                &&& final(self).winner == old(self).winner
                &&& final(self).winning_amount == old(self).winning_amount
                &&& final(self).ledger == old(self).ledger
                &&& final(self).vault == old(self).vault
                &&& final(self).events.entries@ == old(self).events.entries@.push(
                    (AuctionEvent::AuctionStarted {
                        auction_id: old(self).auction_id,
                        timestamp: now,
                    }),
                )
            }),
    {
        if self.status != AuctionStatus::Pending {
            return Err(ErrorCode::AuctionAlreadyStarted);
        }
        if now < self.start_time {
            return Err(ErrorCode::TooEarlyToStart);
        }
        self.status = AuctionStatus::Active;
        let event = AuctionEvent::AuctionStarted { auction_id: self.auction_id, timestamp: now };
        self.events.append(event);
        Ok(())
    }

    /// Whether a cancellation request is accepted, and if not, why.
    /// Once any bid has been accepted, cancellation is permanently
    /// unavailable.
    pub open spec fn cancel_outcome(a: Auction) -> Result<(), ErrorCode> {
        if a.bid_count > 0 {
            Err(ErrorCode::CannotCancelWithBids)
        } else if !(a.status is Pending || a.status is Active) {
            Err(ErrorCode::CannotCancelClosed)
        } else {
            Ok(())
        }
    }

    /// Cancel an auction that has not accepted any bid.
    pub fn cancel(&mut self) -> (r: Result<(), ErrorCode>)
        requires
            old(self).wf(),
        ensures
            final(self).wf(),
            r == Self::cancel_outcome(*old(self)),
            r is Err ==> *final(self) == *old(self),
            r is Ok ==> ({
                &&& Self::same_core(*old(self), *final(self))
                &&& final(self).status is Cancelled
                &&& final(self).bid_count == 0
                &&& final(self).winner is None
                &&& final(self).ledger == old(self).ledger
                &&& final(self).vault == old(self).vault
                &&& final(self).events.entries@ == old(self).events.entries@.push(
                    (AuctionEvent::AuctionCancelled { auction_id: old(self).auction_id }),
                )
            }),
    {
        if self.bid_count > 0 {
            return Err(ErrorCode::CannotCancelWithBids);
        }
        if !(self.status == AuctionStatus::Pending || self.status == AuctionStatus::Active) {
            return Err(ErrorCode::CannotCancelClosed);
        }
        self.status = AuctionStatus::Cancelled;
        let event = AuctionEvent::AuctionCancelled { auction_id: self.auction_id };
        self.events.append(event);
        Ok(())
    }

    /// Whether a bid is accepted, and if not, why. A bidder with a live
    /// record cannot bid again: raising a bid must go through an explicit
    /// rejection rather than a silent supersession.
    pub open spec fn place_bid_outcome(
        a: Auction,
        bidder: u64,
        amount: u64,
        bidder_funds: u64,
        now: i64,
    ) -> Result<(), ErrorCode> {
        if !(a.status is Active) {
            Err(ErrorCode::AuctionNotActive)
        } else if now < a.start_time {
            Err(ErrorCode::AuctionNotStarted)
        } else if now >= a.end_time {
            Err(ErrorCode::AuctionEnded)
        } else if exists|i: int|
            0 <= i < a.records().len() && (#[trigger] a.records()[i]).bidder == bidder {
            Err(ErrorCode::BidAlreadyExists)
        } else if bidder_funds < amount {
            Err(ErrorCode::InsufficientFunds)
        } else {
            Ok(())
        }
    }

    /// Accept a bid: move `amount` from the bidder's funds into escrow and
    /// append a record carrying the opaque sealed payload and validity
    /// proof. The recorded event carries the SHA-256 digest of the sealed
    /// payload, never the payload itself.
    pub fn place_bid(
        &mut self,
        bidder: u64,
        amount: u64,
        sealed_payload: Vec<u8>,
        validity_proof: Vec<u8>,
        now: i64,
        bidder_funds: &mut u64,
    ) -> (r: Result<Receipt, ErrorCode>)
        requires
            old(self).wf(),
            old(self).vault.total_deposited + amount <= u64::MAX,
            old(self).bid_count < u32::MAX,
        ensures
            final(self).wf(),
            match r {
                Ok(receipt) => Self::place_bid_outcome(
                    *old(self),
                    bidder,
                    amount,
                    *old(bidder_funds),
                    now,
                ) == Ok::<(), ErrorCode>(()) && receipt == (Receipt {
                    auction_id: old(self).auction_id,
                    party: bidder,
                    amount,
                }),
                Err(e) => Self::place_bid_outcome(
                    *old(self),
                    bidder,
                    amount,
                    *old(bidder_funds),
                    now,
                ) == Err::<(), ErrorCode>(e) && *final(self) == *old(self) && *final(bidder_funds)
                    == *old(bidder_funds),
            },
            r is Ok ==> ({
                &&& Self::same_core(*old(self), *final(self))
                &&& final(self).status is Active
                &&& final(self).bid_count == old(self).bid_count + 1
                &&& final(self).winner is None
                &&& final(self).winning_amount == 0
                &&& final(self).ledger.records@ == old(self).ledger.records@.push(
                    (BidRecord {
                        bidder,
                        amount,
                        sealed_payload,
                        validity_proof,
                        timestamp: now,
                        prev: old(self).ledger.head,
                        status: BidStatus::Active,
                    }),
                )
                &&& *final(bidder_funds) == *old(bidder_funds) - amount
                &&& final(self).vault.balance == old(self).vault.balance + amount
                &&& final(self).vault.total_deposited == old(self).vault.total_deposited + amount
                &&& final(self).vault.total_released == old(self).vault.total_released
                &&& log_extends_one(old(self).events.entries@, final(self).events.entries@)
                &&& final(self).events.entries@.last() matches AuctionEvent::BidPlaced {
                    auction_id: event_auction,
                    bidder: event_bidder,
                    payload_hash,
                    timestamp,
                } && event_auction == old(self).auction_id && event_bidder == bidder
                    && payload_hash@ == sha256_of(sealed_payload@) && timestamp == now
            }),
    {
        if self.status != AuctionStatus::Active {
            return Err(ErrorCode::AuctionNotActive);
        }
        if now < self.start_time {
            return Err(ErrorCode::AuctionNotStarted);
        }
        if now >= self.end_time {
            return Err(ErrorCode::AuctionEnded);
        }
        match self.ledger.find_bid(bidder) {
            Option::Some(i) => {
                proof {
                    assert(old(self).records()[i as int].bidder == bidder);
                }
                return Err(ErrorCode::BidAlreadyExists);
            },
            Option::None => {},
        }
        proof {
            assert forall|i: int|
                0 <= i < old(self).records().len() implies (
            #[trigger] old(self).records()[i]).bidder != bidder by {
                assert(self.ledger.records@[i].bidder != bidder);
            }
        }
        let payload_hash = sha256_digest(&sealed_payload);
        let receipt = match self.vault.deposit(bidder, bidder_funds, amount) {
            Ok(receipt) => receipt,
            Err(e) => {
                return Err(e);
            },
        };
        let ghost prev_records = self.ledger.records@;
        let ghost new_record = BidRecord {
            bidder,
            amount,
            sealed_payload,
            validity_proof,
            timestamp: now,
            prev: self.ledger.head,
            status: BidStatus::Active,
        };
        let idx = self.ledger.append(bidder, amount, sealed_payload, validity_proof, now);
        self.bid_count = self.bid_count + 1;
        let event = AuctionEvent::BidPlaced {
            auction_id: self.auction_id,
            bidder,
            payload_hash,
            timestamp: now,
        };
        self.events.append(event);
        proof {
            lemma_sums_push(prev_records, new_record);
            assert forall|i: int, j: int|
                0 <= i < j < self.records().len() implies (
            #[trigger] self.records()[i]).bidder != (#[trigger] self.records()[j]).bidder by {
                if j < prev_records.len() {
                    assert(prev_records[i].bidder != prev_records[j].bidder);
                } else {
                    assert(self.records()[j] == new_record);
                    assert(prev_records[i].bidder != bidder);
                }
            }
            assert forall|i: int|
                0 <= i < self.records().len() implies (
            #[trigger] self.records()[i]).status is Active by {
                if i < prev_records.len() {
                    assert(old(self).records()[i].status is Active);
                }
            }
        }
        Ok(receipt)
    }

    /// Assemble the request for the external winner computation: the
    /// auction identity and the sealed payloads of all recorded bids,
    /// newest first. Nothing changes locally until a result returns.
    pub fn request_close(&self) -> (r: Result<ComputeRequest, ErrorCode>)
        requires
            self.wf(),
        ensures
            match r {
                Ok(req) => self.status is Active && req.auction_id == self.auction_id
                    && req.sealed_payloads@.len() == self.records().len() && forall|k: int|
                    0 <= k < req.sealed_payloads@.len() ==> (#[trigger] req.sealed_payloads@[k])@
                        == self.records()[self.records().len() - 1 - k].sealed_payload@,
                Err(e) => e == ErrorCode::AuctionNotActive && !(self.status is Active),
            },
    {
        if self.status != AuctionStatus::Active {
            return Err(ErrorCode::AuctionNotActive);
        }
        let order = self.ledger.newest_first();
        let mut sealed_payloads: Vec<Vec<u8>> = Vec::new();
        let mut k: usize = 0;
        while k < order.len()
            invariant
                self.wf(),
                order@.len() == self.records().len(),
                forall|m: int| 0 <= m < order@.len() ==> order@[m] == self.records().len() - 1 - m,
                k <= order@.len(),
                sealed_payloads@.len() == k,
                forall|m: int|
                    0 <= m < k ==> (#[trigger] sealed_payloads@[m])@ == self.records()[
                        self.records().len() - 1 - m].sealed_payload@,
            decreases order@.len() - k,
        {
            let idx = order[k];
            let payload = clone_bytes(&self.ledger.record(idx).sealed_payload);
            sealed_payloads.push(payload);
            k = k + 1;
        }
        Ok(ComputeRequest { auction_id: self.auction_id, sealed_payloads })
    }

    /// Whether an externally reported result closes the auction, and if
    /// not, why. The timeout path and the callback path both go through
    /// this one transition, so both enforce the same preconditions.
    pub open spec fn apply_result_outcome(
        a: Auction,
        winner: u64,
        amount: u64,
        proof_valid: bool,
        now: i64,
    ) -> Result<(), ErrorCode> {
        if !(a.status is Active) {
            Err(ErrorCode::AuctionNotActive)
        } else if now < a.end_time {
            Err(ErrorCode::AuctionNotEnded)
        } else {
            validate_outcome(a, winner, amount, proof_valid)
        }
    }

    /// Close the auction with a validated external result: record the
    /// winner and the winning amount exactly once. A result applied to a
    /// closed auction fails with a precondition error and changes
    /// nothing; a rejected result leaves the auction `Active` so that a
    /// corrected result can be delivered or the auction can expire.
    pub fn apply_result(&mut self, result: &MpcResult, proof_valid: bool, now: i64) -> (r: Result<
        (),
        ErrorCode,
    >)
        requires
            old(self).wf(),
        ensures
            final(self).wf(),
            r == Self::apply_result_outcome(
                *old(self),
                result.winner,
                result.winning_amount,
                proof_valid,
                now,
            ),
            r is Err ==> *final(self) == *old(self),
            r is Ok ==> ({
                &&& Self::same_core(*old(self), *final(self))
                &&& final(self).status is Closed
                &&& final(self).winner == Some(result.winner)
                &&& final(self).winning_amount == result.winning_amount
                &&& final(self).bid_count == old(self).bid_count
                &&& final(self).ledger == old(self).ledger
                &&& final(self).vault == old(self).vault
                &&& final(self).events.entries@ == old(self).events.entries@.push(
                    (AuctionEvent::AuctionClosed {
                        auction_id: old(self).auction_id,
                        winner: result.winner,
                        winning_amount: result.winning_amount,
                        bid_count: old(self).bid_count,
                    }),
                )
            }),
    {
        if self.status != AuctionStatus::Active {
            return Err(ErrorCode::AuctionNotActive);
        }
        if now < self.end_time {
            return Err(ErrorCode::AuctionNotEnded);
        }
        let validated = validate_result(&*self, result, proof_valid);
        match validated {
            Err(e) => Err(e),
            Ok(i) => {
                self.status = AuctionStatus::Closed;
                self.winner = Some(result.winner);
                self.winning_amount = result.winning_amount;
                let event = AuctionEvent::AuctionClosed {
                    auction_id: self.auction_id,
                    winner: result.winner,
                    winning_amount: result.winning_amount,
                    bid_count: self.bid_count,
                };
                self.events.append(event);
                proof {
                    assert(winner_candidate(
                        self.records()[i as int],
                        result.winner,
                        result.winning_amount,
                    ));
                    assert forall|j: int|
                        0 <= j < self.records().len() implies !((
                    #[trigger] self.records()[j]).status is Won) && !(
                    self.records()[j].status is Refunded) by {
                        assert(old(self).records()[j].status is Active);
                    }
                }
                Ok(())
            },
        }
    }

    /// Whether a settlement request is accepted, and if not, why.
    pub open spec fn settle_outcome(a: Auction, caller: u64, authority: Seq<u8>) -> Result<
        (),
        ErrorCode,
    > {
        if !(a.status is Closed) {
            Err(ErrorCode::AuctionNotClosed)
        } else if a.winner != Some(caller) {
            Err(ErrorCode::NotWinner)
        } else if authority != authority_digest_of(a.creator, a.auction_id) {
            Err(ErrorCode::Unauthorized)
        } else if !(exists|i: int|
            0 <= i < a.records().len() && (#[trigger] a.records()[i]).bidder == caller
                && a.records()[i].status is Active) {
            Err(ErrorCode::BidAlreadyProcessed)
        } else {
            Ok(())
        }
    }

    /// Release the winning amount from escrow to the creator and mark the
    /// winning record as `Won`. Only the recorded winner may settle, and
    /// the status guard makes a second settlement fail without touching
    /// anything.
    pub fn settle(
        &mut self,
        caller: u64,
        authority_proof: &EscrowAuthority,
        creator_funds: &mut u64,
    ) -> (r: Result<(), ErrorCode>)
        requires
            old(self).wf(),
            *old(creator_funds) + old(self).vault.balance <= u64::MAX,
        ensures
            final(self).wf(),
            r == Self::settle_outcome(*old(self), caller, authority_proof.digest@),
            r is Err ==> *final(self) == *old(self) && *final(creator_funds) == *old(creator_funds),
            r is Ok ==> ({
                &&& Self::same_core(*old(self), *final(self))
                &&& final(self).status is Closed
                &&& final(self).winner == old(self).winner
                &&& final(self).winning_amount == old(self).winning_amount
                &&& final(self).bid_count == old(self).bid_count
                &&& *final(creator_funds) == *old(creator_funds) + old(self).winning_amount
                &&& final(self).vault.balance == old(self).vault.balance - old(self).winning_amount
                &&& final(self).vault.total_released == old(self).vault.total_released + old(self).winning_amount
                &&& final(self).vault.total_deposited == old(self).vault.total_deposited
                &&& exists|i: int|
                    {
                        &&& 0 <= i < old(self).records().len()
                        &&& (#[trigger] old(self).records()[i]).bidder == caller
                        &&& old(self).records()[i].status is Active
                        &&& old(self).records()[i].amount == old(self).winning_amount
                        &&& final(self).ledger.records@ == old(self).ledger.records@.update(
                            i,
                            with_status(old(self).records()[i], BidStatus::Won),
                        )
                    }
                &&& final(self).events.entries@ == old(self).events.entries@.push(
                    (AuctionEvent::AuctionSettled {
                        auction_id: old(self).auction_id,
                        winner: caller,
                        amount: old(self).winning_amount,
                    }),
                )
            }),
    {
        if self.status != AuctionStatus::Closed {
            return Err(ErrorCode::AuctionNotClosed);
        }
        let is_winner = match self.winner {
            Option::Some(w) => w == caller,
            Option::None => false,
        };
        if !is_winner {
            return Err(ErrorCode::NotWinner);
        }
        if !bytes_eq(&authority_proof.digest, &self.vault.authority_digest) {
            return Err(ErrorCode::Unauthorized);
        }
        match self.ledger.find_bid(caller) {
            Option::None => {
                proof {
                    let j = choose|j: int|
                        0 <= j < self.records().len() && winner_candidate(
                            #[trigger] self.records()[j],
                            caller,
                            self.winning_amount,
                        );
                    assert(self.ledger.records@[j].bidder == caller);
                    assert(false);
                }
                Err(ErrorCode::BidAlreadyProcessed)
            },
            Option::Some(i) => {
                proof {
                    let j = choose|j: int|
                        0 <= j < self.records().len() && winner_candidate(
                            #[trigger] self.records()[j],
                            caller,
                            self.winning_amount,
                        );
                    if j != i as int {
                        if j < i as int {
                            assert(self.ledger.records@[j].bidder
                                != self.ledger.records@[i as int].bidder);
                        } else {
                            assert(self.ledger.records@[i as int].bidder
                                != self.ledger.records@[j].bidder);
                        }
                        assert(false);
                    }
                    assert(self.records()[i as int].amount == self.winning_amount);
                }
                if self.ledger.record(i).status != BidStatus::Active {
                    proof {
                        assert forall|j: int|
                            0 <= j < old(self).records().len() implies !((
                        #[trigger] old(self).records()[j]).bidder == caller && old(self).records()[j].status is Active) by {
                            if j != i as int && old(self).records()[j].bidder == caller {
                                if j < i as int {
                                    assert(self.ledger.records@[j].bidder
                                        != self.ledger.records@[i as int].bidder);
                                } else {
                                    assert(self.ledger.records@[i as int].bidder
                                        != self.ledger.records@[j].bidder);
                                }
                            }
                        }
                    }
                    return Err(ErrorCode::BidAlreadyProcessed);
                }
                proof {
                    assert(old(self).records()[i as int].bidder == caller
                        && old(self).records()[i as int].status is Active);
                    lemma_active_amount_covers(self.ledger.records@, i as int);
                }
                let amount = self.ledger.record(i).amount;
                let ghost records_before = self.ledger.records@;
                let release_result = self.vault.release(
                    caller,
                    creator_funds,
                    amount,
                    authority_proof,
                );
                match release_result {
                    Err(_) => {
                        proof {
                            assert(false);
                        }
                        Err(ErrorCode::Unauthorized)
                    },
                    Ok(_receipt) => {
                        self.ledger.set_status(i, BidStatus::Won);
                        let event = AuctionEvent::AuctionSettled {
                            auction_id: self.auction_id,
                            winner: caller,
                            amount,
                        };
                        self.events.append(event);
                        proof {
                            lemma_sums_update(
                                records_before,
                                i as int,
                                with_status(records_before[i as int], BidStatus::Won),
                            );
                            assert forall|p: int, q: int|
                                0 <= p < q < self.records().len() implies (
                            #[trigger] self.records()[p]).bidder != (
                            #[trigger] self.records()[q]).bidder by {
                                assert(records_before[p].bidder != records_before[q].bidder);
                            }
                            assert(winner_candidate(
                                self.records()[i as int],
                                caller,
                                self.winning_amount,
                            ));
                            assert forall|j: int|
                                0 <= j < self.records().len() && (
                            #[trigger] self.records()[j]).status is Won implies self.records()[
                                j].bidder == caller && self.records()[j].amount
                                == self.winning_amount by {
                                if j != i as int {
                                    assert(records_before[j].status is Won);
                                }
                            }
                            assert forall|j: int|
                                0 <= j < self.records().len() && (
                            #[trigger] self.records()[j]).status is Refunded implies self.records()[
                                j].bidder != caller by {
                                assert(records_before[j].status is Refunded);
                            }
                        }
                        Ok(())
                    },
                }
            },
        }
    }

    /// Whether a refund request is accepted, and if not, why.
    pub open spec fn refund_outcome(a: Auction, bidder: u64, authority: Seq<u8>) -> Result<
        (),
        ErrorCode,
    > {
        if !(a.status is Closed) {
            Err(ErrorCode::AuctionNotClosed)
        } else if !(exists|i: int|
            0 <= i < a.records().len() && (#[trigger] a.records()[i]).bidder == bidder) {
            Err(ErrorCode::BidNotFound)
        } else if !(exists|i: int|
            0 <= i < a.records().len() && (#[trigger] a.records()[i]).bidder == bidder
                && a.records()[i].status is Active) {
            Err(ErrorCode::BidAlreadyProcessed)
        } else if a.winner == Some(bidder) {
            Err(ErrorCode::CannotRefundWinner)
        } else if authority != authority_digest_of(a.creator, a.auction_id) {
            Err(ErrorCode::Unauthorized)
        } else {
            Ok(())
        }
    }

    /// Return a losing bidder's custodied amount and mark the record as
    /// `Refunded`. The winner's record can never be refunded, and the
    /// status guard makes a second refund of the same record fail without
    /// touching anything.
    pub fn refund(
        &mut self,
        bidder: u64,
        authority_proof: &EscrowAuthority,
        bidder_funds: &mut u64,
    ) -> (r: Result<(), ErrorCode>)
        requires
            old(self).wf(),
            *old(bidder_funds) + old(self).vault.balance <= u64::MAX,
        ensures
            final(self).wf(),
            r == Self::refund_outcome(*old(self), bidder, authority_proof.digest@),
            r is Err ==> *final(self) == *old(self) && *final(bidder_funds) == *old(bidder_funds),
            r is Ok ==> ({
                &&& Self::same_core(*old(self), *final(self))
                &&& final(self).status is Closed
                &&& final(self).winner == old(self).winner
                &&& final(self).winning_amount == old(self).winning_amount
                &&& final(self).bid_count == old(self).bid_count
                &&& final(self).vault.total_deposited == old(self).vault.total_deposited
                &&& exists|i: int|
                    {
                        &&& 0 <= i < old(self).records().len()
                        &&& (#[trigger] old(self).records()[i]).bidder == bidder
                        &&& old(self).records()[i].status is Active
                        &&& *final(bidder_funds) == *old(bidder_funds) + old(self).records()[i].amount
                        &&& final(self).vault.balance == old(self).vault.balance - old(self).records()[i].amount
                        &&& final(self).vault.total_released == old(self).vault.total_released
                            + old(self).records()[i].amount
                        &&& final(self).ledger.records@ == old(self).ledger.records@.update(
                            i,
                            with_status(old(self).records()[i], BidStatus::Refunded),
                        )
                        &&& final(self).events.entries@ == old(self).events.entries@.push(
                            (AuctionEvent::BidRefunded {
                                auction_id: old(self).auction_id,
                                bidder,
                                amount: old(self).records()[i].amount,
                            }),
                        )
                    }
            }),
    {
        if self.status != AuctionStatus::Closed {
            return Err(ErrorCode::AuctionNotClosed);
        }
        match self.ledger.find_bid(bidder) {
            Option::None => {
                proof {
                    assert forall|j: int|
                        0 <= j < old(self).records().len() implies (
                    #[trigger] old(self).records()[j]).bidder != bidder by {
                        assert(self.ledger.records@[j].bidder != bidder);
                    }
                }
                Err(ErrorCode::BidNotFound)
            },
            Option::Some(i) => {
                proof {
                    assert(old(self).records()[i as int].bidder == bidder);
                }
                if self.ledger.record(i).status != BidStatus::Active {
                    proof {
                        assert forall|j: int|
                            0 <= j < old(self).records().len() implies !((
                        #[trigger] old(self).records()[j]).bidder == bidder && old(self).records()[j].status is Active) by {
                            if j != i as int && old(self).records()[j].bidder == bidder {
                                if j < i as int {
                                    assert(self.ledger.records@[j].bidder
                                        != self.ledger.records@[i as int].bidder);
                                } else {
                                    assert(self.ledger.records@[i as int].bidder
                                        != self.ledger.records@[j].bidder);
                                }
                            }
                        }
                    }
                    return Err(ErrorCode::BidAlreadyProcessed);
                }
                proof {
                    assert(old(self).records()[i as int].status is Active);
                }
                let is_winner = match self.winner {
                    Option::Some(w) => w == bidder,
                    Option::None => false,
                };
                if is_winner {
                    return Err(ErrorCode::CannotRefundWinner);
                }
                if !bytes_eq(&authority_proof.digest, &self.vault.authority_digest) {
                    return Err(ErrorCode::Unauthorized);
                }
                proof {
                    lemma_active_amount_covers(self.ledger.records@, i as int);
                }
                let amount = self.ledger.record(i).amount;
                let ghost records_before = self.ledger.records@;
                let release_result = self.vault.release(
                    bidder,
                    bidder_funds,
                    amount,
                    authority_proof,
                );
                match release_result {
                    Err(_) => {
                        proof {
                            assert(false);
                        }
                        Err(ErrorCode::Unauthorized)
                    },
                    Ok(_receipt) => {
                        self.ledger.set_status(i, BidStatus::Refunded);
                        let event = AuctionEvent::BidRefunded {
                            auction_id: self.auction_id,
                            bidder,
                            amount,
                        };
                        self.events.append(event);
                        proof {
                            lemma_sums_update(
                                records_before,
                                i as int,
                                with_status(records_before[i as int], BidStatus::Refunded),
                            );
                            assert forall|p: int, q: int|
                                0 <= p < q < self.records().len() implies (
                            #[trigger] self.records()[p]).bidder != (
                            #[trigger] self.records()[q]).bidder by {
                                assert(records_before[p].bidder != records_before[q].bidder);
                            }
                            let w = old(self).winner->Some_0;
                            let c = choose|j: int|
                                0 <= j < records_before.len() && winner_candidate(
                                    #[trigger] records_before[j],
                                    w,
                                    old(self).winning_amount,
                                );
                            assert(self.records()[c] == records_before[c]);
                            assert(winner_candidate(
                                self.records()[c],
                                w,
                                self.winning_amount,
                            ));
                            assert forall|j: int|
                                0 <= j < self.records().len() && (
                            #[trigger] self.records()[j]).status is Won implies self.records()[
                                j].bidder == w && self.records()[j].amount == self.winning_amount by {
                                assert(records_before[j].status is Won);
                            }
                            assert forall|j: int|
                                0 <= j < self.records().len() && (
                            #[trigger] self.records()[j]).status is Refunded implies self.records()[
                                j].bidder != w by {
                                if j != i as int {
                                    assert(records_before[j].status is Refunded);
                                }
                            }
                        }
                        Ok(())
                    },
                }
            },
        }
    }
}

} // verus!
