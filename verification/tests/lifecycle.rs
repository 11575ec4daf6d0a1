use shadowbid::auction::Auction;
use shadowbid::errors::ErrorCode;
use shadowbid::events::AuctionEvent;
use shadowbid::ledger::BidStatus;
use shadowbid::validator::MpcResult;
use shadowbid::vault::{derive_escrow_authority, EscrowAuthority};

const CREATOR: u64 = 7;
const AUCTION_ID: u64 = 1;
const BIDDER_LOW: u64 = 11;
const BIDDER_HIGH: u64 = 12;
const START: i64 = 1000;
const END: i64 = 1010;

fn fresh_auction() -> Auction {
    Auction::create(
        AUCTION_ID,
        CREATOR,
        START,
        END,
        100,
        String::from("lamp"),
        String::from("a brass lamp"),
        START,
    )
    .expect("creation with a valid time range must be accepted")
}

fn result_naming(winner: u64, winning_amount: u64) -> MpcResult {
    MpcResult {
        winner,
        winning_amount,
        computation_proof: vec![1u8; 64],
        computed_at: END,
    }
}

fn authority() -> EscrowAuthority {
    derive_escrow_authority(CREATOR, AUCTION_ID)
}

/// Auction with two bids placed: 80 from `BIDDER_LOW`, 150 from
/// `BIDDER_HIGH`, each bidder starting with 1000 units.
fn auction_with_two_bids() -> (Auction, u64, u64) {
    let mut auction = fresh_auction();
    auction.start(START).expect("start at the start time must be accepted");
    let mut low_funds: u64 = 1000;
    let mut high_funds: u64 = 1000;
    auction
        .place_bid(BIDDER_LOW, 80, vec![1, 2, 3], vec![9u8; 8], START + 1, &mut low_funds)
        .expect("first bid must be accepted");
    auction
        .place_bid(BIDDER_HIGH, 150, vec![4, 5, 6], vec![9u8; 8], START + 2, &mut high_funds)
        .expect("second bid must be accepted");
    (auction, low_funds, high_funds)
}

#[test]
fn full_settlement_returns_vault_to_zero() {
    let (mut auction, _low_funds, _high_funds) = auction_with_two_bids();
    assert_eq!(auction.vault.balance, 230);

    auction
        .apply_result(&result_naming(BIDDER_HIGH, 150), true, END)
        .expect("a validated result naming the high bidder must close the auction");
    assert_eq!(auction.winner, Some(BIDDER_HIGH));
    assert_eq!(auction.winning_amount, 150);

    let mut creator_funds: u64 = 0;
    auction
        .settle(BIDDER_HIGH, &authority(), &mut creator_funds)
        .expect("the winner must be able to settle");
    assert_eq!(creator_funds, 150);

    let mut low_funds: u64 = 920;
    auction
        .refund(BIDDER_LOW, &authority(), &mut low_funds)
        .expect("the losing bidder must be refunded");
    assert_eq!(low_funds, 1000);

    assert_eq!(auction.vault.balance, 0);
    assert_eq!(auction.vault.total_deposited, 230);
    assert_eq!(auction.vault.total_released, 230);
    assert_eq!(auction.ledger.records[0].status, BidStatus::Refunded);
    assert_eq!(auction.ledger.records[1].status, BidStatus::Won);
}

#[test]
fn result_naming_unknown_bidder_is_rejected() {
    let (mut auction, _low, _high) = auction_with_two_bids();
    let err = auction
        .apply_result(&result_naming(99, 150), true, END)
        .expect_err("a result naming a non-existent bidder must be rejected");
    assert_eq!(err, ErrorCode::NoValidBids);
    assert_eq!(auction.winner, None);
    assert_eq!(auction.vault.balance, 230);
    assert_eq!(auction.vault.total_released, 0);
}

#[test]
fn result_with_mismatched_amount_is_rejected() {
    let (mut auction, _low, _high) = auction_with_two_bids();
    let err = auction
        .apply_result(&result_naming(BIDDER_HIGH, 149), true, END)
        .expect_err("an amount matching no record must be rejected");
    assert_eq!(err, ErrorCode::NoValidBids);
    let err = auction
        .apply_result(&result_naming(BIDDER_LOW, 150), true, END)
        .expect_err("an amount not matching the named bidder's record must be rejected");
    assert_eq!(err, ErrorCode::NoValidBids);
    assert_eq!(auction.winner, None);
    assert_eq!(auction.vault.balance, 230);
}

#[test]
fn result_below_reserve_is_rejected() {
    let (mut auction, _low, _high) = auction_with_two_bids();
    let err = auction
        .apply_result(&result_naming(BIDDER_LOW, 80), true, END)
        .expect_err("a winning amount below the reserve price must be rejected");
    assert_eq!(err, ErrorCode::BidBelowReserve);
    assert_eq!(auction.winner, None);
}

#[test]
fn result_with_failed_proof_is_rejected() {
    let (mut auction, _low, _high) = auction_with_two_bids();
    let err = auction
        .apply_result(&result_naming(BIDDER_HIGH, 150), false, END)
        .expect_err("a result whose attestation failed must be rejected");
    assert_eq!(err, ErrorCode::InvalidProof);
    assert_eq!(auction.winner, None);
    assert_eq!(auction.vault.balance, 230);
}

#[test]
fn result_before_end_time_is_rejected() {
    let (mut auction, _low, _high) = auction_with_two_bids();
    let err = auction
        .apply_result(&result_naming(BIDDER_HIGH, 150), true, END - 1)
        .expect_err("a result before the end time must be rejected");
    assert_eq!(err, ErrorCode::AuctionNotEnded);
}

#[test]
fn applying_a_result_twice_changes_nothing() {
    let (mut auction, _low, _high) = auction_with_two_bids();
    auction
        .apply_result(&result_naming(BIDDER_HIGH, 150), true, END)
        .expect("the first application must close the auction");
    let events_before = auction.events.entries.len();
    let err = auction
        .apply_result(&result_naming(BIDDER_LOW, 80), true, END + 1)
        .expect_err("a second application must be rejected");
    assert_eq!(err, ErrorCode::AuctionNotActive);
    assert_eq!(auction.winner, Some(BIDDER_HIGH));
    assert_eq!(auction.winning_amount, 150);
    assert_eq!(auction.events.entries.len(), events_before);
}

#[test]
fn cancel_after_bid_is_rejected() {
    let (mut auction, _low, _high) = auction_with_two_bids();
    let status_before = auction.status;
    let err = auction.cancel().expect_err("cancel with live bids must be rejected");
    assert_eq!(err, ErrorCode::CannotCancelWithBids);
    assert_eq!(auction.status, status_before);
    assert_eq!(auction.vault.balance, 230);
}

#[test]
fn cancel_without_bids_is_accepted() {
    let mut auction = fresh_auction();
    auction.cancel().expect("cancel of an empty pending auction must be accepted");
    let err = auction.cancel().expect_err("a cancelled auction cannot be cancelled again");
    assert_eq!(err, ErrorCode::CannotCancelClosed);
}

#[test]
fn winner_record_cannot_be_refunded() {
    let (mut auction, _low, _high) = auction_with_two_bids();
    auction
        .apply_result(&result_naming(BIDDER_HIGH, 150), true, END)
        .expect("a validated result must close the auction");
    let mut high_funds: u64 = 850;
    let err = auction
        .refund(BIDDER_HIGH, &authority(), &mut high_funds)
        .expect_err("the winner's record must not be refundable");
    assert_eq!(err, ErrorCode::CannotRefundWinner);
    assert_eq!(high_funds, 850);

    let mut creator_funds: u64 = 0;
    auction
        .settle(BIDDER_HIGH, &authority(), &mut creator_funds)
        .expect("the winner must be able to settle");
    let err = auction
        .refund(BIDDER_HIGH, &authority(), &mut high_funds)
        .expect_err("a settled record must not be refundable");
    assert_eq!(err, ErrorCode::BidAlreadyProcessed);
}

#[test]
fn refund_succeeds_exactly_once_per_losing_record() {
    let (mut auction, _low, _high) = auction_with_two_bids();
    auction
        .apply_result(&result_naming(BIDDER_HIGH, 150), true, END)
        .expect("a validated result must close the auction");
    let mut low_funds: u64 = 920;
    auction
        .refund(BIDDER_LOW, &authority(), &mut low_funds)
        .expect("the first refund of a losing record must succeed");
    assert_eq!(low_funds, 1000);
    let err = auction
        .refund(BIDDER_LOW, &authority(), &mut low_funds)
        .expect_err("a second refund of the same record must be rejected");
    assert_eq!(err, ErrorCode::BidAlreadyProcessed);
    assert_eq!(low_funds, 1000);
}

#[test]
fn refund_of_unknown_bidder_is_rejected() {
    let (mut auction, _low, _high) = auction_with_two_bids();
    auction
        .apply_result(&result_naming(BIDDER_HIGH, 150), true, END)
        .expect("a validated result must close the auction");
    let mut funds: u64 = 0;
    let err = auction
        .refund(99, &authority(), &mut funds)
        .expect_err("a refund for a bidder without a record must be rejected");
    assert_eq!(err, ErrorCode::BidNotFound);
}

#[test]
fn settlement_needs_the_winner_and_a_closed_auction() {
    let (mut auction, _low, _high) = auction_with_two_bids();
    let mut creator_funds: u64 = 0;
    let err = auction
        .settle(BIDDER_HIGH, &authority(), &mut creator_funds)
        .expect_err("settlement before closing must be rejected");
    assert_eq!(err, ErrorCode::AuctionNotClosed);

    auction
        .apply_result(&result_naming(BIDDER_HIGH, 150), true, END)
        .expect("a validated result must close the auction");
    let err = auction
        .settle(BIDDER_LOW, &authority(), &mut creator_funds)
        .expect_err("only the winner may settle");
    assert_eq!(err, ErrorCode::NotWinner);

    auction
        .settle(BIDDER_HIGH, &authority(), &mut creator_funds)
        .expect("the winner must be able to settle");
    let err = auction
        .settle(BIDDER_HIGH, &authority(), &mut creator_funds)
        .expect_err("a second settlement must be rejected");
    assert_eq!(err, ErrorCode::BidAlreadyProcessed);
    assert_eq!(creator_funds, 150);
}

#[test]
fn wrong_capability_is_rejected() {
    let (mut auction, _low, _high) = auction_with_two_bids();
    auction
        .apply_result(&result_naming(BIDDER_HIGH, 150), true, END)
        .expect("a validated result must close the auction");
    let foreign = derive_escrow_authority(CREATOR, AUCTION_ID + 1);
    let mut creator_funds: u64 = 0;
    let err = auction
        .settle(BIDDER_HIGH, &foreign, &mut creator_funds)
        .expect_err("a capability of another auction must be rejected");
    assert_eq!(err, ErrorCode::Unauthorized);
    let mut low_funds: u64 = 0;
    let err = auction
        .refund(BIDDER_LOW, &foreign, &mut low_funds)
        .expect_err("a capability of another auction must be rejected");
    assert_eq!(err, ErrorCode::Unauthorized);
    assert_eq!(auction.vault.balance, 230);
}

#[test]
fn creation_validates_its_inputs() {
    let err = Auction::create(1, 7, 10, 10, 0, String::from("x"), String::new(), 0)
        .expect_err("an empty time range must be rejected");
    assert_eq!(err, ErrorCode::InvalidTimeRange);
    let err = Auction::create(1, 7, 10, 20, 0, String::from("x"), String::new(), 11)
        .expect_err("a start time in the past must be rejected");
    assert_eq!(err, ErrorCode::StartTimeInPast);
    let long_name: String = "n".repeat(65);
    let err = Auction::create(1, 7, 10, 20, 0, long_name, String::new(), 0)
        .expect_err("an oversized name must be rejected");
    assert_eq!(err, ErrorCode::NameTooLong);
    let long_description: String = "d".repeat(257);
    let err = Auction::create(1, 7, 10, 20, 0, String::from("x"), long_description, 0)
        .expect_err("an oversized description must be rejected");
    assert_eq!(err, ErrorCode::DescriptionTooLong);
}

#[test]
fn start_needs_a_pending_auction_and_its_start_time() {
    let mut auction = fresh_auction();
    let err = auction
        .start(START - 1)
        .expect_err("a start before the start time must be rejected");
    assert_eq!(err, ErrorCode::TooEarlyToStart);
    auction.start(START).expect("a start at the start time must be accepted");
    let err = auction.start(START).expect_err("a second start must be rejected");
    assert_eq!(err, ErrorCode::AuctionAlreadyStarted);
}

#[test]
fn bids_are_validated_before_any_transfer() {
    let mut auction = fresh_auction();
    let mut funds: u64 = 100;
    let err = auction
        .place_bid(BIDDER_LOW, 50, vec![], vec![], START, &mut funds)
        .expect_err("a bid on a pending auction must be rejected");
    assert_eq!(err, ErrorCode::AuctionNotActive);

    auction.start(START).expect("start must be accepted");
    let err = auction
        .place_bid(BIDDER_LOW, 50, vec![], vec![], START - 1, &mut funds)
        .expect_err("a bid before the start time must be rejected");
    assert_eq!(err, ErrorCode::AuctionNotStarted);
    let err = auction
        .place_bid(BIDDER_LOW, 50, vec![], vec![], END, &mut funds)
        .expect_err("a bid at the end time must be rejected");
    assert_eq!(err, ErrorCode::AuctionEnded);
    let err = auction
        .place_bid(BIDDER_LOW, 101, vec![], vec![], START, &mut funds)
        .expect_err("a bid exceeding the bidder's funds must be rejected");
    assert_eq!(err, ErrorCode::InsufficientFunds);
    assert_eq!(funds, 100);

    auction
        .place_bid(BIDDER_LOW, 50, vec![], vec![], START, &mut funds)
        .expect("a valid bid must be accepted");
    assert_eq!(funds, 50);
    let err = auction
        .place_bid(BIDDER_LOW, 60, vec![], vec![], START + 1, &mut funds)
        .expect_err("a second live bid of the same bidder must be rejected");
    assert_eq!(err, ErrorCode::BidAlreadyExists);
    assert_eq!(funds, 50);
    assert_eq!(auction.bid_count, 1);
}

#[test]
fn event_log_records_every_transition() {
    let (mut auction, _low, _high) = auction_with_two_bids();
    auction
        .apply_result(&result_naming(BIDDER_HIGH, 150), true, END)
        .expect("a validated result must close the auction");
    let mut creator_funds: u64 = 0;
    auction
        .settle(BIDDER_HIGH, &authority(), &mut creator_funds)
        .expect("the winner must be able to settle");
    let mut low_funds: u64 = 0;
    auction
        .refund(BIDDER_LOW, &authority(), &mut low_funds)
        .expect("the losing bidder must be refunded");

    let entries = &auction.events.entries;
    assert_eq!(entries.len(), 7);
    assert!(matches!(entries[0], AuctionEvent::AuctionCreated { auction_id: 1, creator: 7, .. }));
    assert!(matches!(entries[1], AuctionEvent::AuctionStarted { .. }));
    assert!(matches!(entries[2], AuctionEvent::BidPlaced { bidder: BIDDER_LOW, .. }));
    assert!(matches!(entries[3], AuctionEvent::BidPlaced { bidder: BIDDER_HIGH, .. }));
    assert!(matches!(
        entries[4],
        AuctionEvent::AuctionClosed { winner: BIDDER_HIGH, winning_amount: 150, bid_count: 2, .. }
    ));
    assert!(matches!(
        entries[5],
        AuctionEvent::AuctionSettled { winner: BIDDER_HIGH, amount: 150, .. }
    ));
    assert!(matches!(
        entries[6],
        AuctionEvent::BidRefunded { bidder: BIDDER_LOW, amount: 80, .. }
    ));
}

#[test]
fn compute_request_lists_payloads_newest_first() {
    let (auction, _low, _high) = auction_with_two_bids();
    let request = auction
        .request_close()
        .expect("an active auction must accept a close request");
    assert_eq!(request.auction_id, AUCTION_ID);
    assert_eq!(request.sealed_payloads.len(), 2);
    assert_eq!(request.sealed_payloads[0], vec![4, 5, 6]);
    assert_eq!(request.sealed_payloads[1], vec![1, 2, 3]);

    let mut auction = auction;
    auction
        .apply_result(&result_naming(BIDDER_HIGH, 150), true, END)
        .expect("a validated result must close the auction");
    let err = auction
        .request_close()
        .expect_err("a closed auction must not accept a close request");
    assert_eq!(err, ErrorCode::AuctionNotActive);
}
