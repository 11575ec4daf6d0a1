use vstd::prelude::*;

verus! {

/// Why an operation on an auction, a bid or the escrow vault was rejected.
///
/// Every rejection is side-effect-free: the operation that returns one of
/// these leaves all state exactly as it was before the call.
#[derive(Clone, Copy, Debug, PartialEq, Eq, Structural)]
pub enum ErrorCode {
    /// The end time of the auction does not lie after its start time.
    InvalidTimeRange,
    /// The start time of the auction lies in the past.
    StartTimeInPast,
    /// The item name exceeds the length limit.
    NameTooLong,
    /// The item description exceeds the length limit.
    DescriptionTooLong,
    /// The operation needs the auction to be in the `Active` state.
    AuctionNotActive,
    /// The auction has not reached its start time yet.
    AuctionNotStarted,
    /// The auction has passed its end time.
    AuctionEnded,
    /// The sealed bid payload was rejected.
    InvalidEncryptedBid,
    /// The cryptographic proof accompanying a result failed verification.
    InvalidProof,
    /// The reported winning amount lies below the reserve price.
    BidBelowReserve,
    /// The auction has already left the `Pending` state.
    AuctionAlreadyStarted,
    /// The start time of the auction has not been reached.
    TooEarlyToStart,
    /// The auction has not reached its end time yet.
    AuctionNotEnded,
    /// No recorded bid matches the reported result.
    NoValidBids,
    /// The operation needs the auction to be in the `Closed` state.
    AuctionNotClosed,
    /// The caller is not the recorded winner of the auction.
    NotWinner,
    /// The bid record has already reached a terminal state.
    BidAlreadyProcessed,
    /// The winning bid record cannot be refunded.
    CannotRefundWinner,
    /// An auction with accepted bids cannot be cancelled.
    CannotCancelWithBids,
    /// A closed or cancelled auction cannot be cancelled.
    CannotCancelClosed,
    /// The bidder already has a live bid record in this auction.
    BidAlreadyExists,
    /// An auction with this key already exists for this creator.
    AuctionAlreadyExists,
    /// No bid record exists for the given bidder.
    BidNotFound,
    /// The source of a deposit does not hold the required funds.
    InsufficientFunds,
    /// The capability presented to the escrow vault does not match the
    /// authority of this auction.
    Unauthorized,
}

} // verus!
