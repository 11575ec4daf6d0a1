//! Core of a sealed-bid auction with escrowed funds.
//!
//! An auction moves through `Pending -> Active -> Closed`, with `Cancelled`
//! as an alternate terminal state. While the auction is active, bidders
//! deposit funds into a per-auction escrow vault and append a record to an
//! append-only bid ledger. The winner is determined by an external
//! multi-party computation; its reported result is validated against the
//! recorded bid set before it may close the auction. Settlement and refunds
//! then drain the vault, each record exactly once.
//!
//! The contracts here pin down the lifecycle rules and the fund-safety
//! invariants: every unit deposited is either still in custody or has been
//! released, at most one bid record is ever marked `Won`, and rejected
//! operations leave every structure exactly as it was.

pub mod auction;
pub mod buf;
pub mod crypto;
pub mod errors;
pub mod events;
pub mod laws;
pub mod ledger;
pub mod registry;
pub mod validator;
pub mod vault;

pub use auction::Auction;
pub use auction::AuctionStatus;
pub use auction::ComputeRequest;
pub use errors::ErrorCode;
pub use events::AuctionEvent;
pub use events::EventLog;
pub use ledger::BidLedger;
pub use ledger::BidRecord;
pub use ledger::BidStatus;
pub use registry::AuctionRegistry;
pub use validator::MpcResult;
pub use vault::EscrowAuthority;
pub use vault::EscrowVault;
pub use vault::Receipt;
