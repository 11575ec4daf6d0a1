use vstd::prelude::*;

verus! {

/// One observable state transition of an auction.
///
/// The log is purely observational: it is written as a side effect of
/// every successful transition and never read back to make a decision.
#[derive(Clone, Debug)]
pub enum AuctionEvent {
    AuctionCreated { auction_id: u64, creator: u64, start_time: i64, end_time: i64 },
    AuctionStarted { auction_id: u64, timestamp: i64 },
    BidPlaced { auction_id: u64, bidder: u64, payload_hash: Vec<u8>, timestamp: i64 },
    AuctionClosed { auction_id: u64, winner: u64, winning_amount: u64, bid_count: u32 },
    AuctionSettled { auction_id: u64, winner: u64, amount: u64 },
    BidRefunded { auction_id: u64, bidder: u64, amount: u64 },
    AuctionCancelled { auction_id: u64 },
}

/// `new_log` is `old_log` with exactly one entry appended.
pub open spec fn log_extends_one(old_log: Seq<AuctionEvent>, new_log: Seq<AuctionEvent>) -> bool {
    &&& new_log.len() == old_log.len() + 1
    &&& forall|i: int| 0 <= i < old_log.len() ==> new_log[i] == old_log[i]
}

/// Append-only record of every state transition of one auction.
#[derive(Debug)]
pub struct EventLog {
    pub entries: Vec<AuctionEvent>,
}

impl EventLog {
    /// An empty log.
    pub fn new() -> (r: EventLog)
        ensures
            r.entries@.len() == 0,
    {
        EventLog { entries: Vec::new() }
    }

    /// Number of recorded events.
    pub fn len(&self) -> (r: usize)
        ensures
            r == self.entries@.len(),
    {
        self.entries.len()
    }

    /// The event at position `i`, oldest first.
    pub fn entry(&self, i: usize) -> (r: &AuctionEvent)
        requires
            i < self.entries@.len(),
        ensures
            *r == self.entries@[i as int],
    {
        &self.entries[i]
    }

    /// Record one more event.
    pub fn append(&mut self, event: AuctionEvent)
        ensures
            final(self).entries@ == old(self).entries@.push(event),
    {
        self.entries.push(event);
    }
}

} // verus!
