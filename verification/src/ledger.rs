use vstd::prelude::*;

verus! {

/// Lifecycle state of one bid record. Transitions happen only after the
/// owning auction is closed, and each record leaves `Active` at most once.
#[derive(Clone, Copy, Debug, PartialEq, Eq, Structural)]
pub enum BidStatus {
    Active,
    Won,
    Lost,
    Refunded,
}

/// One accepted bid: the custodied amount, the opaque sealed payload and
/// validity proof, and a back-reference to the chronologically previous
/// bid of the same auction.
#[derive(Debug)]
pub struct BidRecord {
    pub bidder: u64,
    pub amount: u64,
    pub sealed_payload: Vec<u8>,
    pub validity_proof: Vec<u8>,
    pub timestamp: i64,
    pub prev: Option<usize>,
    pub status: BidStatus,
}

/// The record `r` with its status replaced by `status`.
pub open spec fn with_status(r: BidRecord, status: BidStatus) -> BidRecord {
    BidRecord {
        bidder: r.bidder,
        amount: r.amount,
        sealed_payload: r.sealed_payload,
        validity_proof: r.validity_proof,
        timestamp: r.timestamp,
        prev: r.prev,
        status,
    }
}

/// What `r` contributes to the funds still in custody.
pub open spec fn active_contrib(r: BidRecord) -> int {
    if r.status is Active {
        r.amount as int
    } else {
        0
    }
}

/// Sum of all recorded bid amounts.
pub open spec fn total_amount(s: Seq<BidRecord>) -> int
    decreases s.len(),
{
    if s.len() == 0 {
        0
    } else {
        total_amount(s.drop_last()) + s.last().amount
    }
}

/// Sum of the amounts of the records still in `Active` state.
pub open spec fn active_amount(s: Seq<BidRecord>) -> int
    decreases s.len(),
{
    if s.len() == 0 {
        0
    } else {
        active_amount(s.drop_last()) + active_contrib(s.last())
    }
}

/// Appending a record extends both sums by its contribution.
pub proof fn lemma_sums_push(s: Seq<BidRecord>, r: BidRecord)
    ensures
        total_amount(s.push(r)) == total_amount(s) + r.amount,
        active_amount(s.push(r)) == active_amount(s) + active_contrib(r),
{
    assert(s.push(r).drop_last() =~= s);
}

/// Replacing the record at `i` shifts each sum by the difference of the
/// contributions of the old and the new record.
pub proof fn lemma_sums_update(s: Seq<BidRecord>, i: int, r: BidRecord)
    requires
        0 <= i < s.len(),
    ensures
        total_amount(s.update(i, r)) == total_amount(s) - s[i].amount + r.amount,
        active_amount(s.update(i, r)) == active_amount(s) - active_contrib(s[i])
            + active_contrib(r),
    decreases s.len(),
{
    let t = s.update(i, r);
    if i == s.len() - 1 {
        assert(t.drop_last() =~= s.drop_last());
        assert(t.last() == r);
    } else {
        assert(t.drop_last() =~= s.drop_last().update(i, r));
        assert(t.last() == s.last());
        lemma_sums_update(s.drop_last(), i, r);
    }
}

/// The funds in custody are never negative.
pub proof fn lemma_active_amount_nonneg(s: Seq<BidRecord>)
    ensures
        active_amount(s) >= 0,
    decreases s.len(),
{
    if s.len() > 0 {
        lemma_active_amount_nonneg(s.drop_last());
    }
}

/// The funds in custody cover each single record's contribution.
pub proof fn lemma_active_amount_covers(s: Seq<BidRecord>, i: int)
    requires
        0 <= i < s.len(),
    ensures
        active_amount(s) >= active_contrib(s[i]),
    decreases s.len(),
{
    if i == s.len() - 1 {
        lemma_active_amount_nonneg(s.drop_last());
    } else {
        lemma_active_amount_covers(s.drop_last(), i);
        assert(s.drop_last()[i] == s[i]);
    }
}

/// Append-only ledger of the bids of one auction.
///
/// Records live in an arena in chronological order; each record's `prev`
/// refers to the record appended before it, and `head` refers to the most
/// recently appended record, so the records form a singly-linked list that
/// is traversed newest to oldest.
#[derive(Debug)]
pub struct BidLedger {
    pub records: Vec<BidRecord>,
    pub head: Option<usize>,
}

impl BidLedger {
    /// The arena indices and the back-references agree: record `i` points
    /// to record `i - 1`, and `head` points to the newest record.
    pub open spec fn wf(self) -> bool {
        &&& (self.head matches Some(h) ==> self.records@.len() > 0 && h == self.records@.len()
            - 1)
        &&& (self.head is None ==> self.records@.len() == 0)
        &&& forall|i: int|
            0 <= i < self.records@.len() ==> (#[trigger] self.records@[i]).prev == (if i == 0 {
                Option::<usize>::None
            } else {
                Option::<usize>::Some((i - 1) as usize)
            })
    }

    /// No two records belong to the same bidder.
    pub open spec fn bidders_distinct(self) -> bool {
        forall|i: int, j: int|
            0 <= i < j < self.records@.len() ==> (#[trigger] self.records@[i]).bidder != (
            #[trigger] self.records@[j]).bidder
    }

    /// An empty ledger.
    pub fn new() -> (r: BidLedger)
        ensures
            r.wf(),
            r.bidders_distinct(),
            r.records@.len() == 0,
            r.head is None,
    {
        BidLedger { records: Vec::new(), head: None }
    }

    /// Number of records.
    pub fn len(&self) -> (r: usize)
        ensures
            r == self.records@.len(),
    {
        self.records.len()
    }

    /// The record at arena index `i`.
    pub fn record(&self, i: usize) -> (r: &BidRecord)
        requires
            i < self.records@.len(),
        ensures
            *r == self.records@[i as int],
    {
        &self.records[i]
    }

    /// Append a new record whose `prev` is the current head, and move the
    /// head to it. O(1).
    pub fn append(
        &mut self,
        bidder: u64,
        amount: u64,
        sealed_payload: Vec<u8>,
        validity_proof: Vec<u8>,
        timestamp: i64,
    ) -> (idx: usize)
        requires
            old(self).wf(),
            old(self).records@.len() < usize::MAX,
        ensures
            final(self).wf(),
            idx == old(self).records@.len(),
            final(self).records@ == old(self).records@.push(
                (BidRecord {
                    bidder,
                    amount,
                    sealed_payload,
                    validity_proof,
                    timestamp,
                    prev: old(self).head,
                    status: BidStatus::Active,
                }),
            ),
            final(self).head == Some(idx),
    {
        let idx = self.records.len();
        let record = BidRecord {
            bidder,
            amount,
            sealed_payload,
            validity_proof,
            timestamp,
            prev: self.head,
            status: BidStatus::Active,
        };
        self.records.push(record);
        self.head = Some(idx);
        idx
    }

    /// Find the arena index of the record of `bidder`, if any.
    pub fn find_bid(&self, bidder: u64) -> (r: Option<usize>)
        ensures
            r matches Some(i) ==> i < self.records@.len() && self.records@[i as int].bidder
                == bidder,
            r is None ==> forall|i: int|
                0 <= i < self.records@.len() ==> (#[trigger] self.records@[i]).bidder != bidder,
    {
        let mut i: usize = 0;
        while i < self.records.len()
            invariant
                i <= self.records@.len(),
                forall|k: int| 0 <= k < i ==> (#[trigger] self.records@[k]).bidder != bidder,
            decreases self.records@.len() - i,
        {
            if self.records[i].bidder == bidder {
                return Some(i);
            }
            i = i + 1;
        }
        None
    }

    /// Move the record at `i` to a new status. Everything else, including
    /// the chronological links, stays as it was.
    pub fn set_status(&mut self, i: usize, status: BidStatus)
        requires
            old(self).wf(),
            i < old(self).records@.len(),
        ensures
            final(self).wf(),
            final(self).head == old(self).head,
            final(self).records@ == old(self).records@.update(
                i as int,
                with_status(old(self).records@[i as int], status),
            ),
    {
        let mut record = self.records.remove(i);
        record.status = status;
        self.records.insert(i, record);
        proof {
            assert(self.records@ =~= old(self).records@.update(
                i as int,
                with_status(old(self).records@[i as int], status),
            ));
        }
    }

    /// The arena indices of all records, newest first, obtained by walking
    /// the chain of `prev` references from the head.
    pub fn newest_first(&self) -> (r: Vec<usize>)
        requires
            self.wf(),
        ensures
            r@.len() == self.records@.len(),
            forall|k: int| 0 <= k < r@.len() ==> r@[k] == self.records@.len() - 1 - k,
    {
        let ghost n = self.records@.len();
        let mut out: Vec<usize> = Vec::new();
        let mut cursor: Option<usize> = self.head;
        loop
            invariant
                self.wf(),
                n == self.records@.len(),
                out@.len() <= n,
                forall|k: int| 0 <= k < out@.len() ==> out@[k] == n - 1 - k,
                cursor == (if out@.len() < n {
                    Option::<usize>::Some((n - 1 - out@.len()) as usize)
                } else {
                    Option::<usize>::None
                }),
            decreases n - out@.len(),
        {
            match cursor {
                None => {
                    return out;
                },
                Some(i) => {
                    out.push(i);
                    cursor = self.records[i].prev;
                },
            }
        }
    }
}

} // verus!
