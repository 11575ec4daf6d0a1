use crate::auction::Auction;
use crate::errors::ErrorCode;
use vstd::prelude::*;

verus! {

/// Process-wide store of auctions, keyed by `(creator, auction_id)`.
///
/// One entry is created per opened auction and never torn down: closed
/// and cancelled auctions are retained for audit. Callers obtain an
/// auction by index and drive it through its own transition operations.
#[derive(Debug)]
pub struct AuctionRegistry {
    pub auctions: Vec<Auction>,
}

impl AuctionRegistry {
    /// Every stored auction is well-formed and no two share a key.
    pub open spec fn wf(self) -> bool {
        &&& forall|i: int| 0 <= i < self.auctions@.len() ==> (#[trigger] self.auctions@[i]).wf()
        &&& forall|i: int, j: int|
            0 <= i < j < self.auctions@.len() ==> !((#[trigger] self.auctions@[i]).auction_id == (
            #[trigger] self.auctions@[j]).auction_id && self.auctions@[i].creator
                == self.auctions@[j].creator)
    }

    /// An empty registry.
    pub fn new() -> (r: AuctionRegistry)
        ensures
            r.wf(),
            r.auctions@.len() == 0,
    {
        AuctionRegistry { auctions: Vec::new() }
    }

    /// Number of stored auctions.
    pub fn len(&self) -> (r: usize)
        ensures
            r == self.auctions@.len(),
    {
        self.auctions.len()
    }

    /// The index of the auction with the given key, if any.
    pub fn find(&self, creator: u64, auction_id: u64) -> (r: Option<usize>)
        ensures
            r matches Some(i) ==> i < self.auctions@.len() && self.auctions@[i as int].auction_id
                == auction_id && self.auctions@[i as int].creator == creator,
            r is None ==> forall|i: int|
                0 <= i < self.auctions@.len() ==> !((#[trigger] self.auctions@[i]).auction_id
                    == auction_id && self.auctions@[i].creator == creator),
    {
        let mut i: usize = 0;
        while i < self.auctions.len()
            invariant
                i <= self.auctions@.len(),
                forall|k: int|
                    0 <= k < i ==> !((#[trigger] self.auctions@[k]).auction_id == auction_id
                        && self.auctions@[k].creator == creator),
            decreases self.auctions@.len() - i,
        {
            if self.auctions[i].auction_id == auction_id && self.auctions[i].creator == creator {
                return Some(i);
            }
            i = i + 1;
        }
        None
    }

    /// Open a new auction under a fresh `(creator, auction_id)` key and
    /// store it. The stored auction starts exactly as `Auction::create`
    /// leaves it.
    pub fn open_auction(
        &mut self,
        auction_id: u64,
        creator: u64,
        start_time: i64,
        end_time: i64,
        reserve_price: u64,
        item_name: String,
        item_description: String,
        now: i64,
    ) -> (r: Result<usize, ErrorCode>)
        requires
            old(self).wf(),
            old(self).auctions@.len() < usize::MAX,
        ensures
            final(self).wf(),
            match r {
                Ok(i) => {
                    &&& (forall|k: int|
                        0 <= k < old(self).auctions@.len() ==> !((
                        #[trigger] old(self).auctions@[k]).auction_id == auction_id && old(
                            self,
                        ).auctions@[k].creator == creator))
                    &&& Auction::create_outcome(
                        start_time,
                        end_time,
                        item_name@,
                        item_description@,
                        now,
                    ) == Ok::<(), ErrorCode>(())
                    &&& i == old(self).auctions@.len()
                    &&& final(self).auctions@.len() == old(self).auctions@.len() + 1
                    &&& forall|k: int|
                        0 <= k < old(self).auctions@.len() ==> final(self).auctions@[k] == old(
                            self,
                        ).auctions@[k]
                    &&& final(self).auctions@[i as int].auction_id == auction_id
                    &&& final(self).auctions@[i as int].creator == creator
                    &&& final(self).auctions@[i as int].status is Pending
                    &&& final(self).auctions@[i as int].bid_count == 0
                },
                Err(e) => {
                    &&& *final(self) == *old(self)
                    &&& (e == ErrorCode::AuctionAlreadyExists <==> exists|k: int|
                        0 <= k < old(self).auctions@.len() && (
                        #[trigger] old(self).auctions@[k]).auction_id == auction_id && old(
                            self,
                        ).auctions@[k].creator == creator)
                    &&& e != ErrorCode::AuctionAlreadyExists ==> Auction::create_outcome(
                        start_time,
                        end_time,
                        item_name@,
                        item_description@,
                        now,
                    ) == Err::<(), ErrorCode>(e)
                },
            },
    {
        match self.find(creator, auction_id) {
            Option::Some(k) => {
                proof {
                    assert(old(self).auctions@[k as int].auction_id == auction_id);
                }
                Err(ErrorCode::AuctionAlreadyExists)
            },
            Option::None => {
                let auction = match Auction::create(
                    auction_id,
                    creator,
                    start_time,
                    end_time,
                    reserve_price,
                    item_name,
                    item_description,
                    now,
                ) {
                    Ok(auction) => auction,
                    Err(e) => {
                        return Err(e);
                    },
                };
                let i = self.auctions.len();
                self.auctions.push(auction);
                Ok(i)
            },
        }
    }

    /// The auction at index `i`.
    pub fn auction(&self, i: usize) -> (r: &Auction)
        requires
            i < self.auctions@.len(),
        ensures
            *r == self.auctions@[i as int],
    {
        &self.auctions[i]
    }

    /// Mutable access to the auction at index `i`, for driving it through
    /// its transition operations.
    pub fn auction_mut(&mut self, i: usize) -> (r: &mut Auction)
        requires
            i < old(self).auctions@.len(),
        ensures
            *r == old(self).auctions@[i as int],
            final(self).auctions@ == old(self).auctions@.update(i as int, *final(r)),
    {
        &mut self.auctions[i]
    }
}

} // verus!
