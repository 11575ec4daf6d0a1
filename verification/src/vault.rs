use crate::buf::bytes_eq;
use crate::crypto::{sha256_digest, sha256_of};
use crate::errors::ErrorCode;
use vstd::bytes::spec_u64_to_le_bytes;
use vstd::bytes::u64_to_le_bytes;
use vstd::prelude::*;

verus! {

/// Domain-separation prefix of the escrow capability derivation:
/// the ASCII bytes of `escrow`.
pub open spec fn escrow_domain() -> Seq<u8> {
    seq![101u8, 115u8, 99u8, 114u8, 111u8, 119u8]
}

/// Preimage of the escrow capability digest for one auction: the domain
/// prefix followed by the creator identity and the auction identifier,
/// both in little-endian byte order.
pub open spec fn escrow_preimage(creator: u64, auction_id: u64) -> Seq<u8> {
    escrow_domain() + spec_u64_to_le_bytes(creator) + spec_u64_to_le_bytes(auction_id)
}

/// The capability digest that authorizes releases from the escrow vault of
/// one auction. It is derived from the auction's identity alone, so it is
/// scoped to that auction and to no other.
pub open spec fn authority_digest_of(creator: u64, auction_id: u64) -> Seq<u8> {
    sha256_of(escrow_preimage(creator, auction_id))
}

/// Capability token that gates releases from an escrow vault.
#[derive(Debug)]
pub struct EscrowAuthority {
    pub digest: Vec<u8>,
}

impl EscrowAuthority {
    /// Whether this token authorizes releases for the given auction.
    pub open spec fn authorizes(self, creator: u64, auction_id: u64) -> bool {
        self.digest@ == authority_digest_of(creator, auction_id)
    }
}

/// Derive the escrow capability token for one auction from its identity.
pub fn derive_escrow_authority(creator: u64, auction_id: u64) -> (r: EscrowAuthority)
    ensures
        r.authorizes(creator, auction_id),
{
    let mut preimage: Vec<u8> = Vec::new();
    preimage.push(101u8);
    preimage.push(115u8);
    preimage.push(99u8);
    preimage.push(114u8);
    preimage.push(111u8);
    preimage.push(119u8);
    let mut creator_bytes = u64_to_le_bytes(creator);
    preimage.append(&mut creator_bytes);
    let mut id_bytes = u64_to_le_bytes(auction_id);
    preimage.append(&mut id_bytes);
    proof {
        assert(preimage@ =~= escrow_preimage(creator, auction_id));
    }
    let digest = sha256_digest(&preimage);
    EscrowAuthority { digest }
}

/// Acknowledgement of a single completed transfer into or out of a vault.
#[derive(Clone, Copy, Debug, PartialEq, Eq, Structural)]
pub struct Receipt {
    pub auction_id: u64,
    pub party: u64,
    pub amount: u64,
}

/// Custody of the funds deposited for one auction.
///
/// The running totals exist to state fund conservation: at every point,
/// everything ever deposited is either still in custody (`balance`) or has
/// been released (`total_released`).
#[derive(Debug)]
pub struct EscrowVault {
    pub auction_id: u64,
    pub authority_digest: Vec<u8>,
    pub balance: u64,
    pub total_deposited: u64,
    pub total_released: u64,
}

impl EscrowVault {
    /// Fund conservation: no value is created or destroyed by the vault.
    pub open spec fn wf(self) -> bool {
        self.total_deposited == self.total_released + self.balance
    }

    /// An empty vault for one auction, gated by the capability derived from
    /// the auction's identity.
    pub fn new(creator: u64, auction_id: u64) -> (r: EscrowVault)
        ensures
            r.wf(),
            r.auction_id == auction_id,
            r.authority_digest@ == authority_digest_of(creator, auction_id),
            r.balance == 0,
            r.total_deposited == 0,
            r.total_released == 0,
    {
        let authority = derive_escrow_authority(creator, auction_id);
        EscrowVault {
            auction_id,
            authority_digest: authority.digest,
            balance: 0,
            total_deposited: 0,
            total_released: 0,
        }
    }

    /// Move `amount` from `from` into custody.
    pub fn deposit(&mut self, party: u64, from: &mut u64, amount: u64) -> (r: Result<
        Receipt,
        ErrorCode,
    >)
        requires
            old(self).wf(),
            old(self).total_deposited + amount <= u64::MAX,
        ensures
            final(self).wf(),
            final(self).auction_id == old(self).auction_id,
            final(self).authority_digest == old(self).authority_digest,
            *old(from) < amount ==> {
                &&& r == Err::<Receipt, ErrorCode>(ErrorCode::InsufficientFunds)
                &&& *final(self) == *old(self)
                &&& *final(from) == *old(from)
            },
            *old(from) >= amount ==> {
                &&& r == Ok::<Receipt, ErrorCode>(
                    (Receipt { auction_id: old(self).auction_id, party, amount }),
                )
                &&& *final(from) == *old(from) - amount
                &&& final(self).balance == old(self).balance + amount
                &&& final(self).total_deposited == old(self).total_deposited + amount
                &&& final(self).total_released == old(self).total_released
            },
    {
        if *from < amount {
            return Err(ErrorCode::InsufficientFunds);
        }
        *from = *from - amount;
        self.balance = self.balance + amount;
        self.total_deposited = self.total_deposited + amount;
        Ok(Receipt { auction_id: self.auction_id, party, amount })
    }

    /// Release `amount` from custody to `to`, gated by the per-auction
    /// capability.
    ///
    /// A balance shortfall is an internal consistency fault, not a user
    /// error, so callers must establish that custody suffices.
    pub fn release(
        &mut self,
        party: u64,
        to: &mut u64,
        amount: u64,
        authority_proof: &EscrowAuthority,
    ) -> (r: Result<Receipt, ErrorCode>)
        requires
            old(self).wf(),
            amount <= old(self).balance,
            *old(to) + amount <= u64::MAX,
        ensures
            final(self).wf(),
            final(self).auction_id == old(self).auction_id,
            final(self).authority_digest == old(self).authority_digest,
            authority_proof.digest@ != old(self).authority_digest@ ==> {
                &&& r == Err::<Receipt, ErrorCode>(ErrorCode::Unauthorized)
                &&& *final(self) == *old(self)
                &&& *final(to) == *old(to)
            },
            authority_proof.digest@ == old(self).authority_digest@ ==> {
                &&& r == Ok::<Receipt, ErrorCode>(
                    (Receipt { auction_id: old(self).auction_id, party, amount }),
                )
                &&& *final(to) == *old(to) + amount
                &&& final(self).balance == old(self).balance - amount
                &&& final(self).total_released == old(self).total_released + amount
                &&& final(self).total_deposited == old(self).total_deposited
            },
    {
        if !bytes_eq(&authority_proof.digest, &self.authority_digest) {
            return Err(ErrorCode::Unauthorized);
        }
        self.balance = self.balance - amount;
        self.total_released = self.total_released + amount;
        *to = *to + amount;
        Ok(Receipt { auction_id: self.auction_id, party, amount })
    }
}

} // verus!
