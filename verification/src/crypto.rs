use crate::errors::ErrorCode;
use vstd::prelude::*;

verus! {

/// Shortest result proof that the placeholder attestation check accepts.
pub const MIN_RESULT_PROOF_LEN: usize = 64;

/// The SHA-256 digest of a byte sequence, as the `sha2` crate computes it.
pub uninterp spec fn sha256_of(data: Seq<u8>) -> Seq<u8>;

/// Relies on `sha2::Sha256`: the digest is a function of the input bytes
/// alone, and is always 32 bytes long.
#[verifier::external_body]
pub(crate) fn sha256_digest(data: &Vec<u8>) -> (r: Vec<u8>)
    ensures
        r@ == sha256_of(data@),
        r@.len() == 32,
{
    let mut hasher = <sha2::Sha256 as sha2::Digest>::new();
    sha2::Digest::update(&mut hasher, data.as_slice());
    sha2::Digest::finalize(hasher).to_vec()
}

/// Check a sealed bid's validity proof.
///
/// This stands for the external attestation collaborator; until a concrete
/// proof system is wired up it accepts exactly the non-empty proofs.
#[allow(unused_variables)]
pub fn verify_encrypted_bid(
    encrypted_bid: &Vec<u8>,
    proof: &Vec<u8>,
    verifying_key_data: &Vec<u8>,
) -> (r: Result<bool, ErrorCode>)
    ensures
        r == Ok::<bool, ErrorCode>(proof@.len() > 0),
{
    if proof.len() == 0 {
        return Ok(false);
    }
    Ok(true)
}

/// Check the attestation that accompanies an externally computed result.
///
/// This stands for the external attestation collaborator; until a concrete
/// threshold-signature scheme is wired up it accepts exactly the proofs of
/// at least `MIN_RESULT_PROOF_LEN` bytes.
#[allow(unused_variables)]
pub fn verify_mpc_result(
    result_proof: &Vec<u8>,
    mpc_id: &Vec<u8>,
    winner: u64,
    winning_amount: u64,
    attestation_pubkey: &Vec<u8>,
) -> (r: Result<bool, ErrorCode>)
    ensures
        r == Ok::<bool, ErrorCode>(result_proof@.len() >= MIN_RESULT_PROOF_LEN),
{
    if result_proof.len() < MIN_RESULT_PROOF_LEN {
        return Ok(false);
    }
    Ok(true)
}

} // verus!
