//! Deterministic record addressing.
//!
//! Every record is addressed by hashing a fixed namespace tag together with
//! its identifying fields, so any client can re-derive the same address
//! offline from the same inputs: a strategy from its creator and id, a
//! proposal from its id, and a vote record from its proposal's address and
//! the voter. Addresses are 32-byte digests.

use vstd::prelude::*;
use vstd::bytes::{spec_u64_to_le_bytes, u64_to_le_bytes};

use sha2::{Digest, Sha256};

verus! {

/// Namespace tag of strategy record addresses.
pub const STRATEGY_TAG: u8 = 1;

/// Namespace tag of proposal record addresses.
pub const PROPOSAL_TAG: u8 = 2;

/// Namespace tag of vote record addresses.
pub const VOTE_RECORD_TAG: u8 = 3;

/// The SHA-256 digest of a byte sequence.
pub uninterp spec fn sha256_of(data: Seq<u8>) -> Seq<u8>;

/// Relies on sha2::Sha256 through its Digest trait: the result is the
/// 32-byte SHA-256 digest of the input, a function of the input bytes
/// alone.
#[verifier::external_body]
fn sha256(data: &[u8]) -> (r: Vec<u8>)
    ensures
        r@ == sha256_of(data@),
        r@.len() == 32,
{
    Sha256::digest(data).to_vec()
}

/// Bytes hashed to address a strategy record.
pub open spec fn strategy_address_preimage(creator: u64, strategy_id: u64) -> Seq<u8> {
    seq![STRATEGY_TAG] + spec_u64_to_le_bytes(creator) + spec_u64_to_le_bytes(strategy_id)
}

/// Address of the strategy record of `creator` and `strategy_id`.
pub open spec fn spec_strategy_address(creator: u64, strategy_id: u64) -> Seq<u8> {
    sha256_of(strategy_address_preimage(creator, strategy_id))
}

/// Bytes hashed to address a proposal record.
pub open spec fn proposal_address_preimage(proposal_id: u64) -> Seq<u8> {
    seq![PROPOSAL_TAG] + spec_u64_to_le_bytes(proposal_id)
}

/// Address of the proposal record of `proposal_id`.
pub open spec fn spec_proposal_address(proposal_id: u64) -> Seq<u8> {
    sha256_of(proposal_address_preimage(proposal_id))
}

/// Bytes hashed to address a vote record.
pub open spec fn vote_record_address_preimage(proposal_address: Seq<u8>, voter: u64) -> Seq<u8> {
    seq![VOTE_RECORD_TAG] + proposal_address + spec_u64_to_le_bytes(voter)
}

/// Address of the vote record of `voter` on the proposal at
/// `proposal_address`.
pub open spec fn spec_vote_record_address(proposal_address: Seq<u8>, voter: u64) -> Seq<u8> {
    sha256_of(vote_record_address_preimage(proposal_address, voter))
}

/// Derive the address of a strategy record.
pub fn derive_strategy_address(creator: u64, strategy_id: u64) -> (r: Vec<u8>)
    ensures
        r@ == spec_strategy_address(creator, strategy_id),
        r@.len() == 32,
{
    let mut preimage: Vec<u8> = Vec::new();
    preimage.push(STRATEGY_TAG);
    let mut creator_bytes = u64_to_le_bytes(creator);
    preimage.append(&mut creator_bytes);
    let mut id_bytes = u64_to_le_bytes(strategy_id);
    preimage.append(&mut id_bytes);
    proof {
        assert(preimage@ =~= strategy_address_preimage(creator, strategy_id));
    }
    sha256(preimage.as_slice())
}

/// Derive the address of a proposal record.
pub fn derive_proposal_address(proposal_id: u64) -> (r: Vec<u8>)
    ensures
        r@ == spec_proposal_address(proposal_id),
        r@.len() == 32,
{
    let mut preimage: Vec<u8> = Vec::new();
    preimage.push(PROPOSAL_TAG);
    let mut id_bytes = u64_to_le_bytes(proposal_id);
    preimage.append(&mut id_bytes);
    proof {
        assert(preimage@ =~= proposal_address_preimage(proposal_id));
    }
    sha256(preimage.as_slice())
}

/// Derive the address of a vote record.
pub fn derive_vote_record_address(proposal_address: &Vec<u8>, voter: u64) -> (r: Vec<u8>)
    ensures
        r@ == spec_vote_record_address(proposal_address@, voter),
        r@.len() == 32,
{
    let mut preimage: Vec<u8> = Vec::new();
    preimage.push(VOTE_RECORD_TAG);
    let mut i: usize = 0;
    while i < proposal_address.len()
        invariant
            i <= proposal_address@.len(),
            preimage@ =~= seq![VOTE_RECORD_TAG] + proposal_address@.subrange(0, i as int),
        decreases proposal_address@.len() - i,
    {
        preimage.push(proposal_address[i]);
        i = i + 1;
    }
    let mut voter_bytes = u64_to_le_bytes(voter);
    preimage.append(&mut voter_bytes);
    proof {
        assert(preimage@ =~= vote_record_address_preimage(proposal_address@, voter));
    }
    sha256(preimage.as_slice())
}

/// Byte-for-byte equality of two byte vectors.
pub fn bytes_eq(a: &Vec<u8>, b: &Vec<u8>) -> (r: bool)
    ensures
        r == (a@ == b@),
{
    if a.len() != b.len() {
        return false;
    }
    let mut i: usize = 0;
    while i < a.len()
        invariant
            i <= a@.len(),
            a@.len() == b@.len(),
            forall|j: int| 0 <= j < i ==> a@[j] == b@[j],
        decreases a@.len() - i,
    {
        if a[i] != b[i] {
            proof {
                assert(a@[i as int] != b@[i as int]);
            }
            return false;
        }
        i = i + 1;
    }
    proof {
        assert(a@ =~= b@);
    }
    true
}

} // verus!
