//! Message Builder: the domain-separated byte string an admin signs.
//!
//! A claim's signature target is the concatenation of a fixed ASCII domain
//! tag, the issuing program's 32-byte identity, and the canonical
//! fixed-width serialization of the claim payload (destination identity as
//! 32 raw bytes, then amount, expiry and nonce as 64-bit little-endian
//! integers).  The encoding is byte-exact and free of variable-width
//! ambiguity, so two runs on the same logical inputs produce identical
//! bytes, and distinct logical inputs produce distinct bytes.
use vstd::prelude::*;
use vstd::bytes::*;

use crate::keys::Pubkey;

verus! {

/// A claim authorization, constructed per claim and never persisted.
#[derive(Clone, Copy, Debug)]
pub struct ClaimPayload {
    /// The identity the claimant must sign with, bound into the message.
    pub user_address: Pubkey,
    /// Number of base units to mint; must be positive.
    pub claim_amount: u64,
    /// Last unix second at which the claim may execute.
    pub expiry_time: i64,
    /// Must equal the claimant's current stored nonce; makes the
    /// authorization single-use.
    pub nonce: u64,
}

/// The ASCII domain tag `MERCLE_CLAIM_V1` that prefixes every signed
/// claim message, preventing cross-protocol signature reuse.
pub open spec fn spec_domain_tag() -> Seq<u8> {
    seq![77u8, 69u8, 82u8, 67u8, 76u8, 69u8, 95u8, 67u8, 76u8, 65u8, 73u8, 77u8, 95u8, 86u8, 49u8]
}

/// Canonical serialization of a claim payload: destination identity,
/// then amount, expiry and nonce, each 64-bit little-endian.
pub open spec fn spec_payload_bytes(p: ClaimPayload) -> Seq<u8> {
    p.user_address@ + spec_u64_to_le_bytes(p.claim_amount) + spec_u64_to_le_bytes(
        p.expiry_time as u64,
    ) + spec_u64_to_le_bytes(p.nonce)
}

/// The full signature target: domain tag, issuing program identity,
/// canonical payload bytes.
pub open spec fn spec_claim_message(program_id: Seq<u8>, p: ClaimPayload) -> Seq<u8> {
    spec_domain_tag() + program_id + spec_payload_bytes(p)
}

/// Builds the domain tag bytes.
pub fn domain_tag() -> (r: Vec<u8>)
    ensures
        r@ == spec_domain_tag(),
{
    let mut r: Vec<u8> = Vec::new();
    r.push(77u8);
    r.push(69u8);
    r.push(82u8);
    r.push(67u8);
    r.push(76u8);
    r.push(69u8);
    r.push(95u8);
    r.push(67u8);
    r.push(76u8);
    r.push(65u8);
    r.push(73u8);
    r.push(77u8);
    r.push(95u8);
    r.push(86u8);
    r.push(49u8);
    proof {
        assert(r@ =~= spec_domain_tag());
    }
    r
}

/// Serializes a claim payload into its canonical fixed-width bytes.
pub fn payload_bytes(p: &ClaimPayload) -> (r: Vec<u8>)
    ensures
        r@ == spec_payload_bytes(*p),
{
    let mut r: Vec<u8> = Vec::new();
    r.extend_from_slice(p.user_address.as_slice());
    let mut amount = u64_to_le_bytes(p.claim_amount);
    r.append(&mut amount);
    let mut expiry = u64_to_le_bytes(p.expiry_time as u64);
    r.append(&mut expiry);
    let mut nonce = u64_to_le_bytes(p.nonce);
    r.append(&mut nonce);
    proof {
        assert(r@ =~= spec_payload_bytes(*p));
    }
    r
}

/// Builds the exact byte string an off-chain signer must sign to
/// authorize the claim `p` against the program `program_id`.
pub fn build_claim_message(program_id: &Pubkey, p: &ClaimPayload) -> (r: Vec<u8>)
    ensures
        r@ == spec_claim_message(program_id@, *p),
{
    let mut r = domain_tag();
    r.extend_from_slice(program_id.as_slice());
    let mut payload = payload_bytes(p);
    r.append(&mut payload);
    proof {
        assert(r@ =~= spec_claim_message(program_id@, *p));
    }
    r
}

/// Message determinism: the signature target is a function of the
/// program identity and the payload's logical fields alone, so the
/// builder run twice on identical logical inputs produces byte-identical
/// output.  `build_claim_message` ensures its result is exactly
/// `spec_claim_message` of its inputs, so any two runs agree with it and
/// with each other.
pub proof fn lemma_message_deterministic(
    id1: Seq<u8>,
    p1: ClaimPayload,
    id2: Seq<u8>,
    p2: ClaimPayload,
)
    requires
        id1 == id2,
        p1 == p2,
    ensures
        spec_claim_message(id1, p1) == spec_claim_message(id2, p2),
{
}

/// The payload serialization binds every field: equal byte strings come
/// only from equal payloads.
pub proof fn lemma_payload_bytes_injective(p1: ClaimPayload, p2: ClaimPayload)
    requires
        spec_payload_bytes(p1) == spec_payload_bytes(p2),
    ensures
        p1 == p2,
{
    lemma_auto_spec_u64_to_from_le_bytes();
    let b1 = spec_payload_bytes(p1);
    let b2 = spec_payload_bytes(p2);
    assert(p1.user_address@ =~= b1.subrange(0, 32));
    assert(spec_u64_to_le_bytes(p1.claim_amount) =~= b1.subrange(32, 40));
    assert(spec_u64_to_le_bytes(p1.expiry_time as u64) =~= b1.subrange(40, 48));
    assert(spec_u64_to_le_bytes(p1.nonce) =~= b1.subrange(48, 56));
    assert(p2.user_address@ =~= b2.subrange(0, 32));
    assert(spec_u64_to_le_bytes(p2.claim_amount) =~= b2.subrange(32, 40));
    assert(spec_u64_to_le_bytes(p2.expiry_time as u64) =~= b2.subrange(40, 48));
    assert(spec_u64_to_le_bytes(p2.nonce) =~= b2.subrange(48, 56));
    assert(p1.user_address =~= p2.user_address);
    assert(p1.claim_amount == p2.claim_amount);
    assert(p1.expiry_time as u64 == p2.expiry_time as u64);
    let e1 = p1.expiry_time;
    let e2 = p2.expiry_time;
    assert(e1 == e2) by (bit_vector)
        requires
            e1 as u64 == e2 as u64,
    ;
    assert(p1.nonce == p2.nonce);
}

/// Full field binding: two claim messages are byte-identical only when
/// they bind the same program identity and the same payload, so changing
/// any one bound field changes the signature target.
pub proof fn lemma_claim_message_injective(
    id1: Seq<u8>,
    p1: ClaimPayload,
    id2: Seq<u8>,
    p2: ClaimPayload,
)
    requires
        id1.len() == 32,
        id2.len() == 32,
        spec_claim_message(id1, p1) == spec_claim_message(id2, p2),
    ensures
        id1 == id2,
        p1 == p2,
{
    lemma_auto_spec_u64_to_from_le_bytes();
    let m1 = spec_claim_message(id1, p1);
    let m2 = spec_claim_message(id2, p2);
    assert(id1 =~= m1.subrange(15, 47));
    assert(id2 =~= m2.subrange(15, 47));
    assert(spec_payload_bytes(p1) =~= m1.subrange(47, m1.len() as int));
    assert(spec_payload_bytes(p2) =~= m2.subrange(47, m2.len() as int));
    lemma_payload_bytes_injective(p1, p2);
}

} // verus!
