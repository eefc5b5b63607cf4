//! Signature Verifier: scanning co-instructions for an Ed25519 precompile
//! record that verified the expected signature over the expected message.
//!
//! The platform's Ed25519 precompile verifies signatures itself; its
//! successful inclusion in the transaction is the proof that the check
//! passed.  This module re-parses each preceding instruction's binary
//! payload with strict bounds checks and accepts a claim's signature only
//! when some record binds the expected public key, signature and message
//! byte-for-byte.  Malformed records are treated as non-matches, never as
//! errors: garbage precompile calls cannot crash verification.
use vstd::prelude::*;
use vstd::bytes::*;
use vstd::slice::*;

use crate::errors::MercleError;
use crate::keys::Pubkey;
use crate::keys::bytes_eq;
use crate::keys::key_eq;

verus! {

/// One co-instruction of the enclosing transaction, as handed over by
/// the transaction-introspection service: the program it is addressed to
/// and its raw, untrusted data bytes.
#[derive(Clone, Debug)]
pub struct Instruction {
    pub program_id: Pubkey,
    pub data: Vec<u8>,
}

/// The fixed identity of the platform's Ed25519 signature-verification
/// precompile.
pub open spec fn spec_ed25519_program_id() -> Seq<u8> {
    seq![
        3u8, 125u8, 70u8, 214u8, 124u8, 147u8, 251u8, 190u8, 18u8, 249u8, 66u8, 143u8, 131u8,
        141u8, 64u8, 255u8, 5u8, 112u8, 116u8, 73u8, 39u8, 244u8, 138u8, 100u8, 252u8, 202u8,
        112u8, 68u8, 128u8, 0u8, 0u8, 0u8,
    ]
}

/// Builds the Ed25519 precompile's identity.
pub fn ed25519_program_id() -> (k: Pubkey)
    ensures
        k@ == spec_ed25519_program_id(),
{
    let k: Pubkey = [
        3u8, 125u8, 70u8, 214u8, 124u8, 147u8, 251u8, 190u8, 18u8, 249u8, 66u8, 143u8, 131u8,
        141u8, 64u8, 255u8, 5u8, 112u8, 116u8, 73u8, 39u8, 244u8, 138u8, 100u8, 252u8, 202u8,
        112u8, 68u8, 128u8, 0u8, 0u8, 0u8,
    ];
    proof {
        assert(k@ =~= spec_ed25519_program_id());
    }
    k
}

/// Parse of a single-signer Ed25519 precompile record.  The layout is a
/// 16-byte header of little-endian offsets followed by a data blob:
/// signer count (must be 1), padding, then offsets and sizes locating the
/// 32-byte public key, the 64-byte signature and the variable-length
/// message inside the record.  Every offset is attacker-controlled, so a
/// record parses only when each located field lies wholly inside the
/// record's bytes; anything else is `None`.
pub open spec fn spec_parse_ed25519_single(d: Seq<u8>) -> Option<(Seq<u8>, Seq<u8>, Seq<u8>)> {
    if d.len() < 16 {
        None
    } else if d[0] != 1u8 {
        None
    } else {
        let sig_off = spec_u16_from_le_bytes(d.subrange(2, 4)) as int;
        let pk_off = spec_u16_from_le_bytes(d.subrange(6, 8)) as int;
        let msg_off = spec_u16_from_le_bytes(d.subrange(10, 12)) as int;
        let msg_size = spec_u16_from_le_bytes(d.subrange(12, 14)) as int;
        if pk_off + 32 <= d.len() && sig_off + 64 <= d.len() && msg_off + msg_size <= d.len() {
            Some(
                (
                    d.subrange(pk_off, pk_off + 32),
                    d.subrange(sig_off, sig_off + 64),
                    d.subrange(msg_off, msg_off + msg_size),
                ),
            )
        } else {
            None
        }
    }
}

/// Bounds-checked structured decode of a single-signer Ed25519 precompile
/// record: `Some((public key, signature, message))` exactly when the
/// record is well-formed.
pub fn parse_ed25519_single(data: &[u8]) -> (r: Option<(Vec<u8>, Vec<u8>, Vec<u8>)>)
    ensures
        r is Some <==> spec_parse_ed25519_single(data@) is Some,
        r matches Some(t) ==> spec_parse_ed25519_single(data@) == Some((t.0@, t.1@, t.2@)),
{
    if data.len() < 16 {
        return None;
    }
    if data[0] != 1u8 {
        return None;
    }
    let sig_off = u16_from_le_bytes(slice_subrange(data, 2, 4)) as usize;
    let pk_off = u16_from_le_bytes(slice_subrange(data, 6, 8)) as usize;
    let msg_off = u16_from_le_bytes(slice_subrange(data, 10, 12)) as usize;
    let msg_size = u16_from_le_bytes(slice_subrange(data, 12, 14)) as usize;
    if pk_off + 32 <= data.len() && sig_off + 64 <= data.len() && msg_off + msg_size <= data.len()
    {
        let pk = slice_to_vec(slice_subrange(data, pk_off, pk_off + 32));
        let sig = slice_to_vec(slice_subrange(data, sig_off, sig_off + 64));
        let msg = slice_to_vec(slice_subrange(data, msg_off, msg_off + msg_size));
        Some((pk, sig, msg))
    } else {
        None
    }
}

/// Whether one co-instruction is a well-formed Ed25519 precompile record
/// binding exactly the expected message, signature and signer key.
pub open spec fn spec_record_matches(
    inst: Instruction,
    message: Seq<u8>,
    signature: Seq<u8>,
    pubkey: Seq<u8>,
) -> bool {
    &&& inst.program_id@ == spec_ed25519_program_id()
    &&& spec_parse_ed25519_single(inst.data@) matches Some(t) && t.0 == pubkey && t.1 == signature
        && t.2 == message
}

/// Whether some co-instruction in the list is a matching record: the
/// precompile independently verified `signature` by `pubkey` over exactly
/// `message`.
pub open spec fn spec_signature_verified(
    instructions: Seq<Instruction>,
    message: Seq<u8>,
    signature: Seq<u8>,
    pubkey: Seq<u8>,
) -> bool {
    exists|i: int|
        0 <= i < instructions.len() && spec_record_matches(
            #[trigger] instructions[i],
            message,
            signature,
            pubkey,
        )
}

/// Scans the instructions that precede the claim instruction in the
/// enclosing transaction for an Ed25519 precompile record that verified
/// `admin_signature` by `admin_pubkey` over exactly `message_bytes`.
/// Matching is accumulate-only: once a record matches, later non-matching
/// records do not unmark it.  Succeeds exactly when such a record exists;
/// otherwise the admin's signature was never verified and the claim fails.
pub fn verify_admin_signature_only(
    instructions: &Vec<Instruction>,
    message_bytes: &[u8],
    admin_signature: &[u8; 64],
    admin_pubkey: &Pubkey,
) -> (r: Result<(), MercleError>)
    ensures
        r is Ok <==> spec_signature_verified(
            instructions@,
            message_bytes@,
            admin_signature@,
            admin_pubkey@,
        ),
        r is Err ==> r == Err::<(), MercleError>(MercleError::AdminSignatureNotVerified),
{
    let ed_id = ed25519_program_id();
    let mut admin_verified = false;
    let n = instructions.len();
    let mut i: usize = 0;
    while i < n
        invariant
            i <= n,
            n == instructions@.len(),
            ed_id@ == spec_ed25519_program_id(),
            admin_verified == spec_signature_verified(
                instructions@.take(i as int),
                message_bytes@,
                admin_signature@,
                admin_pubkey@,
            ),
        decreases n - i,
    {
        let inst = &instructions[i];
        if key_eq(&inst.program_id, &ed_id) {
            match parse_ed25519_single(inst.data.as_slice()) {
                Some(parts) => {
                    if bytes_eq(parts.2.as_slice(), message_bytes) {
                        if !admin_verified && bytes_eq(parts.0.as_slice(), admin_pubkey.as_slice())
                            && bytes_eq(parts.1.as_slice(), admin_signature.as_slice()) {
                            admin_verified = true;
                        }
                    }
                },
                None => {},
            }
        }
        proof {
            let pre = instructions@.take(i as int);
            let post = instructions@.take(i as int + 1);
            assert(post =~= pre.push(instructions@[i as int]));
            assert forall|j: int| 0 <= j < post.len() implies post[j] == if j < pre.len() {
                pre[j]
            } else {
                instructions@[i as int]
            } by {}
            if admin_verified && !spec_signature_verified(
                pre,
                message_bytes@,
                admin_signature@,
                admin_pubkey@,
            ) {
                assert(spec_record_matches(
                    instructions@[i as int],
                    message_bytes@,
                    admin_signature@,
                    admin_pubkey@,
                ));
                assert(post[i as int] == instructions@[i as int]);
            }
        }
        i = i + 1;
    }
    proof {
        assert(instructions@.take(n as int) =~= instructions@);
    }
    if admin_verified {
        Ok(())
    } else {
        Err(MercleError::AdminSignatureNotVerified)
    }
}

/// Matches two expected (signer, signature) pairs independently against
/// the same preceding instructions, over the same expected message: the
/// user's pair and the admin's pair may be verified by the same or by
/// different precompile records.  Fails with the unmatched role's error,
/// the user's checked first; succeeds only when both pairs are matched.
pub fn verify_user_and_admin_signatures(
    instructions: &Vec<Instruction>,
    message_bytes: &[u8],
    user_signature: &[u8; 64],
    user_pubkey: &Pubkey,
    admin_signature: &[u8; 64],
    admin_pubkey: &Pubkey,
) -> (r: Result<(), MercleError>)
    ensures
        r is Ok <==> spec_signature_verified(
            instructions@,
            message_bytes@,
            user_signature@,
            user_pubkey@,
        ) && spec_signature_verified(
            instructions@,
            message_bytes@,
            admin_signature@,
            admin_pubkey@,
        ),
        !spec_signature_verified(instructions@, message_bytes@, user_signature@, user_pubkey@)
            ==> r == Err::<(), MercleError>(MercleError::UserSignatureNotVerified),
        spec_signature_verified(instructions@, message_bytes@, user_signature@, user_pubkey@)
            && !spec_signature_verified(
            instructions@,
            message_bytes@,
            admin_signature@,
            admin_pubkey@,
        ) ==> r == Err::<(), MercleError>(MercleError::AdminSignatureNotVerified),
{
    match verify_admin_signature_only(instructions, message_bytes, user_signature, user_pubkey) {
        Ok(_) => {},
        Err(_) => {
            return Err(MercleError::UserSignatureNotVerified);
        },
    }
    verify_admin_signature_only(instructions, message_bytes, admin_signature, admin_pubkey)
}

/// Signature binding: when every well-formed precompile record in the
/// transaction binds the message `expected`, verification against any
/// different message fails, whatever key and signature are asked for.  A
/// signature valid for one message can never be accepted for another,
/// even one differing in a single byte.
pub proof fn lemma_signature_binding(
    instructions: Seq<Instruction>,
    expected: Seq<u8>,
    other: Seq<u8>,
    signature: Seq<u8>,
    pubkey: Seq<u8>,
)
    requires
        forall|i: int|
            0 <= i < instructions.len() ==> (spec_parse_ed25519_single(
                #[trigger] instructions[i].data@,
            ) matches Some(t) ==> t.2 == expected),
        other != expected,
    ensures
        !spec_signature_verified(instructions, other, signature, pubkey),
{
    if spec_signature_verified(instructions, other, signature, pubkey) {
        let i = choose|i: int|
            0 <= i < instructions.len() && spec_record_matches(
                #[trigger] instructions[i],
                other,
                signature,
                pubkey,
            );
        assert(spec_parse_ed25519_single(instructions[i].data@) matches Some(t) ==> t.2
            == expected);
    }
}

} // verus!
