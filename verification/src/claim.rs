//! Claim State Machine: admission and atomic advance of a user's record.
//!
//! A claim executes only when every precondition holds, checked in a
//! fixed order so each failure reports one predictable code: policy and
//! account identities, destination binding, a positive amount, exact
//! nonce equality (a signed claim is single-use), the time-lock window,
//! expiry, and finally the admin's Ed25519 signature over the exact
//! rebuilt message.  On success the record advances atomically: the
//! nonce and claim count step by one (failing closed on overflow, never
//! wrapping) and the next allowed claim time is reprojected.  On any
//! failure the record is left untouched, mirroring the host's
//! all-or-nothing transaction commit.
use vstd::prelude::*;

use crate::ed25519::Instruction;
use crate::ed25519::spec_signature_verified;
use crate::ed25519::verify_admin_signature_only;
use crate::errors::MercleError;
use crate::keys::Pubkey;
use crate::keys::key_eq;
use crate::keys::key_is_zero;
use crate::keys::spec_zero_key;
use crate::message::ClaimPayload;
use crate::message::build_claim_message;
use crate::message::spec_claim_message;
use crate::state::TokenAccountInfo;
use crate::state::TokenState;
use crate::state::UserData;

verus! {

/// Addition on 64-bit signed times that clamps at the representable
/// range instead of wrapping.
pub open spec fn spec_i64_saturating_add(a: i64, b: i64) -> i64 {
    if a + b > i64::MAX {
        i64::MAX
    } else if a + b < i64::MIN {
        i64::MIN
    } else {
        (a + b) as i64
    }
}

/// Clamped addition of two signed 64-bit times.
pub fn i64_saturating_add(a: i64, b: i64) -> (r: i64)
    ensures
        r == spec_i64_saturating_add(a, b),
{
    match a.checked_add(b) {
        Some(v) => v,
        None => {
            if b >= 0 {
                i64::MAX
            } else {
                i64::MIN
            }
        },
    }
}

/// Whether a signature holds any nonzero byte; the all-zero signature is
/// rejected outright as a placeholder no signer produces.
pub open spec fn spec_signature_nonzero(s: Seq<u8>) -> bool {
    exists|i: int| 0 <= i < s.len() && s[i] != 0
}

/// Whether any byte of the signature is nonzero.
pub fn signature_is_nonzero(s: &[u8; 64]) -> (r: bool)
    ensures
        r == spec_signature_nonzero(s@),
{
    let mut i: usize = 0;
    while i < 64
        invariant
            i <= 64,
            s@.len() == 64,
            forall|j: int| 0 <= j < i ==> s@[j] == 0,
        decreases 64 - i,
    {
        if s[i] != 0 {
            return true;
        }
        i = i + 1;
    }
    false
}

/// The admission predicate: `None` when the claim may execute, otherwise
/// the code of the first failed precondition, in the checking order the
/// protocol fixes.
pub open spec fn spec_claim_admission(
    state: TokenState,
    user_data: UserData,
    payload: ClaimPayload,
    admin_signature: Seq<u8>,
    user: Seq<u8>,
    mint: Seq<u8>,
    user_token_account: TokenAccountInfo,
    program_id: Seq<u8>,
    instructions: Seq<Instruction>,
    now: i64,
) -> Option<MercleError> {
    if !state.is_initialized {
        Some(MercleError::ContractNotInitialized)
    } else if state.token_mint@ == spec_zero_key() {
        Some(MercleError::TokenMintNotCreated)
    } else if mint != state.token_mint@ {
        Some(MercleError::InvalidTokenMint)
    } else if user_token_account.mint@ != state.token_mint@ {
        Some(MercleError::InvalidTokenAccount)
    } else if payload.user_address@ != user {
        Some(MercleError::UnauthorizedDestination)
    } else if user_token_account.owner@ != user {
        Some(MercleError::UnauthorizedDestination)
    } else if payload.claim_amount == 0 {
        Some(MercleError::InvalidMintAmount)
    } else if user_data.user@ != user {
        Some(MercleError::InvalidUserData)
    } else if payload.nonce != user_data.nonce {
        Some(MercleError::InvalidNonce)
    } else if state.time_lock_enabled && now < user_data.next_allowed_claim_time {
        Some(MercleError::ClaimTimeLocked)
    } else if state.time_lock_enabled && user_data.total_claims > 0 && now
        < spec_i64_saturating_add(user_data.last_claim_timestamp, state.claim_period_seconds) {
        Some(MercleError::ClaimPeriodNotElapsed)
    } else if !state.time_lock_enabled && user_data.last_claim_timestamp > 0 && now
        < spec_i64_saturating_add(user_data.last_claim_timestamp, 1) {
        Some(MercleError::ClaimTooFrequent)
    } else if now > payload.expiry_time {
        Some(MercleError::ClaimExpired)
    } else if !spec_signature_nonzero(admin_signature) {
        Some(MercleError::InvalidAdminSignature)
    } else if !spec_signature_verified(
        instructions,
        spec_claim_message(program_id, payload),
        admin_signature,
        state.admin@,
    ) {
        Some(MercleError::AdminSignatureNotVerified)
    } else {
        None
    }
}

/// The record after an admitted claim: nonce and claim count step by
/// exactly one, failing closed on overflow; the last-claim time becomes
/// `now`; the next allowed time is `now` plus the claim period under a
/// time-lock (failing closed if that sum leaves the representable
/// range), else one second after `now`.
pub open spec fn spec_claim_effect(state: TokenState, user_data: UserData, now: i64) -> Result<
    UserData,
    MercleError,
> {
    if user_data.nonce == u64::MAX {
        Err(MercleError::NonceOverflow)
    } else if user_data.total_claims == u64::MAX {
        Err(MercleError::ClaimCountOverflow)
    } else if state.time_lock_enabled && (now + state.claim_period_seconds > i64::MAX || now
        + state.claim_period_seconds < i64::MIN) {
        Err(MercleError::TimestampOverflow)
    } else {
        Ok(
            UserData {
                nonce: (user_data.nonce + 1) as u64,
                last_claim_timestamp: now,
                next_allowed_claim_time: if state.time_lock_enabled {
                    (now + state.claim_period_seconds) as i64
                } else {
                    spec_i64_saturating_add(now, 1)
                },
                total_claims: (user_data.total_claims + 1) as u64,
                ..user_data
            },
        )
    }
}

/// The claim transition as a whole: the first failed admission check's
/// code, or the overflow-checked advance of the user's record.
pub open spec fn spec_claim_tokens(
    state: TokenState,
    user_data: UserData,
    payload: ClaimPayload,
    admin_signature: Seq<u8>,
    user: Seq<u8>,
    mint: Seq<u8>,
    user_token_account: TokenAccountInfo,
    program_id: Seq<u8>,
    instructions: Seq<Instruction>,
    now: i64,
) -> Result<UserData, MercleError> {
    match spec_claim_admission(
        state,
        user_data,
        payload,
        admin_signature,
        user,
        mint,
        user_token_account,
        program_id,
        instructions,
        now,
    ) {
        Some(e) => Err(e),
        None => spec_claim_effect(state, user_data, now),
    }
}

/// Redeems a backend-signed claim: checks every admission precondition
/// in order against the policy, the user's record, the account snapshot
/// and the co-instructions of the enclosing transaction, and on success
/// advances the user's record atomically.  The host then mints
/// `payload.claim_amount` base units to the destination account and
/// freezes it.  On any error the user's record is unchanged.
pub fn claim_tokens(
    state: &TokenState,
    user_data: &mut UserData,
    payload: &ClaimPayload,
    admin_signature: &[u8; 64],
    user: &Pubkey,
    mint: &Pubkey,
    user_token_account: &TokenAccountInfo,
    program_id: &Pubkey,
    instructions: &Vec<Instruction>,
    now: i64,
) -> (r: Result<(), MercleError>)
    ensures
        (match spec_claim_tokens(
            *state,
            *old(user_data),
            *payload,
            admin_signature@,
            user@,
            mint@,
            *user_token_account,
            program_id@,
            instructions@,
            now,
        ) {
            Ok(ud) => r is Ok && *final(user_data) == ud,
            Err(e) => r == Err::<(), MercleError>(e) && *final(user_data) == *old(user_data),
        }),
{
    if !state.is_initialized {
        return Err(MercleError::ContractNotInitialized);
    }
    if key_is_zero(&state.token_mint) {
        return Err(MercleError::TokenMintNotCreated);
    }
    if !key_eq(mint, &state.token_mint) {
        return Err(MercleError::InvalidTokenMint);
    }
    if !key_eq(&user_token_account.mint, &state.token_mint) {
        return Err(MercleError::InvalidTokenAccount);
    }
    if !key_eq(&payload.user_address, user) {
        return Err(MercleError::UnauthorizedDestination);
    }
    if !key_eq(&user_token_account.owner, user) {
        return Err(MercleError::UnauthorizedDestination);
    }
    if payload.claim_amount == 0 {
        return Err(MercleError::InvalidMintAmount);
    }
    if !key_eq(&user_data.user, user) {
        return Err(MercleError::InvalidUserData);
    }
    if payload.nonce != user_data.nonce {
        return Err(MercleError::InvalidNonce);
    }
    if state.time_lock_enabled {
        if now < user_data.next_allowed_claim_time {
            return Err(MercleError::ClaimTimeLocked);
        }
        if user_data.total_claims > 0 && now < i64_saturating_add(
            user_data.last_claim_timestamp,
            state.claim_period_seconds,
        ) {
            return Err(MercleError::ClaimPeriodNotElapsed);
        }
    } else {
        if user_data.last_claim_timestamp > 0 && now < i64_saturating_add(
            user_data.last_claim_timestamp,
            1,
        ) {
            return Err(MercleError::ClaimTooFrequent);
        }
    }
    if now > payload.expiry_time {
        return Err(MercleError::ClaimExpired);
    }
    if !signature_is_nonzero(admin_signature) {
        return Err(MercleError::InvalidAdminSignature);
    }
    let message_bytes = build_claim_message(program_id, payload);
    match verify_admin_signature_only(
        instructions,
        message_bytes.as_slice(),
        admin_signature,
        &state.admin,
    ) {
        Ok(_) => {},
        Err(e) => {
            return Err(e);
        },
    }
    let new_nonce = match user_data.nonce.checked_add(1) {
        Some(v) => v,
        None => {
            return Err(MercleError::NonceOverflow);
        },
    };
    let new_total = match user_data.total_claims.checked_add(1) {
        Some(v) => v,
        None => {
            return Err(MercleError::ClaimCountOverflow);
        },
    };
    let next_allowed: i64 = if state.time_lock_enabled {
        match now.checked_add(state.claim_period_seconds) {
            Some(v) => v,
            None => {
                return Err(MercleError::TimestampOverflow);
            },
        }
    } else {
        i64_saturating_add(now, 1)
    };
    user_data.nonce = new_nonce;
    user_data.last_claim_timestamp = now;
    user_data.total_claims = new_total;
    user_data.next_allowed_claim_time = next_allowed;
    Ok(())
}

/// Nonce sequencing: a claim executes only when its payload carries the
/// user's current nonce, and on success the nonce and the claim count
/// each step by exactly one while the record's owner is unchanged; the
/// last-claim time becomes the claim's time.
pub proof fn lemma_claim_advances_nonce(
    state: TokenState,
    user_data: UserData,
    payload: ClaimPayload,
    admin_signature: Seq<u8>,
    user: Seq<u8>,
    mint: Seq<u8>,
    user_token_account: TokenAccountInfo,
    program_id: Seq<u8>,
    instructions: Seq<Instruction>,
    now: i64,
    advanced: UserData,
)
    requires
        spec_claim_tokens(
            state,
            user_data,
            payload,
            admin_signature,
            user,
            mint,
            user_token_account,
            program_id,
            instructions,
            now,
        ) == Ok::<UserData, MercleError>(advanced),
    ensures
        payload.nonce == user_data.nonce,
        advanced.nonce == user_data.nonce + 1,
        advanced.total_claims == user_data.total_claims + 1,
        advanced.last_claim_timestamp == now,
        advanced.user == user_data.user,
{
}

/// The nonce counts successful claims: a record whose nonce equals its
/// claim count keeps that equality across every successful claim.  A
/// freshly initialized record has both at zero, so after the k-th
/// successful claim both are k, and that claim consumed nonce k - 1.
pub proof fn lemma_nonce_counts_claims(
    state: TokenState,
    user_data: UserData,
    payload: ClaimPayload,
    admin_signature: Seq<u8>,
    user: Seq<u8>,
    mint: Seq<u8>,
    user_token_account: TokenAccountInfo,
    program_id: Seq<u8>,
    instructions: Seq<Instruction>,
    now: i64,
    advanced: UserData,
)
    requires
        user_data.total_claims == user_data.nonce,
        spec_claim_tokens(
            state,
            user_data,
            payload,
            admin_signature,
            user,
            mint,
            user_token_account,
            program_id,
            instructions,
            now,
        ) == Ok::<UserData, MercleError>(advanced),
    ensures
        advanced.total_claims == advanced.nonce,
        payload.nonce == user_data.total_claims,
{
}

/// No nonce is ever reused: of two successful claims in sequence by one
/// user, the second consumes exactly the successor of the nonce the
/// first consumed, so their payloads can never carry the same nonce.
pub proof fn lemma_nonce_never_reused(
    state1: TokenState,
    user_data: UserData,
    payload1: ClaimPayload,
    admin_signature1: Seq<u8>,
    user: Seq<u8>,
    mint1: Seq<u8>,
    user_token_account1: TokenAccountInfo,
    program_id1: Seq<u8>,
    instructions1: Seq<Instruction>,
    now1: i64,
    mid: UserData,
    state2: TokenState,
    payload2: ClaimPayload,
    admin_signature2: Seq<u8>,
    mint2: Seq<u8>,
    user_token_account2: TokenAccountInfo,
    program_id2: Seq<u8>,
    instructions2: Seq<Instruction>,
    now2: i64,
    last: UserData,
)
    requires
        spec_claim_tokens(
            state1,
            user_data,
            payload1,
            admin_signature1,
            user,
            mint1,
            user_token_account1,
            program_id1,
            instructions1,
            now1,
        ) == Ok::<UserData, MercleError>(mid),
        spec_claim_tokens(
            state2,
            mid,
            payload2,
            admin_signature2,
            user,
            mint2,
            user_token_account2,
            program_id2,
            instructions2,
            now2,
        ) == Ok::<UserData, MercleError>(last),
    ensures
        payload2.nonce == payload1.nonce + 1,
        payload2.nonce != payload1.nonce,
{
}

/// One claim submission's full context, for stating laws over whole
/// submission histories.
pub struct ClaimStep {
    pub state: TokenState,
    pub payload: ClaimPayload,
    pub admin_signature: Seq<u8>,
    pub mint: Seq<u8>,
    pub user_token_account: TokenAccountInfo,
    pub program_id: Seq<u8>,
    pub instructions: Seq<Instruction>,
    pub now: i64,
}

/// Whether `records` is the history of user records produced by the
/// successful claims `steps`, in order, starting from `initial`: each
/// step's claim succeeds on the record the previous step left.
pub open spec fn spec_successful_run(
    initial: UserData,
    user: Seq<u8>,
    steps: Seq<ClaimStep>,
    records: Seq<UserData>,
) -> bool {
    &&& records.len() == steps.len()
    &&& forall|k: int|
        0 <= k < steps.len() ==> spec_claim_tokens(
            (#[trigger] steps[k]).state,
            if k == 0 {
                initial
            } else {
                records[k - 1]
            },
            steps[k].payload,
            steps[k].admin_signature,
            user,
            steps[k].mint,
            steps[k].user_token_account,
            steps[k].program_id,
            steps[k].instructions,
            steps[k].now,
        ) == Ok::<UserData, MercleError>(records[k])
}

/// Nonce monotonicity over a whole history: in any sequence of
/// successful claims by one user starting from a freshly initialized
/// record, the claim at position k (0-indexed) consumes exactly nonce k,
/// and leaves the record's nonce and claim count at k + 1 — so the
/// nonce observed by the k-th claim (1-indexed) is k - 1, and no nonce
/// value is ever consumed twice.
pub proof fn lemma_run_nonce_sequence(
    initial: UserData,
    user: Seq<u8>,
    steps: Seq<ClaimStep>,
    records: Seq<UserData>,
    k: int,
)
    requires
        initial.nonce == 0,
        initial.total_claims == 0,
        spec_successful_run(initial, user, steps, records),
        0 <= k < steps.len(),
    ensures
        steps[k].payload.nonce == k,
        records[k].nonce == k + 1,
        records[k].total_claims == k + 1,
    decreases k,
{
    let before = if k == 0 {
        initial
    } else {
        records[k - 1]
    };
    if k > 0 {
        lemma_run_nonce_sequence(initial, user, steps, records, k - 1);
    }
    lemma_claim_advances_nonce(
        steps[k].state,
        before,
        steps[k].payload,
        steps[k].admin_signature,
        user,
        steps[k].mint,
        steps[k].user_token_account,
        steps[k].program_id,
        steps[k].instructions,
        steps[k].now,
        records[k],
    );
}

/// Replay rejection: once a claim has succeeded, resubmitting the very
/// same payload and admin signature in the same context always fails
/// with the replay error, whatever time has elapsed and whatever
/// precompile instructions accompany the retry: the record's nonce has
/// moved past the payload's forever.
pub proof fn lemma_replay_rejected(
    state: TokenState,
    user_data: UserData,
    payload: ClaimPayload,
    admin_signature: Seq<u8>,
    user: Seq<u8>,
    mint: Seq<u8>,
    user_token_account: TokenAccountInfo,
    program_id: Seq<u8>,
    instructions: Seq<Instruction>,
    now: i64,
    advanced: UserData,
    retry_instructions: Seq<Instruction>,
    retry_now: i64,
)
    requires
        spec_claim_tokens(
            state,
            user_data,
            payload,
            admin_signature,
            user,
            mint,
            user_token_account,
            program_id,
            instructions,
            now,
        ) == Ok::<UserData, MercleError>(advanced),
    ensures
        spec_claim_tokens(
            state,
            advanced,
            payload,
            admin_signature,
            user,
            mint,
            user_token_account,
            program_id,
            retry_instructions,
            retry_now,
        ) == Err::<UserData, MercleError>(MercleError::InvalidNonce),
{
}

/// Signature binding at the claim level: when every well-formed
/// precompile record in the transaction binds the message of one
/// authorized claim, no other claim — not even one differing in a
/// single field such as an amount off by one — can pass signature
/// verification with it, whatever key and signature are asked for.
/// Message injectivity turns a different payload into a different
/// message, and the verifier accepts only the exact bound message.
pub proof fn lemma_claim_signature_binding(
    instructions: Seq<Instruction>,
    program_id: Seq<u8>,
    authorized: ClaimPayload,
    other: ClaimPayload,
    signature: Seq<u8>,
    pubkey: Seq<u8>,
)
    requires
        program_id.len() == 32,
        forall|i: int|
            0 <= i < instructions.len() ==> (crate::ed25519::spec_parse_ed25519_single(
                #[trigger] instructions[i].data@,
            ) matches Some(t) ==> t.2 == spec_claim_message(program_id, authorized)),
        other != authorized,
    ensures
        !spec_signature_verified(
            instructions,
            spec_claim_message(program_id, other),
            signature,
            pubkey,
        ),
{
    if spec_claim_message(program_id, other) == spec_claim_message(program_id, authorized) {
        crate::message::lemma_claim_message_injective(program_id, other, program_id, authorized);
    }
    crate::ed25519::lemma_signature_binding(
        instructions,
        spec_claim_message(program_id, authorized),
        spec_claim_message(program_id, other),
        signature,
        pubkey,
    );
}

} // verus!
