//! Persistent records: the singleton token policy and the per-user claim
//! state, plus the plain-value picture of an on-ledger token account.
//!
//! The host's persistent account store owns the bytes; operations load a
//! record, pass it here explicitly, and write it back.  Nothing in this
//! crate is hidden global state.
use vstd::prelude::*;

use crate::keys::Pubkey;
use crate::keys::spec_zero_key;

verus! {

/// Shortest claim period the policy accepts, in seconds.
pub const CLAIM_PERIOD_MIN_SECONDS: i64 = 30;

/// Longest claim period the policy accepts: one year in seconds.
pub const CLAIM_PERIOD_MAX_SECONDS: i64 = 31536000;

/// Whether a claim period lies in the range the policy accepts.
pub open spec fn spec_claim_period_ok(claim_period_seconds: i64) -> bool {
    CLAIM_PERIOD_MIN_SECONDS <= claim_period_seconds <= CLAIM_PERIOD_MAX_SECONDS
}

/// The singleton policy record of one deployed program instance.
///
/// `token_mint` and `treasury_account` hold the all-zero key until they
/// are set.  `transfers_permanently_enabled` is a one-way latch: no
/// operation ever clears it.  `token_name` and `token_symbol` hold the
/// token's UTF-8 metadata text as plain bytes.
#[derive(Clone, Debug)]
pub struct TokenState {
    pub admin: Pubkey,
    pub token_mint: Pubkey,
    pub treasury_account: Pubkey,
    pub upgrade_authority: Pubkey,
    pub is_initialized: bool,
    pub transfers_enabled: bool,
    pub transfers_permanently_enabled: bool,
    pub transfer_enable_timestamp: i64,
    pub claim_period_seconds: i64,
    pub time_lock_enabled: bool,
    pub upgradeable: bool,
    pub token_name: Vec<u8>,
    pub token_symbol: Vec<u8>,
    pub decimals: u8,
    pub bump: u8,
}

impl TokenState {
    /// Whether the policy's mint identity has been set.
    pub open spec fn spec_mint_configured(&self) -> bool {
        self.token_mint@ != spec_zero_key()
    }
}

/// The per-user claim record: created once, mutated exclusively by a
/// successful claim, never deleted.
///
/// `nonce` starts at 0 and increases by exactly 1 per successful claim;
/// `last_claim_timestamp` 0 means never claimed; `total_claims` counts
/// successful claims and always equals `nonce`.
#[derive(Clone, Copy, Debug)]
pub struct UserData {
    pub user: Pubkey,
    pub nonce: u64,
    pub last_claim_timestamp: i64,
    pub next_allowed_claim_time: i64,
    pub total_claims: u64,
    pub bump: u8,
}

/// What the claim and transfer logic reads of an on-ledger token
/// account, as plain values: its address, the mint it belongs to, the
/// identity that owns it, and its balance in base units.  The token
/// ledger itself remains external; callers snapshot these fields from it.
#[derive(Clone, Copy, Debug)]
pub struct TokenAccountInfo {
    pub key: Pubkey,
    pub mint: Pubkey,
    pub owner: Pubkey,
    pub amount: u64,
}

} // verus!
