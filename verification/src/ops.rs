//! Named operations on the policy and user records.
//!
//! Each operation takes the loaded records and the caller's identity as
//! explicit plain values, checks its preconditions in a fixed order, and
//! either mutates the record and reports the ledger work left to the
//! host, or returns the one error code naming the first failed check.
//! On an error no record is changed: the host discards all state from a
//! failed transaction, and these functions mirror that by never mutating
//! before the last check has passed.
//!
//! Checks modelled here are those over the records and plain arguments:
//! caller identities against stored keys, account snapshots against the
//! policy, amounts, flags and times.  Account-derivation mechanics (seed
//! derivation, rent, the mint's on-ledger authority) belong to the host
//! and stay outside.
use vstd::prelude::*;

use crate::errors::MercleError;
use crate::keys::Pubkey;
use crate::keys::key_eq;
use crate::keys::key_is_zero;
use crate::keys::spec_zero_key;
use crate::keys::zero_key;
use crate::state::CLAIM_PERIOD_MAX_SECONDS;
use crate::state::CLAIM_PERIOD_MIN_SECONDS;
use crate::state::TokenAccountInfo;
use crate::state::TokenState;
use crate::state::UserData;
use crate::state::spec_claim_period_ok;

verus! {

/// Creates the policy record, once per deployed program instance.
/// Rejects a claim period outside the accepted range; otherwise the
/// record starts with no mint, no treasury, and transfers disabled.
pub fn initialize(
    admin: Pubkey,
    upgrade_authority: Pubkey,
    claim_period_seconds: i64,
    time_lock_enabled: bool,
    upgradeable: bool,
) -> (r: Result<TokenState, MercleError>)
    ensures
        r is Ok <==> spec_claim_period_ok(claim_period_seconds),
        r is Err ==> r == Err::<TokenState, MercleError>(MercleError::InvalidClaimPeriod),
        r matches Ok(s) ==> s.admin@ == admin@ && s.upgrade_authority@ == upgrade_authority@
            && s.is_initialized && s.token_mint@ == spec_zero_key() && s.treasury_account@
            == spec_zero_key() && !s.transfers_enabled && !s.transfers_permanently_enabled
            && s.transfer_enable_timestamp == 0 && s.claim_period_seconds == claim_period_seconds
            && s.time_lock_enabled == time_lock_enabled && s.upgradeable == upgradeable
            && s.token_name@.len() == 0 && s.token_symbol@.len() == 0 && s.decimals == 0 && s.bump
            == 0,
{
    if !(claim_period_seconds >= CLAIM_PERIOD_MIN_SECONDS && claim_period_seconds
        <= CLAIM_PERIOD_MAX_SECONDS) {
        return Err(MercleError::InvalidClaimPeriod);
    }
    Ok(
        TokenState {
            admin,
            token_mint: zero_key(),
            treasury_account: zero_key(),
            upgrade_authority,
            is_initialized: true,
            transfers_enabled: false,
            transfers_permanently_enabled: false,
            transfer_enable_timestamp: 0,
            claim_period_seconds,
            time_lock_enabled,
            upgradeable,
            token_name: Vec::new(),
            token_symbol: Vec::new(),
            decimals: 0,
            bump: 0,
        },
    )
}

/// Creates a user's claim record, once per user: nonce, times and claim
/// count all start at zero.
pub fn initialize_user_data(user: Pubkey, bump: u8) -> (d: UserData)
    ensures
        d.user@ == user@,
        d.nonce == 0,
        d.last_claim_timestamp == 0,
        d.next_allowed_claim_time == 0,
        d.total_claims == 0,
        d.bump == bump,
{
    UserData { user, nonce: 0, last_claim_timestamp: 0, next_allowed_claim_time: 0, total_claims: 0, bump }
}

/// Admin-only: disables transfers, unless the permanent latch is set.
pub fn pause_transfers(state: &mut TokenState, caller: &Pubkey) -> (r: Result<(), MercleError>)
    ensures
        caller@ != old(state).admin@ ==> r == Err::<(), MercleError>(
            MercleError::UnauthorizedAdmin,
        ) && *final(state) == *old(state),
        caller@ == old(state).admin@ && old(state).transfers_permanently_enabled ==> r == Err::<
            (),
            MercleError,
        >(MercleError::TransfersPermanentlyEnabled) && *final(state) == *old(state),
        r is Ok <==> caller@ == old(state).admin@ && !old(state).transfers_permanently_enabled,
        r is Ok ==> *final(state) == (TokenState { transfers_enabled: false, ..*old(state) }),
{
    if !key_eq(caller, &state.admin) {
        return Err(MercleError::UnauthorizedAdmin);
    }
    if state.transfers_permanently_enabled {
        return Err(MercleError::TransfersPermanentlyEnabled);
    }
    state.transfers_enabled = false;
    Ok(())
}

/// Admin-only: enables transfers and records when, without latching.
pub fn resume_transfers(state: &mut TokenState, caller: &Pubkey, now: i64) -> (r: Result<
    (),
    MercleError,
>)
    ensures
        caller@ != old(state).admin@ ==> r == Err::<(), MercleError>(
            MercleError::UnauthorizedAdmin,
        ) && *final(state) == *old(state),
        r is Ok <==> caller@ == old(state).admin@,
        r is Ok ==> *final(state) == (TokenState {
            transfers_enabled: true,
            transfer_enable_timestamp: now,
            ..*old(state)
        }),
{
    if !key_eq(caller, &state.admin) {
        return Err(MercleError::UnauthorizedAdmin);
    }
    state.transfers_enabled = true;
    state.transfer_enable_timestamp = now;
    Ok(())
}

/// Admin-only: enables transfers and sets the one-way permanent latch.
pub fn permanently_enable_transfers(state: &mut TokenState, caller: &Pubkey, now: i64) -> (r:
    Result<(), MercleError>)
    ensures
        caller@ != old(state).admin@ ==> r == Err::<(), MercleError>(
            MercleError::UnauthorizedAdmin,
        ) && *final(state) == *old(state),
        r is Ok <==> caller@ == old(state).admin@,
        r is Ok ==> *final(state) == (TokenState {
            transfers_enabled: true,
            transfers_permanently_enabled: true,
            transfer_enable_timestamp: now,
            ..*old(state)
        }),
{
    if !key_eq(caller, &state.admin) {
        return Err(MercleError::UnauthorizedAdmin);
    }
    state.transfers_enabled = true;
    state.transfers_permanently_enabled = true;
    state.transfer_enable_timestamp = now;
    Ok(())
}

/// Admin-only: enables transfers permanently, but only once; asking
/// again after the latch is set is an error.
pub fn enable_transfers(state: &mut TokenState, caller: &Pubkey, now: i64) -> (r: Result<
    (),
    MercleError,
>)
    ensures
        caller@ != old(state).admin@ ==> r == Err::<(), MercleError>(
            MercleError::UnauthorizedAdmin,
        ) && *final(state) == *old(state),
        caller@ == old(state).admin@ && old(state).transfers_permanently_enabled ==> r == Err::<
            (),
            MercleError,
        >(MercleError::TransfersAlreadyPermanentlyEnabled) && *final(state) == *old(state),
        r is Ok <==> caller@ == old(state).admin@ && !old(state).transfers_permanently_enabled,
        r is Ok ==> *final(state) == (TokenState {
            transfers_enabled: true,
            transfers_permanently_enabled: true,
            transfer_enable_timestamp: now,
            ..*old(state)
        }),
{
    if !key_eq(caller, &state.admin) {
        return Err(MercleError::UnauthorizedAdmin);
    }
    if state.transfers_permanently_enabled {
        return Err(MercleError::TransfersAlreadyPermanentlyEnabled);
    }
    state.transfers_enabled = true;
    state.transfers_permanently_enabled = true;
    state.transfer_enable_timestamp = now;
    Ok(())
}

/// Admin-only: replaces the claim period and the time-lock flag, with
/// the same range check as at initialization.
pub fn update_time_lock(
    state: &mut TokenState,
    caller: &Pubkey,
    claim_period_seconds: i64,
    time_lock_enabled: bool,
) -> (r: Result<(), MercleError>)
    ensures
        caller@ != old(state).admin@ ==> r == Err::<(), MercleError>(
            MercleError::UnauthorizedAdmin,
        ) && *final(state) == *old(state),
        caller@ == old(state).admin@ && !spec_claim_period_ok(claim_period_seconds) ==> r == Err::<
            (),
            MercleError,
        >(MercleError::InvalidClaimPeriod) && *final(state) == *old(state),
        r is Ok <==> caller@ == old(state).admin@ && spec_claim_period_ok(claim_period_seconds),
        r is Ok ==> *final(state) == (TokenState {
            claim_period_seconds,
            time_lock_enabled,
            ..*old(state)
        }),
{
    if !key_eq(caller, &state.admin) {
        return Err(MercleError::UnauthorizedAdmin);
    }
    if !(claim_period_seconds >= CLAIM_PERIOD_MIN_SECONDS && claim_period_seconds
        <= CLAIM_PERIOD_MAX_SECONDS) {
        return Err(MercleError::InvalidClaimPeriod);
    }
    state.claim_period_seconds = claim_period_seconds;
    state.time_lock_enabled = time_lock_enabled;
    Ok(())
}

/// Upgrade-authority-only: hands the upgrade authority to a new key, or
/// removes it for good, which also clears the upgradeable flag.
pub fn set_upgrade_authority(
    state: &mut TokenState,
    caller: &Pubkey,
    new_upgrade_authority: Option<Pubkey>,
) -> (r: Result<(), MercleError>)
    ensures
        caller@ != old(state).upgrade_authority@ ==> r == Err::<(), MercleError>(
            MercleError::UnauthorizedUpgradeAuthority,
        ) && *final(state) == *old(state),
        r is Ok <==> caller@ == old(state).upgrade_authority@,
        (r is Ok && new_upgrade_authority is Some) ==> *final(state) == (TokenState {
            upgrade_authority: new_upgrade_authority.unwrap(),
            ..*old(state)
        }),
        r is Ok && new_upgrade_authority is None ==> final(state).upgrade_authority@
            == spec_zero_key() && !final(state).upgradeable && *final(state) == (TokenState {
            upgrade_authority: final(state).upgrade_authority,
            upgradeable: false,
            ..*old(state)
        }),
{
    if !key_eq(caller, &state.upgrade_authority) {
        return Err(MercleError::UnauthorizedUpgradeAuthority);
    }
    match new_upgrade_authority {
        Some(new_auth) => {
            state.upgrade_authority = new_auth;
        },
        None => {
            state.upgrade_authority = zero_key();
            state.upgradeable = false;
        },
    }
    Ok(())
}

/// Upgrade-authority-only: accepts an upgrade request when the host's
/// program-data account is present (not the all-zero key).
pub fn validate_upgrade(state: &TokenState, caller: &Pubkey, program_data: &Pubkey) -> (r: Result<
    (),
    MercleError,
>)
    ensures
        caller@ != state.upgrade_authority@ ==> r == Err::<(), MercleError>(
            MercleError::UnauthorizedUpgradeAuthority,
        ),
        caller@ == state.upgrade_authority@ && program_data@ == spec_zero_key() ==> r == Err::<
            (),
            MercleError,
        >(MercleError::InvalidProgramData),
        r is Ok <==> caller@ == state.upgrade_authority@ && program_data@ != spec_zero_key(),
{
    if !key_eq(caller, &state.upgrade_authority) {
        return Err(MercleError::UnauthorizedUpgradeAuthority);
    }
    if key_is_zero(program_data) {
        return Err(MercleError::InvalidProgramData);
    }
    Ok(())
}

/// Admin-only: records the treasury token account's identity in the
/// policy.  The host creates the account itself (an associated token
/// account owned by the policy) before this records its key.
pub fn create_treasury(
    state: &mut TokenState,
    caller: &Pubkey,
    mint: &Pubkey,
    treasury_account_key: &Pubkey,
) -> (r: Result<(), MercleError>)
    ensures
        mint@ != old(state).token_mint@ ==> r == Err::<(), MercleError>(
            MercleError::InvalidTokenMint,
        ) && *final(state) == *old(state),
        mint@ == old(state).token_mint@ && caller@ != old(state).admin@ ==> r == Err::<
            (),
            MercleError,
        >(MercleError::UnauthorizedAdmin) && *final(state) == *old(state),
        r is Ok <==> mint@ == old(state).token_mint@ && caller@ == old(state).admin@,
        r is Ok ==> *final(state) == (TokenState {
            treasury_account: *treasury_account_key,
            ..*old(state)
        }),
{
    if !key_eq(mint, &state.token_mint) {
        return Err(MercleError::InvalidTokenMint);
    }
    if !key_eq(caller, &state.admin) {
        return Err(MercleError::UnauthorizedAdmin);
    }
    state.treasury_account = *treasury_account_key;
    Ok(())
}

/// Records a freshly created mint in the policy, with the token's
/// metadata text; transfers start disabled for the new token.  The host
/// creates the mint itself, with the policy record as freeze authority.
pub fn create_token_mint(
    state: &mut TokenState,
    mint: &Pubkey,
    decimals: u8,
    name: Vec<u8>,
    symbol: Vec<u8>,
) -> (r: Result<(), MercleError>)
    ensures
        r is Ok,
        *final(state) == (TokenState {
            token_mint: *mint,
            token_name: final(state).token_name,
            token_symbol: final(state).token_symbol,
            decimals,
            transfers_enabled: false,
            ..*old(state)
        }),
        final(state).token_name@ == name@,
        final(state).token_symbol@ == symbol@,
{
    state.token_mint = *mint;
    state.token_name = name;
    state.token_symbol = symbol;
    state.decimals = decimals;
    state.transfers_enabled = false;
    Ok(())
}

/// Points the policy at a different mint, replacing the token's metadata
/// text and clearing the recorded treasury, which belonged to the old
/// mint.  The host checks that the new mint's authority is the policy
/// record before calling.
pub fn update_token_mint(
    state: &mut TokenState,
    mint: &Pubkey,
    decimals: u8,
    name: Vec<u8>,
    symbol: Vec<u8>,
) -> (r: Result<(), MercleError>)
    ensures
        r is Ok,
        *final(state) == (TokenState {
            token_mint: *mint,
            token_name: final(state).token_name,
            token_symbol: final(state).token_symbol,
            decimals,
            treasury_account: final(state).treasury_account,
            ..*old(state)
        }),
        final(state).token_name@ == name@,
        final(state).token_symbol@ == symbol@,
        final(state).treasury_account@ == spec_zero_key(),
{
    state.token_mint = *mint;
    state.token_name = name;
    state.token_symbol = symbol;
    state.decimals = decimals;
    state.treasury_account = zero_key();
    Ok(())
}

/// Admin-only direct mint: admits minting `amount` base units to a token
/// account of the policy's mint; the host then mints and immediately
/// freezes the destination, keeping the tokens non-transferable.
pub fn mint_tokens(
    state: &TokenState,
    caller: &Pubkey,
    mint: &Pubkey,
    user_token_account: &TokenAccountInfo,
    amount: u64,
) -> (r: Result<(), MercleError>)
    ensures
        mint@ != state.token_mint@ ==> r == Err::<(), MercleError>(MercleError::InvalidTokenMint),
        mint@ == state.token_mint@ && user_token_account.mint@ != state.token_mint@ ==> r == Err::<
            (),
            MercleError,
        >(MercleError::InvalidTokenAccount),
        mint@ == state.token_mint@ && user_token_account.mint@ == state.token_mint@ && caller@
            != state.admin@ ==> r == Err::<(), MercleError>(MercleError::UnauthorizedAdmin),
        mint@ == state.token_mint@ && user_token_account.mint@ == state.token_mint@ && caller@
            == state.admin@ && amount == 0 ==> r == Err::<(), MercleError>(
            MercleError::InvalidMintAmount,
        ),
        r is Ok <==> mint@ == state.token_mint@ && user_token_account.mint@ == state.token_mint@
            && caller@ == state.admin@ && amount > 0,
{
    if !key_eq(mint, &state.token_mint) {
        return Err(MercleError::InvalidTokenMint);
    }
    if !key_eq(&user_token_account.mint, &state.token_mint) {
        return Err(MercleError::InvalidTokenAccount);
    }
    if !key_eq(caller, &state.admin) {
        return Err(MercleError::UnauthorizedAdmin);
    }
    if amount == 0 {
        return Err(MercleError::InvalidMintAmount);
    }
    Ok(())
}

/// Admin-only: admits freezing a token account of the policy's mint; the
/// host performs the freeze with the policy record as authority.
pub fn freeze_token_account(
    state: &TokenState,
    caller: &Pubkey,
    mint: &Pubkey,
    token_account: &TokenAccountInfo,
) -> (r: Result<(), MercleError>)
    ensures
        mint@ != state.token_mint@ ==> r == Err::<(), MercleError>(MercleError::InvalidTokenMint),
        mint@ == state.token_mint@ && token_account.mint@ != state.token_mint@ ==> r == Err::<
            (),
            MercleError,
        >(MercleError::InvalidTokenAccount),
        mint@ == state.token_mint@ && token_account.mint@ == state.token_mint@ && caller@
            != state.admin@ ==> r == Err::<(), MercleError>(MercleError::UnauthorizedAdmin),
        r is Ok <==> mint@ == state.token_mint@ && token_account.mint@ == state.token_mint@
            && caller@ == state.admin@,
{
    if !key_eq(mint, &state.token_mint) {
        return Err(MercleError::InvalidTokenMint);
    }
    if !key_eq(&token_account.mint, &state.token_mint) {
        return Err(MercleError::InvalidTokenAccount);
    }
    if !key_eq(caller, &state.admin) {
        return Err(MercleError::UnauthorizedAdmin);
    }
    Ok(())
}

/// Admin-only: admits thawing a token account of the policy's mint; the
/// host performs the thaw with the policy record as authority.
pub fn unfreeze_token_account(
    state: &TokenState,
    caller: &Pubkey,
    mint: &Pubkey,
    token_account: &TokenAccountInfo,
) -> (r: Result<(), MercleError>)
    ensures
        mint@ != state.token_mint@ ==> r == Err::<(), MercleError>(MercleError::InvalidTokenMint),
        mint@ == state.token_mint@ && token_account.mint@ != state.token_mint@ ==> r == Err::<
            (),
            MercleError,
        >(MercleError::InvalidTokenAccount),
        mint@ == state.token_mint@ && token_account.mint@ == state.token_mint@ && caller@
            != state.admin@ ==> r == Err::<(), MercleError>(MercleError::UnauthorizedAdmin),
        r is Ok <==> mint@ == state.token_mint@ && token_account.mint@ == state.token_mint@
            && caller@ == state.admin@,
{
    if !key_eq(mint, &state.token_mint) {
        return Err(MercleError::InvalidTokenMint);
    }
    if !key_eq(&token_account.mint, &state.token_mint) {
        return Err(MercleError::InvalidTokenAccount);
    }
    if !key_eq(caller, &state.admin) {
        return Err(MercleError::UnauthorizedAdmin);
    }
    Ok(())
}

/// Burns from a user's account: the admin authorizes the operation and
/// the account's owner signs it; the balance must cover the amount.
pub fn burn_tokens(
    state: &TokenState,
    caller: &Pubkey,
    user_authority: &Pubkey,
    mint: &Pubkey,
    user_token_account: &TokenAccountInfo,
    amount: u64,
) -> (r: Result<(), MercleError>)
    ensures
        mint@ != state.token_mint@ ==> r == Err::<(), MercleError>(MercleError::InvalidTokenMint),
        mint@ == state.token_mint@ && user_token_account.mint@ != state.token_mint@ ==> r == Err::<
            (),
            MercleError,
        >(MercleError::InvalidTokenAccount),
        mint@ == state.token_mint@ && user_token_account.mint@ == state.token_mint@ && caller@
            != state.admin@ ==> r == Err::<(), MercleError>(MercleError::UnauthorizedAdmin),
        mint@ == state.token_mint@ && user_token_account.mint@ == state.token_mint@ && caller@
            == state.admin@ && user_authority@ != user_token_account.owner@ ==> r == Err::<
            (),
            MercleError,
        >(MercleError::UnauthorizedBurn),
        mint@ == state.token_mint@ && user_token_account.mint@ == state.token_mint@ && caller@
            == state.admin@ && user_authority@ == user_token_account.owner@ && amount == 0 ==> r
            == Err::<(), MercleError>(MercleError::InvalidBurnAmount),
        mint@ == state.token_mint@ && user_token_account.mint@ == state.token_mint@ && caller@
            == state.admin@ && user_authority@ == user_token_account.owner@ && amount > 0
            && user_token_account.amount < amount ==> r == Err::<(), MercleError>(
            MercleError::InsufficientBalance,
        ),
        r is Ok <==> mint@ == state.token_mint@ && user_token_account.mint@ == state.token_mint@
            && caller@ == state.admin@ && user_authority@ == user_token_account.owner@ && amount
            > 0 && user_token_account.amount >= amount,
{
    if !key_eq(mint, &state.token_mint) {
        return Err(MercleError::InvalidTokenMint);
    }
    if !key_eq(&user_token_account.mint, &state.token_mint) {
        return Err(MercleError::InvalidTokenAccount);
    }
    if !key_eq(caller, &state.admin) {
        return Err(MercleError::UnauthorizedAdmin);
    }
    if !key_eq(user_authority, &user_token_account.owner) {
        return Err(MercleError::UnauthorizedBurn);
    }
    if amount == 0 {
        return Err(MercleError::InvalidBurnAmount);
    }
    if user_token_account.amount < amount {
        return Err(MercleError::InsufficientBalance);
    }
    Ok(())
}

/// Owner-initiated thaw: once transfers are permanently enabled, the
/// owner of a frozen account of the policy's mint may have it thawed.
pub fn unfreeze_account(
    state: &TokenState,
    user: &Pubkey,
    mint: &Pubkey,
    user_token_account: &TokenAccountInfo,
) -> (r: Result<(), MercleError>)
    ensures
        mint@ != state.token_mint@ ==> r == Err::<(), MercleError>(MercleError::InvalidTokenMint),
        mint@ == state.token_mint@ && user_token_account.mint@ != state.token_mint@ ==> r == Err::<
            (),
            MercleError,
        >(MercleError::InvalidTokenAccount),
        mint@ == state.token_mint@ && user_token_account.mint@ == state.token_mint@ && user@
            != user_token_account.owner@ ==> r == Err::<(), MercleError>(
            MercleError::UnauthorizedUnfreeze,
        ),
        mint@ == state.token_mint@ && user_token_account.mint@ == state.token_mint@ && user@
            == user_token_account.owner@ && !state.transfers_permanently_enabled ==> r == Err::<
            (),
            MercleError,
        >(MercleError::TransfersNotPermanentlyEnabled),
        r is Ok <==> mint@ == state.token_mint@ && user_token_account.mint@ == state.token_mint@
            && user@ == user_token_account.owner@ && state.transfers_permanently_enabled,
{
    if !key_eq(mint, &state.token_mint) {
        return Err(MercleError::InvalidTokenMint);
    }
    if !key_eq(&user_token_account.mint, &state.token_mint) {
        return Err(MercleError::InvalidTokenAccount);
    }
    if !key_eq(user, &user_token_account.owner) {
        return Err(MercleError::UnauthorizedUnfreeze);
    }
    if !state.transfers_permanently_enabled {
        return Err(MercleError::TransfersNotPermanentlyEnabled);
    }
    Ok(())
}

/// Owner-signed transfer between two accounts of the policy's mint,
/// admitted only while transfers are enabled and the balance covers the
/// amount; the host moves the tokens.
pub fn transfer_tokens(
    state: &TokenState,
    from_authority: &Pubkey,
    mint: &Pubkey,
    from_token_account: &TokenAccountInfo,
    to_token_account: &TokenAccountInfo,
    amount: u64,
) -> (r: Result<(), MercleError>)
    ensures
        mint@ != state.token_mint@ ==> r == Err::<(), MercleError>(MercleError::InvalidTokenMint),
        mint@ == state.token_mint@ && from_token_account.mint@ != state.token_mint@ ==> r == Err::<
            (),
            MercleError,
        >(MercleError::InvalidTokenAccount),
        mint@ == state.token_mint@ && from_token_account.mint@ == state.token_mint@
            && to_token_account.mint@ != state.token_mint@ ==> r == Err::<(), MercleError>(
            MercleError::InvalidTokenAccount,
        ),
        mint@ == state.token_mint@ && from_token_account.mint@ == state.token_mint@
            && to_token_account.mint@ == state.token_mint@ && from_authority@
            != from_token_account.owner@ ==> r == Err::<(), MercleError>(
            MercleError::UnauthorizedTransfer,
        ),
        mint@ == state.token_mint@ && from_token_account.mint@ == state.token_mint@
            && to_token_account.mint@ == state.token_mint@ && from_authority@
            == from_token_account.owner@ && !state.transfers_enabled ==> r == Err::<
            (),
            MercleError,
        >(MercleError::TransfersNotEnabled),
        mint@ == state.token_mint@ && from_token_account.mint@ == state.token_mint@
            && to_token_account.mint@ == state.token_mint@ && from_authority@
            == from_token_account.owner@ && state.transfers_enabled && amount == 0 ==> r == Err::<
            (),
            MercleError,
        >(MercleError::InvalidTransferAmount),
        mint@ == state.token_mint@ && from_token_account.mint@ == state.token_mint@
            && to_token_account.mint@ == state.token_mint@ && from_authority@
            == from_token_account.owner@ && state.transfers_enabled && amount > 0
            && from_token_account.amount < amount ==> r == Err::<(), MercleError>(
            MercleError::InsufficientBalance,
        ),
        r is Ok <==> mint@ == state.token_mint@ && from_token_account.mint@ == state.token_mint@
            && to_token_account.mint@ == state.token_mint@ && from_authority@
            == from_token_account.owner@ && state.transfers_enabled && amount > 0
            && from_token_account.amount >= amount,
{
    if !key_eq(mint, &state.token_mint) {
        return Err(MercleError::InvalidTokenMint);
    }
    if !key_eq(&from_token_account.mint, &state.token_mint) {
        return Err(MercleError::InvalidTokenAccount);
    }
    if !key_eq(&to_token_account.mint, &state.token_mint) {
        return Err(MercleError::InvalidTokenAccount);
    }
    if !key_eq(from_authority, &from_token_account.owner) {
        return Err(MercleError::UnauthorizedTransfer);
    }
    if !state.transfers_enabled {
        return Err(MercleError::TransfersNotEnabled);
    }
    if amount == 0 {
        return Err(MercleError::InvalidTransferAmount);
    }
    if from_token_account.amount < amount {
        return Err(MercleError::InsufficientBalance);
    }
    Ok(())
}

/// Admin-only: admits minting `amount` base units to the recorded
/// treasury account; the host then mints with the policy as authority.
pub fn mint_to_treasury(
    state: &TokenState,
    caller: &Pubkey,
    mint: &Pubkey,
    treasury_account: &TokenAccountInfo,
    amount: u64,
) -> (r: Result<(), MercleError>)
    ensures
        mint@ != state.token_mint@ ==> r == Err::<(), MercleError>(MercleError::InvalidTokenMint),
        mint@ == state.token_mint@ && treasury_account.key@ != state.treasury_account@ ==> r
            == Err::<(), MercleError>(MercleError::InvalidTreasuryAccount),
        mint@ == state.token_mint@ && treasury_account.key@ == state.treasury_account@ && caller@
            != state.admin@ ==> r == Err::<(), MercleError>(MercleError::UnauthorizedAdmin),
        mint@ == state.token_mint@ && treasury_account.key@ == state.treasury_account@ && caller@
            == state.admin@ && amount == 0 ==> r == Err::<(), MercleError>(
            MercleError::InvalidMintAmount,
        ),
        r is Ok <==> mint@ == state.token_mint@ && treasury_account.key@
            == state.treasury_account@ && caller@ == state.admin@ && amount > 0,
{
    if !key_eq(mint, &state.token_mint) {
        return Err(MercleError::InvalidTokenMint);
    }
    if !key_eq(&treasury_account.key, &state.treasury_account) {
        return Err(MercleError::InvalidTreasuryAccount);
    }
    if !key_eq(caller, &state.admin) {
        return Err(MercleError::UnauthorizedAdmin);
    }
    if amount == 0 {
        return Err(MercleError::InvalidMintAmount);
    }
    Ok(())
}

/// Admin-only: admits burning `amount` base units from the recorded
/// treasury account, whose balance must cover it.
pub fn burn_from_treasury(
    state: &TokenState,
    caller: &Pubkey,
    mint: &Pubkey,
    treasury_account: &TokenAccountInfo,
    amount: u64,
) -> (r: Result<(), MercleError>)
    ensures
        mint@ != state.token_mint@ ==> r == Err::<(), MercleError>(MercleError::InvalidTokenMint),
        mint@ == state.token_mint@ && treasury_account.key@ != state.treasury_account@ ==> r
            == Err::<(), MercleError>(MercleError::InvalidTreasuryAccount),
        mint@ == state.token_mint@ && treasury_account.key@ == state.treasury_account@ && caller@
            != state.admin@ ==> r == Err::<(), MercleError>(MercleError::UnauthorizedAdmin),
        mint@ == state.token_mint@ && treasury_account.key@ == state.treasury_account@ && caller@
            == state.admin@ && amount == 0 ==> r == Err::<(), MercleError>(
            MercleError::InvalidBurnAmount,
        ),
        mint@ == state.token_mint@ && treasury_account.key@ == state.treasury_account@ && caller@
            == state.admin@ && amount > 0 && treasury_account.amount < amount ==> r == Err::<
            (),
            MercleError,
        >(MercleError::InsufficientTreasuryBalance),
        r is Ok <==> mint@ == state.token_mint@ && treasury_account.key@
            == state.treasury_account@ && caller@ == state.admin@ && amount > 0
            && treasury_account.amount >= amount,
{
    if !key_eq(mint, &state.token_mint) {
        return Err(MercleError::InvalidTokenMint);
    }
    if !key_eq(&treasury_account.key, &state.treasury_account) {
        return Err(MercleError::InvalidTreasuryAccount);
    }
    if !key_eq(caller, &state.admin) {
        return Err(MercleError::UnauthorizedAdmin);
    }
    if amount == 0 {
        return Err(MercleError::InvalidBurnAmount);
    }
    if treasury_account.amount < amount {
        return Err(MercleError::InsufficientTreasuryBalance);
    }
    Ok(())
}

/// Admin-only: admits handing the mint's minting authority from the
/// admin to the policy record; the host performs the authority change.
pub fn transfer_mint_authority_to_pda(state: &TokenState, caller: &Pubkey, mint: &Pubkey) -> (r:
    Result<(), MercleError>)
    ensures
        mint@ != state.token_mint@ ==> r == Err::<(), MercleError>(MercleError::InvalidTokenMint),
        mint@ == state.token_mint@ && caller@ != state.admin@ ==> r == Err::<(), MercleError>(
            MercleError::UnauthorizedAdmin,
        ),
        mint@ == state.token_mint@ && caller@ == state.admin@ && !state.is_initialized ==> r
            == Err::<(), MercleError>(MercleError::ContractNotInitialized),
        r is Ok <==> mint@ == state.token_mint@ && caller@ == state.admin@
            && state.is_initialized,
{
    if !key_eq(mint, &state.token_mint) {
        return Err(MercleError::InvalidTokenMint);
    }
    if !key_eq(caller, &state.admin) {
        return Err(MercleError::UnauthorizedAdmin);
    }
    if !state.is_initialized {
        return Err(MercleError::ContractNotInitialized);
    }
    Ok(())
}

/// Admin-only: hands the admin role to a new key.  Requires the policy
/// to have been initialized.
pub fn update_admin(state: &mut TokenState, caller: &Pubkey, new_admin: Pubkey) -> (r: Result<
    (),
    MercleError,
>)
    ensures
        caller@ != old(state).admin@ ==> r == Err::<(), MercleError>(
            MercleError::UnauthorizedAdmin,
        ) && *final(state) == *old(state),
        caller@ == old(state).admin@ && !old(state).is_initialized ==> r == Err::<(), MercleError>(
            MercleError::ContractNotInitialized,
        ) && *final(state) == *old(state),
        r is Ok <==> caller@ == old(state).admin@ && old(state).is_initialized,
        r is Ok ==> *final(state) == (TokenState { admin: new_admin, ..*old(state) }),
{
    if !key_eq(caller, &state.admin) {
        return Err(MercleError::UnauthorizedAdmin);
    }
    if !state.is_initialized {
        return Err(MercleError::ContractNotInitialized);
    }
    state.admin = new_admin;
    Ok(())
}

} // verus!
