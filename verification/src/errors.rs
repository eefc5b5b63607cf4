//! One discriminated error per precondition failure.
//!
//! Every operation either succeeds with the stated effect or aborts with
//! exactly one of these codes; the aborting code is the sole diagnostic.
use vstd::prelude::*;

verus! {

#[derive(Clone, Copy, Debug, PartialEq, Eq, Structural)]
pub enum MercleError {
    UnauthorizedAdmin,
    ContractNotInitialized,
    TokenMintAlreadyCreated,
    InvalidTokenNameLength,
    InvalidTokenSymbolLength,
    TokenMintNotCreated,
    InvalidTokenMint,
    InvalidTokenAccount,
    InvalidMintAmount,
    InvalidUserData,
    InvalidNonce,
    InvalidUserSignature,
    InvalidAdminSignature,
    NonceOverflow,
    NonceNotIncreasing,
    NonceTooHigh,
    ClaimTooSoon,
    ClaimTooFrequent,
    InvalidNonceSequence,
    ClaimCountOverflow,
    InvalidBurnAmount,
    InsufficientBalance,
    TransfersNotEnabled,
    InvalidTransferAmount,
    UnauthorizedTransfer,
    UnauthorizedBurn,
    UnauthorizedUnfreeze,
    UserSignatureNotVerified,
    AdminSignatureNotVerified,
    InvalidEd25519Instruction,
    TreasuryAlreadyCreated,
    TreasuryNotCreated,
    InvalidTreasuryAccount,
    InsufficientTreasuryBalance,
    InvalidClaimPeriod,
    ClaimTimeLocked,
    ClaimPeriodNotElapsed,
    TimestampOverflow,
    UnauthorizedUpgradeAuthority,
    ContractNotUpgradeable,
    InvalidProgramData,
    TransfersAlreadyPermanentlyEnabled,
    TransfersCannotBeDisabled,
    UnauthorizedDestination,
    ClaimExpired,
    InvalidClaimPayload,
    TransfersPaused,
    TransfersPermanentlyEnabled,
    TransfersNotPermanentlyEnabled,
    AlreadyInitialized,
    UnauthorizedDeployer,
}

impl MercleError {
    /// A short diagnostic text for the code, for hosts that log failures.
    pub fn describe(&self) -> (r: &'static str) {
        match self {
            MercleError::UnauthorizedAdmin => "unauthorized admin",
            MercleError::ContractNotInitialized => "contract not initialized",
            MercleError::TokenMintAlreadyCreated => "token mint already created",
            MercleError::InvalidTokenNameLength => "invalid token name length",
            MercleError::InvalidTokenSymbolLength => "invalid token symbol length",
            MercleError::TokenMintNotCreated => "token mint not created",
            MercleError::InvalidTokenMint => "invalid token mint",
            MercleError::InvalidTokenAccount => "invalid token account",
            MercleError::InvalidMintAmount => "invalid mint amount",
            MercleError::InvalidUserData => "invalid user data",
            MercleError::InvalidNonce => "invalid nonce",
            MercleError::InvalidUserSignature => "invalid user signature",
            MercleError::InvalidAdminSignature => "invalid admin signature",
            MercleError::NonceOverflow => "nonce overflow",
            MercleError::NonceNotIncreasing => "nonce not increasing",
            MercleError::NonceTooHigh => "nonce too high",
            MercleError::ClaimTooSoon => "claim too soon",
            MercleError::ClaimTooFrequent => "claim too frequent",
            MercleError::InvalidNonceSequence => "invalid nonce sequence",
            MercleError::ClaimCountOverflow => "claim count overflow",
            MercleError::InvalidBurnAmount => "invalid burn amount",
            MercleError::InsufficientBalance => "insufficient balance",
            MercleError::TransfersNotEnabled => "transfers not enabled",
            MercleError::InvalidTransferAmount => "invalid transfer amount",
            MercleError::UnauthorizedTransfer => "unauthorized transfer",
            MercleError::UnauthorizedBurn => "unauthorized burn",
            MercleError::UnauthorizedUnfreeze => "unauthorized unfreeze",
            MercleError::UserSignatureNotVerified => "user signature not verified",
            MercleError::AdminSignatureNotVerified => "admin signature not verified",
            MercleError::InvalidEd25519Instruction => "invalid ed25519 instruction",
            MercleError::TreasuryAlreadyCreated => "treasury already created",
            MercleError::TreasuryNotCreated => "treasury not created",
            MercleError::InvalidTreasuryAccount => "invalid treasury account",
            MercleError::InsufficientTreasuryBalance => "insufficient treasury balance",
            MercleError::InvalidClaimPeriod => "invalid claim period",
            MercleError::ClaimTimeLocked => "claim time-locked",
            MercleError::ClaimPeriodNotElapsed => "claim period not elapsed",
            MercleError::TimestampOverflow => "timestamp overflow",
            MercleError::UnauthorizedUpgradeAuthority => "unauthorized upgrade authority",
            MercleError::ContractNotUpgradeable => "contract not upgradeable",
            MercleError::InvalidProgramData => "invalid program data",
            MercleError::TransfersAlreadyPermanentlyEnabled => "transfers already permanently enabled",
            MercleError::TransfersCannotBeDisabled => "transfers cannot be disabled",
            MercleError::UnauthorizedDestination => "unauthorized destination",
            MercleError::ClaimExpired => "claim expired",
            MercleError::InvalidClaimPayload => "invalid claim payload",
            MercleError::TransfersPaused => "transfers paused",
            MercleError::TransfersPermanentlyEnabled => "transfers permanently enabled",
            MercleError::TransfersNotPermanentlyEnabled => "transfers not permanently enabled",
            MercleError::AlreadyInitialized => "already initialized",
            MercleError::UnauthorizedDeployer => "unauthorized deployer",
        }
    }
}

} // verus!
