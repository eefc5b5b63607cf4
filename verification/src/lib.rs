//! Claim-authorized token issuance core.
//!
//! A fungible token whose minting is gated by a two-party authorization
//! scheme: a backend admin signs a claim payload off-chain, and a user
//! redeems it on-chain, subject to replay protection (exact nonce match),
//! time-locking, expiry, and destination binding.  The host ledger, the
//! token primitives (mint/burn/transfer/freeze) and the transaction
//! introspection service are external collaborators: this crate holds the
//! message construction, the Ed25519 precompile-record parsing and
//! matching, and the stateful admission logic, all over plain values.
use vstd::prelude::*;

pub mod claim;
pub mod ed25519;
pub mod errors;
pub mod keys;
pub mod message;
pub mod metadata;
pub mod ops;
pub mod state;

verus! {

} // verus!
