//! Admin-gated construction of the token-registry metadata call.
//!
//! Registering the token's name, symbol and URI with the third-party
//! metadata registry is an external call, but the byte layout of that
//! call's argument record is built here: a one-byte instruction
//! discriminator, then each text field length-prefixed with a 32-bit
//! little-endian count, then a zero royalty field and the three empty
//! optional sections, then a mutability flag.  The host sends the bytes.
use vstd::prelude::*;
use vstd::bytes::*;

use crate::errors::MercleError;
use crate::keys::Pubkey;
use crate::keys::key_eq;
use crate::state::TokenState;

verus! {

/// Longest accepted token name, in bytes.
pub const TOKEN_NAME_MAX_BYTES: usize = 32;

/// Longest accepted token symbol, in bytes.
pub const TOKEN_SYMBOL_MAX_BYTES: usize = 16;

/// The instruction discriminator of the registry's create-metadata call.
pub const METADATA_DISCRIMINATOR: u8 = 33;

/// The argument record of the registry's create-metadata call:
/// discriminator, the three length-prefixed text fields, zero royalty
/// basis points, the three empty optional sections, and a set mutability
/// flag.
pub open spec fn spec_metadata_instruction_data(
    name: Seq<u8>,
    symbol: Seq<u8>,
    uri: Seq<u8>,
) -> Seq<u8> {
    seq![METADATA_DISCRIMINATOR] + spec_u32_to_le_bytes(name.len() as u32) + name
        + spec_u32_to_le_bytes(symbol.len() as u32) + symbol + spec_u32_to_le_bytes(
        uri.len() as u32,
    ) + uri + spec_u16_to_le_bytes(0u16) + seq![0u8, 0u8, 0u8, 1u8]
}

/// Serializes the registry call's argument record, byte-exact.
pub fn metadata_instruction_data(name: &[u8], symbol: &[u8], uri: &[u8]) -> (r: Vec<u8>)
    requires
        name@.len() <= u32::MAX,
        symbol@.len() <= u32::MAX,
        uri@.len() <= u32::MAX,
    ensures
        r@ == spec_metadata_instruction_data(name@, symbol@, uri@),
{
    let mut r: Vec<u8> = Vec::new();
    r.push(METADATA_DISCRIMINATOR);
    let mut name_len = u32_to_le_bytes(name.len() as u32);
    r.append(&mut name_len);
    r.extend_from_slice(name);
    let mut symbol_len = u32_to_le_bytes(symbol.len() as u32);
    r.append(&mut symbol_len);
    r.extend_from_slice(symbol);
    let mut uri_len = u32_to_le_bytes(uri.len() as u32);
    r.append(&mut uri_len);
    r.extend_from_slice(uri);
    let mut royalty = u16_to_le_bytes(0u16);
    r.append(&mut royalty);
    r.push(0u8);
    r.push(0u8);
    r.push(0u8);
    r.push(1u8);
    proof {
        assert(r@ =~= spec_metadata_instruction_data(name@, symbol@, uri@));
    }
    r
}

/// Admin-only: checks the metadata request against the policy and the
/// length bounds, and returns the exact argument bytes of the registry
/// call the host must send.
pub fn create_metadata(
    state: &TokenState,
    caller: &Pubkey,
    mint: &Pubkey,
    name: &[u8],
    symbol: &[u8],
    uri: &[u8],
) -> (r: Result<Vec<u8>, MercleError>)
    requires
        uri@.len() <= u32::MAX,
    ensures
        mint@ != state.token_mint@ ==> r == Err::<Vec<u8>, MercleError>(
            MercleError::InvalidTokenMint,
        ),
        mint@ == state.token_mint@ && caller@ != state.admin@ ==> r == Err::<Vec<u8>, MercleError>(
            MercleError::UnauthorizedAdmin,
        ),
        mint@ == state.token_mint@ && caller@ == state.admin@ && !state.is_initialized ==> r
            == Err::<Vec<u8>, MercleError>(MercleError::ContractNotInitialized),
        mint@ == state.token_mint@ && caller@ == state.admin@ && state.is_initialized && name@.len()
            > TOKEN_NAME_MAX_BYTES ==> r == Err::<Vec<u8>, MercleError>(
            MercleError::InvalidTokenNameLength,
        ),
        mint@ == state.token_mint@ && caller@ == state.admin@ && state.is_initialized && name@.len()
            <= TOKEN_NAME_MAX_BYTES && symbol@.len() > TOKEN_SYMBOL_MAX_BYTES ==> r == Err::<
            Vec<u8>,
            MercleError,
        >(MercleError::InvalidTokenSymbolLength),
        r is Ok <==> mint@ == state.token_mint@ && caller@ == state.admin@ && state.is_initialized
            && name@.len() <= TOKEN_NAME_MAX_BYTES && symbol@.len() <= TOKEN_SYMBOL_MAX_BYTES,
        r matches Ok(data) ==> data@ == spec_metadata_instruction_data(name@, symbol@, uri@),
{
    if !key_eq(mint, &state.token_mint) {
        return Err(MercleError::InvalidTokenMint);
    }
    if !key_eq(caller, &state.admin) {
        return Err(MercleError::UnauthorizedAdmin);
    }
    if !state.is_initialized {
        return Err(MercleError::ContractNotInitialized);
    }
    if name.len() > TOKEN_NAME_MAX_BYTES {
        return Err(MercleError::InvalidTokenNameLength);
    }
    if symbol.len() > TOKEN_SYMBOL_MAX_BYTES {
        return Err(MercleError::InvalidTokenSymbolLength);
    }
    Ok(metadata_instruction_data(name, symbol, uri))
}

} // verus!
