//! 32-byte identities and byte-string comparison.
//!
//! Every identity on the host ledger (a program, an account, a mint, a
//! signer) is a fixed 32-byte key.  The all-zero key stands for "not set".
use vstd::prelude::*;

verus! {

/// A 32-byte identity on the host ledger.
pub type Pubkey = [u8; 32];

/// The all-zero identity, used by the policy record for "not yet set".
pub open spec fn spec_zero_key() -> Seq<u8> {
    Seq::new(32, |i: int| 0u8)
}

/// Builds the all-zero identity.
pub fn zero_key() -> (k: Pubkey)
    ensures
        k@ == spec_zero_key(),
{
    let k: Pubkey = [0u8; 32];
    proof {
        assert(k@ =~= spec_zero_key());
    }
    k
}

/// Byte-for-byte equality of two byte strings.
pub fn bytes_eq(a: &[u8], b: &[u8]) -> (r: bool)
    ensures
        r == (a@ == b@),
{
    if a.len() != b.len() {
        return false;
    }
    let mut i: usize = 0;
    while i < a.len()
        invariant
            i <= a@.len(),
            a@.len() == b@.len(),
            forall|j: int| 0 <= j < i ==> a@[j] == b@[j],
        decreases a@.len() - i,
    {
        if a[i] != b[i] {
            return false;
        }
        i = i + 1;
    }
    proof {
        assert(a@ =~= b@);
    }
    true
}

/// Byte-for-byte equality of two identities.
pub fn key_eq(a: &Pubkey, b: &Pubkey) -> (r: bool)
    ensures
        r == (a@ == b@),
{
    bytes_eq(a.as_slice(), b.as_slice())
}

/// Whether an identity is the all-zero "not set" value.
pub fn key_is_zero(a: &Pubkey) -> (r: bool)
    ensures
        r == (a@ == spec_zero_key()),
{
    let z = zero_key();
    key_eq(a, &z)
}

} // verus!
