//! Plain-value pictures of what the ledger holds and of what it is asked to do.

use vstd::prelude::*;

verus! {

/// What an operation reads of one ledger account.
#[derive(Clone, Copy, Debug, PartialEq, Eq)]
pub struct AccountView {
    /// The account's address.
    pub key: [u8; 32],
    /// Whether this account signed the enclosing transaction.
    pub is_signer: bool,
    /// Balance at the moment the operation looks at it.
    pub lamports: u64,
}

/// One entry of the account list handed to another program.
#[derive(Clone, Copy, Debug, PartialEq, Eq)]
pub struct AccountMeta {
    pub pubkey: [u8; 32],
    pub is_signer: bool,
    pub is_writable: bool,
}

/// A request to move `lamports` from one address to another.
#[derive(Clone, Copy, Debug, PartialEq, Eq)]
pub struct Transfer {
    pub from: [u8; 32],
    pub to: [u8; 32],
    pub lamports: u64,
}

/// The address whose bytes are all zero: what a never-written key field holds.
pub open spec fn zero_key() -> [u8; 32] {
    key_of(Seq::new(32, |i: int| 0u8))
}

/// The key whose bytes are `bytes`; meaningful for sequences of length 32.
pub open spec fn key_of(bytes: Seq<u8>) -> [u8; 32] {
    choose|k: [u8; 32]| k@ == bytes
}

/// Two keys with the same bytes are the same key.
pub proof fn lemma_key_by_bytes(a: [u8; 32], b: [u8; 32])
    ensures
        (a@ == b@) == (a == b),
        key_of(a@) == a,
{
    if a@ == b@ {
        assert(a =~= b);
    }
    let k = key_of(a@);
    assert(k@ == a@);
    assert(k =~= a);
}

/// Whether two keys are the same address.
pub fn keys_equal(a: &[u8; 32], b: &[u8; 32]) -> (same: bool)
    ensures
        same == (*a == *b),
{
    let mut i: usize = 0;
    while i < 32
        invariant
            0 <= i <= 32,
            forall|j: int| 0 <= j < i ==> a@[j] == b@[j],
        decreases 32 - i,
    {
        if a[i] != b[i] {
            return false;
        }
        i += 1;
    }
    proof {
        assert(a@ =~= b@);
        lemma_key_by_bytes(*a, *b);
    }
    true
}

/// Whether two byte strings are the same.
pub fn bytes_equal(a: &[u8], b: &[u8]) -> (same: bool)
    ensures
        same == (a@ == b@),
{
    if a.len() != b.len() {
        return false;
    }
    let mut i: usize = 0;
    while i < a.len()
        invariant
            0 <= i <= a@.len(),
            a@.len() == b@.len(),
            forall|j: int| 0 <= j < i ==> a@[j] == b@[j],
        decreases a@.len() - i,
    {
        if a[i] != b[i] {
            return false;
        }
        i += 1;
    }
    proof {
        assert(a@ =~= b@);
    }
    true
}

/// The all-zero address.
pub fn default_key() -> (key: [u8; 32])
    ensures
        key == zero_key(),
{
    let key: [u8; 32] = [0u8; 32];
    proof {
        assert(key@ =~= Seq::new(32, |i: int| 0u8));
        lemma_key_by_bytes(key, zero_key());
    }
    key
}

} // verus!
