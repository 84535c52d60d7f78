//! The account model.
//!
//! An account is a host-managed storage unit: an identity-addressed record
//! carrying an owner identity, signer and writable flags, a balance, and a
//! mutable byte buffer. The counter program treats the buffer as a
//! fixed 4-byte little-endian integer store and never resizes it.

use vstd::prelude::*;

verus! {

/// A fixed-size public identifier for a program or an account.
#[derive(Clone, Debug)]
pub struct Pubkey {
    pub bytes: Vec<u8>,
}

impl View for Pubkey {
    type V = Seq<u8>;

    open spec fn view(&self) -> Seq<u8> {
        self.bytes@
    }
}

/// True exactly when the two identifiers hold the same bytes.
pub fn pubkey_eq(a: &Pubkey, b: &Pubkey) -> (r: bool)
    ensures
        r == (a@ == b@),
{
    if a.bytes.len() != b.bytes.len() {
        return false;
    }
    let n: usize = a.bytes.len();
    let mut i: usize = 0;
    while i < n
        invariant
            0 <= i <= n,
            n == a.bytes@.len(),
            n == b.bytes@.len(),
            forall|j: int| 0 <= j < i ==> a.bytes@[j] == b.bytes@[j],
        decreases n - i,
    {
        if a.bytes[i] != b.bytes[i] {
            return false;
        }
        i += 1;
    }
    proof {
        assert(a.bytes@ =~= b.bytes@);
    }
    true
}

/// One account as handed to the program by the host runtime: its address,
/// flags, balance, data buffer and owning program identity.
#[derive(Clone, Debug)]
pub struct Account {
    /// The account's own address.
    pub key: Pubkey,
    /// Whether the account signed the invoking transaction.
    pub is_signer: bool,
    /// Whether the account may be written to.
    pub is_writable: bool,
    /// The account's balance.
    pub lamports: u64,
    /// The account's data buffer; bytes `[0, 4)` hold the counter.
    pub data: Vec<u8>,
    /// The identity of the program that owns the account.
    pub owner: Pubkey,
}

} // verus!
