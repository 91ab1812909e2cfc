//! Account identifiers and the keys of the allowance table.

use vstd::prelude::*;

verus! {

/// Number of bytes in an account identifier.
pub const ACCOUNT_BYTES: usize = 32;

/// An opaque, fixed-size account identifier supplied by the host.
/// The ledger only ever compares identifiers; it never interprets them.
#[derive(Clone, Copy, Debug, PartialEq, Eq, Hash)]
pub struct AccountId {
    pub bytes: [u8; 32],
}

impl View for AccountId {
    type V = Seq<u8>;

    open spec fn view(&self) -> Seq<u8> {
        self.bytes@
    }
}

/// A key that can be compared, at run time, by its view.
pub trait Key: View + Sized {
    fn same_key(&self, other: &Self) -> (r: bool)
        ensures
            r == (self@ == other@),
    ;
}

impl AccountId {
    /// The identifier made of the given bytes.
    pub fn from_bytes(bytes: [u8; 32]) -> (r: AccountId)
        ensures
            r@ == bytes@,
    {
        AccountId { bytes }
    }

    /// The bytes of this identifier.
    pub fn to_bytes(&self) -> (r: [u8; 32])
        ensures
            r@ == self@,
    {
        self.bytes
    }
}

impl Key for AccountId {
    fn same_key(&self, other: &Self) -> (r: bool) {
        let mut i: usize = 0;
        while i < ACCOUNT_BYTES
            invariant
                i <= ACCOUNT_BYTES,
                self@.len() == ACCOUNT_BYTES,
                other@.len() == ACCOUNT_BYTES,
                forall|j: int| 0 <= j < i ==> self@[j] == other@[j],
            decreases ACCOUNT_BYTES - i,
        {
            if self.bytes[i] != other.bytes[i] {
                return false;
            }
            i = i + 1;
        }
        assert(self@ =~= other@);
        true
    }
}

/// The key of an allowance: the account whose units are spent, and the
/// account allowed to spend them.
#[derive(Clone, Copy, Debug, PartialEq, Eq, Hash)]
pub struct AllowanceKey {
    pub owner: AccountId,
    pub spender: AccountId,
}

impl View for AllowanceKey {
    type V = (Seq<u8>, Seq<u8>);

    open spec fn view(&self) -> (Seq<u8>, Seq<u8>) {
        (self.owner@, self.spender@)
    }
}

impl Key for AllowanceKey {
    fn same_key(&self, other: &Self) -> (r: bool) {
        self.owner.same_key(&other.owner) && self.spender.same_key(&other.spender)
    }
}

} // verus!
