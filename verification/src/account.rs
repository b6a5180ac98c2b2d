//! Account identities.
//!
//! An account is an opaque reference to a party on the hosting ledger. The
//! module models it by the canonical byte serialization of that reference:
//! two identities are the same party exactly when their bytes are equal. The
//! boundary that talks to the ledger converts its own address values to and
//! from these bytes.

use vstd::prelude::*;

verus! {

use vstd::std_specs::cmp::PartialEqSpec;

/// An opaque account identity, carried as its canonical byte serialization.
#[derive(Debug)]
pub struct AccountId {
    pub bytes: Vec<u8>,
}

impl View for AccountId {
    type V = Seq<u8>;

    open spec fn view(&self) -> Seq<u8> {
        self.bytes@
    }
}

impl AccountId {
    /// Wraps the canonical bytes of an account reference.
    pub fn new(bytes: Vec<u8>) -> (r: AccountId)
        ensures
            r@ == bytes@,
    {
        AccountId { bytes }
    }
}

impl PartialEq for AccountId {
    fn eq(&self, other: &Self) -> (r: bool) {
        let r = self.bytes == other.bytes;
        proof {
            if r {
                assert(self.bytes@ =~= other.bytes@);
            } else {
                if self.bytes@ == other.bytes@ {
                    assert(self.bytes.eq_spec(&other.bytes));
                }
            }
        }
        r
    }
}

impl Eq for AccountId {}

impl vstd::std_specs::cmp::PartialEqSpecImpl for AccountId {
    open spec fn obeys_eq_spec() -> bool {
        true
    }

    open spec fn eq_spec(&self, other: &Self) -> bool {
        self.bytes@ == other.bytes@
    }
}

impl Clone for AccountId {
    fn clone(&self) -> (r: Self)
        ensures
            r@ == self@,
    {
        let mut bytes: Vec<u8> = Vec::new();
        let mut i: usize = 0;
        while i < self.bytes.len()
            invariant
                i <= self.bytes.len(),
                bytes@ == self.bytes@.subrange(0, i as int),
            decreases self.bytes.len() - i,
        {
            bytes.push(self.bytes[i]);
            proof {
                assert(bytes@ =~= self.bytes@.subrange(0, i + 1));
            }
            i = i + 1;
        }
        proof {
            assert(bytes@ =~= self.bytes@);
        }
        AccountId { bytes }
    }
}

} // verus!
