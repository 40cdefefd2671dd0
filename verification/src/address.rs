//! On-chain account addresses, held as four 64-bit little-endian words of
//! their 32-byte value.

use vstd::prelude::*;
use vstd::bytes::{
    spec_u64_from_le_bytes, spec_u64_to_le_bytes, u64_from_le_bytes, u64_to_le_bytes,
};
use vstd::slice::slice_subrange;

verus! {

/// The address whose 32-byte value is `s`.
pub open spec fn address_from_bytes_spec(s: Seq<u8>) -> Address
    recommends
        s.len() == 32,
{
    Address {
        w0: spec_u64_from_le_bytes(s.subrange(0, 8)),
        w1: spec_u64_from_le_bytes(s.subrange(8, 16)),
        w2: spec_u64_from_le_bytes(s.subrange(16, 24)),
        w3: spec_u64_from_le_bytes(s.subrange(24, 32)),
    }
}

/// A 32-byte on-chain address. `w0` holds bytes 0..8 of the address in
/// little-endian order, `w1` bytes 8..16, and so on.
#[derive(Clone, Copy, Debug, PartialEq, Eq, Structural, Hash)]
pub struct Address {
    pub w0: u64,
    pub w1: u64,
    pub w2: u64,
    pub w3: u64,
}

impl Address {
    /// The 32-byte value of this address.
    pub open spec fn bytes_spec(self) -> Seq<u8> {
        spec_u64_to_le_bytes(self.w0) + spec_u64_to_le_bytes(self.w1)
            + spec_u64_to_le_bytes(self.w2) + spec_u64_to_le_bytes(self.w3)
    }

    /// Builds an address from its four little-endian words.
    pub fn from_words(w0: u64, w1: u64, w2: u64, w3: u64) -> (r: Address)
        ensures
            r == (Address { w0, w1, w2, w3 }),
    {
        Address { w0, w1, w2, w3 }
    }

    /// Serializes the address to its 32-byte form.
    pub fn to_bytes(&self) -> (r: Vec<u8>)
        ensures
            r@ == self.bytes_spec(),
            r@.len() == 32,
    {
        proof {
            vstd::bytes::lemma_auto_spec_u64_to_from_le_bytes();
        }
        let mut out: Vec<u8> = Vec::new();
        let mut part = u64_to_le_bytes(self.w0);
        out.append(&mut part);
        let mut part = u64_to_le_bytes(self.w1);
        out.append(&mut part);
        let mut part = u64_to_le_bytes(self.w2);
        out.append(&mut part);
        let mut part = u64_to_le_bytes(self.w3);
        out.append(&mut part);
        out
    }

    /// Reads an address back from its 32-byte form.
    pub fn from_bytes(bytes: &[u8]) -> (r: Option<Address>)
        ensures
            bytes@.len() == 32 ==> r == Some(address_from_bytes_spec(bytes@))
                && r.unwrap().bytes_spec() == bytes@,
            bytes@.len() != 32 ==> r is None,
    {
        if bytes.len() != 32 {
            return None;
        }
        proof {
            vstd::bytes::lemma_auto_spec_u64_to_from_le_bytes();
        }
        let w0 = u64_from_le_bytes(slice_subrange(bytes, 0, 8));
        let w1 = u64_from_le_bytes(slice_subrange(bytes, 8, 16));
        let w2 = u64_from_le_bytes(slice_subrange(bytes, 16, 24));
        let w3 = u64_from_le_bytes(slice_subrange(bytes, 24, 32));
        let r = Address { w0, w1, w2, w3 };
        proof {
            assert(r.bytes_spec() =~= bytes@);
        }
        Some(r)
    }
}

} // verus!
