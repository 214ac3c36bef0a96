use vstd::prelude::*;

verus! {

use vstd::bytes::{spec_u64_to_le_bytes, spec_u64_from_le_bytes, u64_to_le_bytes, u64_from_le_bytes};
use vstd::bytes::lemma_auto_spec_u64_to_from_le_bytes;
use vstd::slice::slice_subrange;

/// A 32-byte ledger address, held as four 64-bit words.  The wire form is the
/// little-endian bytes of `w0`, then `w1`, `w2`, `w3`, 32 bytes in all.
#[derive(Clone, Copy, Debug, PartialEq, Eq, Structural)]
pub struct Address {
    pub w0: u64,
    pub w1: u64,
    pub w2: u64,
    pub w3: u64,
}

/// The address whose 32-byte wire form is `s`.
pub open spec fn spec_address_from_bytes(s: Seq<u8>) -> Address {
    Address {
        w0: spec_u64_from_le_bytes(s.subrange(0, 8)),
        w1: spec_u64_from_le_bytes(s.subrange(8, 16)),
        w2: spec_u64_from_le_bytes(s.subrange(16, 24)),
        w3: spec_u64_from_le_bytes(s.subrange(24, 32)),
    }
}

impl Address {
    /// The 32-byte wire form of this address.
    pub open spec fn bytes(self) -> Seq<u8> {
        spec_u64_to_le_bytes(self.w0) + spec_u64_to_le_bytes(self.w1)
            + spec_u64_to_le_bytes(self.w2) + spec_u64_to_le_bytes(self.w3)
    }

    /// Writing back an address read from 32 bytes yields those bytes.
    pub proof fn lemma_wire_inverse(s: Seq<u8>)
        requires
            s.len() == 32,
        ensures
            spec_address_from_bytes(s).bytes() == s,
    {
        lemma_auto_spec_u64_to_from_le_bytes();
        assert(spec_u64_to_le_bytes(spec_u64_from_le_bytes(s.subrange(0, 8))) == s.subrange(0, 8));
        assert(spec_u64_to_le_bytes(spec_u64_from_le_bytes(s.subrange(8, 16))) == s.subrange(
            8,
            16,
        ));
        assert(spec_u64_to_le_bytes(spec_u64_from_le_bytes(s.subrange(16, 24))) == s.subrange(
            16,
            24,
        ));
        assert(spec_u64_to_le_bytes(spec_u64_from_le_bytes(s.subrange(24, 32))) == s.subrange(
            24,
            32,
        ));
        assert(spec_address_from_bytes(s).bytes() =~= s);
    }

    /// Reading back the wire form of an address yields the address.
    pub proof fn lemma_wire_roundtrip(self)
        ensures
            spec_address_from_bytes(self.bytes()) == self,
    {
        lemma_auto_spec_u64_to_from_le_bytes();
        assert(self.bytes().subrange(0, 8) =~= spec_u64_to_le_bytes(self.w0));
        assert(self.bytes().subrange(8, 16) =~= spec_u64_to_le_bytes(self.w1));
        assert(self.bytes().subrange(16, 24) =~= spec_u64_to_le_bytes(self.w2));
        assert(self.bytes().subrange(24, 32) =~= spec_u64_to_le_bytes(self.w3));
    }

    pub proof fn lemma_bytes_len(self)
        ensures
            self.bytes().len() == 32,
    {
        lemma_auto_spec_u64_to_from_le_bytes();
    }

    /// Two addresses are equal exactly when their wire forms are equal.
    pub proof fn lemma_bytes_injective(a: Address, b: Address)
        ensures
            a.bytes() == b.bytes() <==> a == b,
    {
        lemma_auto_spec_u64_to_from_le_bytes();
        if a.bytes() == b.bytes() {
            assert(spec_u64_to_le_bytes(a.w0) =~= a.bytes().subrange(0, 8));
            assert(spec_u64_to_le_bytes(a.w1) =~= a.bytes().subrange(8, 16));
            assert(spec_u64_to_le_bytes(a.w2) =~= a.bytes().subrange(16, 24));
            assert(spec_u64_to_le_bytes(a.w3) =~= a.bytes().subrange(24, 32));
            assert(spec_u64_to_le_bytes(b.w0) =~= b.bytes().subrange(0, 8));
            assert(spec_u64_to_le_bytes(b.w1) =~= b.bytes().subrange(8, 16));
            assert(spec_u64_to_le_bytes(b.w2) =~= b.bytes().subrange(16, 24));
            assert(spec_u64_to_le_bytes(b.w3) =~= b.bytes().subrange(24, 32));
            assert(a.w0 == spec_u64_from_le_bytes(spec_u64_to_le_bytes(a.w0)));
            assert(a.w1 == spec_u64_from_le_bytes(spec_u64_to_le_bytes(a.w1)));
            assert(a.w2 == spec_u64_from_le_bytes(spec_u64_to_le_bytes(a.w2)));
            assert(a.w3 == spec_u64_from_le_bytes(spec_u64_to_le_bytes(a.w3)));
        }
    }

    /// Reads an address from its 32-byte wire form.
    pub fn from_bytes(s: &[u8]) -> (r: Address)
        requires
            s@.len() == 32,
        ensures
            r == spec_address_from_bytes(s@),
            r.bytes() == s@,
    {
        proof {
            lemma_auto_spec_u64_to_from_le_bytes();
        }
        let w0 = u64_from_le_bytes(slice_subrange(s, 0, 8));
        let w1 = u64_from_le_bytes(slice_subrange(s, 8, 16));
        let w2 = u64_from_le_bytes(slice_subrange(s, 16, 24));
        let w3 = u64_from_le_bytes(slice_subrange(s, 24, 32));
        let r = Address { w0, w1, w2, w3 };
        proof {
            assert(r.bytes() =~= s@);
        }
        r
    }

    /// Writes the 32-byte wire form of this address.
    pub fn to_vec(&self) -> (r: Vec<u8>)
        ensures
            r@ == self.bytes(),
    {
        let mut r = u64_to_le_bytes(self.w0);
        let mut v1 = u64_to_le_bytes(self.w1);
        let mut v2 = u64_to_le_bytes(self.w2);
        let mut v3 = u64_to_le_bytes(self.w3);
        r.append(&mut v1);
        r.append(&mut v2);
        r.append(&mut v3);
        r
    }
}

} // verus!
