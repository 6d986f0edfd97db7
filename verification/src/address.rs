//! Ledger addresses: 32-byte account keys, held as four 64-bit limbs so
//! that equality and storage stay plain values, with verified conversions
//! to and from the byte form the ledger uses.

use vstd::prelude::*;

verus! {

/// A 32-byte ledger address, held as four 64-bit limbs in little-endian
/// order: `w0` covers bytes 0..8 of the address, `w3` bytes 24..32.
#[derive(Clone, Copy, Debug, PartialEq, Eq, Structural)]
pub struct Address {
    pub w0: u64,
    pub w1: u64,
    pub w2: u64,
    pub w3: u64,
}

/// The eight bytes of `x`, least significant first.
pub open spec fn le8(x: u64) -> Seq<u8> {
    seq![
        (x % 256) as u8,
        ((x / 256) % 256) as u8,
        ((x / 65536) % 256) as u8,
        ((x / 16777216) % 256) as u8,
        ((x / 4294967296) % 256) as u8,
        ((x / 1099511627776) % 256) as u8,
        ((x / 281474976710656) % 256) as u8,
        ((x / 72057594037927936) % 256) as u8,
    ]
}

/// The 64-bit value whose little-endian bytes are `s[at .. at + 8]`.
pub open spec fn limb_from(s: Seq<u8>, at: int) -> u64 {
    ((s[at] as int)
        + (s[at + 1] as int) * 256
        + (s[at + 2] as int) * 65536
        + (s[at + 3] as int) * 16777216
        + (s[at + 4] as int) * 4294967296
        + (s[at + 5] as int) * 1099511627776
        + (s[at + 6] as int) * 281474976710656
        + (s[at + 7] as int) * 72057594037927936) as u64
}

/// The address whose 32 little-endian bytes are `s`.
pub open spec fn address_from_bytes(s: Seq<u8>) -> Address {
    Address {
        w0: limb_from(s, 0),
        w1: limb_from(s, 8),
        w2: limb_from(s, 16),
        w3: limb_from(s, 24),
    }
}

/// Appends the eight little-endian bytes of `x` to `v`.
pub(crate) fn push_le8(v: &mut Vec<u8>, x: u64)
    ensures
        final(v)@ == old(v)@ + le8(x),
{
    v.push((x % 256) as u8);
    v.push(((x / 256) % 256) as u8);
    v.push(((x / 65536) % 256) as u8);
    v.push(((x / 16777216) % 256) as u8);
    v.push(((x / 4294967296) % 256) as u8);
    v.push(((x / 1099511627776) % 256) as u8);
    v.push(((x / 281474976710656) % 256) as u8);
    v.push(((x / 72057594037927936) % 256) as u8);
    proof {
        assert(v@ =~= old(v)@ + le8(x));
    }
}

/// Reads the 64-bit value whose little-endian bytes are `b[at .. at + 8]`.
pub(crate) fn limb_at(b: &Vec<u8>, at: usize) -> (x: u64)
    requires
        at + 8 <= b@.len(),
    ensures
        x == limb_from(b@, at as int),
{
    // Reading the length pins it below usize::MAX for the index sums.
    let _n: usize = b.len();
    (b[at] as u64)
        + (b[at + 1] as u64) * 256
        + (b[at + 2] as u64) * 65536
        + (b[at + 3] as u64) * 16777216
        + (b[at + 4] as u64) * 4294967296
        + (b[at + 5] as u64) * 1099511627776
        + (b[at + 6] as u64) * 281474976710656
        + (b[at + 7] as u64) * 72057594037927936
}

impl Address {
    /// The 32 bytes of the address, least significant limb first.
    pub open spec fn bytes(self) -> Seq<u8> {
        le8(self.w0) + le8(self.w1) + le8(self.w2) + le8(self.w3)
    }

    /// Serialises the address into its 32-byte little-endian form.
    pub fn to_bytes(&self) -> (v: Vec<u8>)
        ensures
            v@ == self.bytes(),
            v@.len() == 32,
    {
        let mut v: Vec<u8> = Vec::new();
        push_le8(&mut v, self.w0);
        push_le8(&mut v, self.w1);
        push_le8(&mut v, self.w2);
        push_le8(&mut v, self.w3);
        proof {
            assert(v@ =~= self.bytes());
        }
        v
    }

    /// Reads an address back from its 32-byte little-endian form.
    pub fn from_bytes(b: &Vec<u8>) -> (a: Address)
        requires
            b@.len() == 32,
        ensures
            a == address_from_bytes(b@),
    {
        let a = Address::read_at(b, 0);
        proof {
            assert(b@.subrange(0, 32) =~= b@);
        }
        a
    }

    /// Reads the address stored at `b[at .. at + 32]`.
    pub fn read_at(b: &Vec<u8>, at: usize) -> (a: Address)
        requires
            at + 32 <= b@.len(),
        ensures
            a == address_from_bytes(b@.subrange(at as int, at + 32)),
    {
        // Reading the length pins it below usize::MAX for the index sums.
        let _n: usize = b.len();
        let a = Address {
            w0: limb_at(b, at),
            w1: limb_at(b, at + 8),
            w2: limb_at(b, at + 16),
            w3: limb_at(b, at + 24),
        };
        proof {
            let s = b@.subrange(at as int, at + 32);
            assert forall|j: int| 0 <= j < 32 implies s[j] == b@[at + j] by {}
            assert(a == address_from_bytes(s));
        }
        a
    }
}

/// Splitting a value into its eight little-endian bytes and reassembling
/// them gives the value back.
pub proof fn lemma_le8_reassembles(x: u64)
    ensures
        limb_from(le8(x), 0) == x,
{
    let xi = x as int;
    vstd::arithmetic::div_mod::lemma_fundamental_div_mod(xi, 256);
    vstd::arithmetic::div_mod::lemma_fundamental_div_mod(xi / 256, 256);
    vstd::arithmetic::div_mod::lemma_fundamental_div_mod(xi / 65536, 256);
    vstd::arithmetic::div_mod::lemma_fundamental_div_mod(xi / 16777216, 256);
    vstd::arithmetic::div_mod::lemma_fundamental_div_mod(xi / 4294967296, 256);
    vstd::arithmetic::div_mod::lemma_fundamental_div_mod(xi / 1099511627776, 256);
    vstd::arithmetic::div_mod::lemma_fundamental_div_mod(xi / 281474976710656, 256);
    vstd::arithmetic::div_mod::lemma_fundamental_div_mod(xi, 72057594037927936);
    vstd::arithmetic::div_mod::lemma_div_denominator(xi, 256, 256);
    vstd::arithmetic::div_mod::lemma_div_denominator(xi, 65536, 256);
    vstd::arithmetic::div_mod::lemma_div_denominator(xi, 16777216, 256);
    vstd::arithmetic::div_mod::lemma_div_denominator(xi, 4294967296, 256);
    vstd::arithmetic::div_mod::lemma_div_denominator(xi, 1099511627776, 256);
    vstd::arithmetic::div_mod::lemma_div_denominator(xi, 281474976710656, 256);
    vstd::arithmetic::div_mod::lemma_small_mod((xi / 72057594037927936) as nat, 256);
}

/// Serialising an address and parsing the bytes back gives the address.
pub proof fn lemma_address_bytes_reassemble(a: Address)
    ensures
        address_from_bytes(a.bytes()) == a,
{
    let s = a.bytes();
    assert forall|j: int| 0 <= j < 8 implies s[j] == le8(a.w0)[j] by {}
    assert forall|j: int| 0 <= j < 8 implies s[8 + j] == le8(a.w1)[j] by {}
    assert forall|j: int| 0 <= j < 8 implies s[16 + j] == le8(a.w2)[j] by {}
    assert forall|j: int| 0 <= j < 8 implies s[24 + j] == le8(a.w3)[j] by {}
    lemma_le8_reassembles(a.w0);
    lemma_le8_reassembles(a.w1);
    lemma_le8_reassembles(a.w2);
    lemma_le8_reassembles(a.w3);
    assert(limb_from(s, 0) == limb_from(le8(a.w0), 0));
    assert(limb_from(s, 8) == limb_from(le8(a.w1), 0));
    assert(limb_from(s, 16) == limb_from(le8(a.w2), 0));
    assert(limb_from(s, 24) == limb_from(le8(a.w3), 0));
}

} // verus!
