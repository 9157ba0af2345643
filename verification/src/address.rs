//! Account addresses as plain 32-byte values.

use vstd::prelude::*;

verus! {

/// A 32-byte account address. Its view is the sequence of its bytes.
#[derive(Clone, Copy, Debug, PartialEq, Eq)]
pub struct Address {
    pub bytes: [u8; 32],
}

impl View for Address {
    type V = Seq<u8>;

    open spec fn view(&self) -> Seq<u8> {
        self.bytes@
    }
}

/// The all-zero address.
pub open spec fn zero_address_bytes() -> Seq<u8> {
    Seq::new(32, |i: int| 0u8)
}

impl Address {
    /// The all-zero address.
    pub fn zero() -> (r: Address)
        ensures
            r@ == zero_address_bytes(),
    {
        let r = Address { bytes: [0u8; 32] };
        proof {
            assert(r@ =~= zero_address_bytes());
        }
        r
    }

    /// Wraps raw bytes as an address.
    pub fn new(bytes: [u8; 32]) -> (r: Address)
        ensures
            r@ == bytes@,
    {
        Address { bytes }
    }

    /// Byte-wise equality of two addresses.
    pub fn eq_address(&self, other: &Address) -> (r: bool)
        ensures
            r <==> self@ == other@,
    {
        let mut i: usize = 0;
        while i < 32
            invariant
                i <= 32,
                forall|j: int| 0 <= j < i ==> self@[j] == other@[j],
            decreases 32 - i,
        {
            if self.bytes[i] != other.bytes[i] {
                return false;
            }
            i += 1;
        }
        proof {
            assert(self@ =~= other@);
        }
        true
    }

    /// The address bytes as a growable buffer.
    pub fn to_vec(&self) -> (r: Vec<u8>)
        ensures
            r@ == self@,
    {
        let mut out: Vec<u8> = Vec::new();
        let mut i: usize = 0;
        while i < 32
            invariant
                i <= 32,
                out@ =~= self@.subrange(0, i as int),
            decreases 32 - i,
        {
            out.push(self.bytes[i]);
            i += 1;
        }
        proof {
            assert(out@ =~= self@);
        }
        out
    }
}

/// Evaluates an ordered comparison table of (expected, found) address
/// pairs: the generic routine behind every field-by-field "first mismatch
/// wins" check. Returns the index of the first differing pair, if any.
pub fn first_mismatch(pairs: &Vec<(Address, Address)>) -> (r: Option<usize>)
    ensures
        match r {
            Some(i) => i < pairs@.len() && pairs@[i as int].0@ != pairs@[i as int].1@ && (forall|
                j: int,
            |
                0 <= j < i ==> pairs@[j].0@ == pairs@[j].1@),
            None => forall|j: int| 0 <= j < pairs@.len() ==> pairs@[j].0@ == pairs@[j].1@,
        },
{
    let mut i: usize = 0;
    while i < pairs.len()
        invariant
            i <= pairs@.len(),
            forall|j: int| 0 <= j < i ==> pairs@[j].0@ == pairs@[j].1@,
        decreases pairs@.len() - i,
    {
        if !pairs[i].0.eq_address(&pairs[i].1) {
            return Some(i);
        }
        i += 1;
    }
    None
}

/// Two addresses with the same bytes are the same address.
pub proof fn lemma_address_view_injective(a: Address, b: Address)
    requires
        a@ == b@,
    ensures
        a == b,
{
    assert(a.bytes =~= b.bytes);
}

} // verus!
