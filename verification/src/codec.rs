//! Byte-level helpers shared by the record codec and the account checks.

use vstd::prelude::*;

use crate::address::Address;

verus! {

/// The value of eight little-endian bytes.
pub open spec fn u64_from_le_bytes(b: Seq<u8>) -> u64
    recommends
        b.len() == 8,
{
    (b[0] as nat + b[1] as nat * 0x100 + b[2] as nat * 0x1_0000 + b[3] as nat * 0x100_0000 + b[4]
        as nat * 0x1_0000_0000 + b[5] as nat * 0x100_0000_0000 + b[6] as nat * 0x1_0000_0000_0000
        + b[7] as nat * 0x100_0000_0000_0000) as u64
}

/// Appends an address's bytes to a buffer.
pub(crate) fn push_address(out: &mut Vec<u8>, a: &Address)
    ensures
        final(out)@ == old(out)@ + a@,
{
    let mut i: usize = 0;
    while i < 32
        invariant
            i <= 32,
            out@ =~= old(out)@ + a@.subrange(0, i as int),
        decreases 32 - i,
    {
        out.push(a.bytes[i]);
        proof {
            assert(a@.subrange(0, i + 1 as int) =~= a@.subrange(0, i as int).push(a@[i as int]));
        }
        i += 1;
    }
    proof {
        assert(out@ =~= old(out)@ + a@);
    }
}

/// Reads the 32 bytes at `offset` as an address.
pub(crate) fn read_address(buf: &Vec<u8>, offset: usize) -> (r: Address)
    requires
        offset + 32 <= buf@.len(),
    ensures
        r@ == buf@.subrange(offset as int, offset + 32),
{
    let n = buf.len();
    let mut bytes: [u8; 32] = [0u8; 32];
    let mut i: usize = 0;
    while i < 32
        invariant
            i <= 32,
            n == buf@.len(),
            offset + 32 <= n,
            forall|j: int| 0 <= j < i ==> bytes@[j] == buf@[offset + j],
        decreases 32 - i,
    {
        bytes[i] = buf[offset + i];
        i += 1;
    }
    proof {
        assert(bytes@ =~= buf@.subrange(offset as int, offset + 32));
    }
    Address { bytes }
}

/// Copies the bytes of `data` from `start` on into a fresh buffer.
pub(crate) fn bytes_from(data: &Vec<u8>, start: usize) -> (r: Vec<u8>)
    requires
        start <= data@.len(),
    ensures
        r@ == data@.skip(start as int),
{
    let mut out: Vec<u8> = Vec::new();
    let mut i: usize = start;
    while i < data.len()
        invariant
            start <= i <= data@.len(),
            out@ =~= data@.subrange(start as int, i as int),
        decreases data@.len() - i,
    {
        out.push(data[i]);
        proof {
            assert(data@.subrange(start as int, i + 1 as int) =~= data@.subrange(
                start as int,
                i as int,
            ).push(data@[i as int]));
        }
        i += 1;
    }
    proof {
        assert(out@ =~= data@.skip(start as int));
    }
    out
}

} // verus!
