//! Big-endian encoding and decoding of the fixed-width integer fields used
//! by the wire protocol.

use vstd::prelude::*;

verus! {

/// The four bytes of `x` in big-endian order.
pub open spec fn be_u32_bytes(x: u32) -> Seq<u8> {
    seq![
        (x / 0x1000000) as u8,
        ((x / 0x10000) % 0x100) as u8,
        ((x / 0x100) % 0x100) as u8,
        (x % 0x100) as u8,
    ]
}

/// The value of four big-endian bytes.
pub open spec fn be_u32_val(s: Seq<u8>) -> u32
    recommends
        s.len() == 4,
{
    (s[0] * 0x1000000 + s[1] * 0x10000 + s[2] * 0x100 + s[3]) as u32
}

/// The eight bytes of `x` in big-endian order.
pub open spec fn be_u64_bytes(x: u64) -> Seq<u8> {
    seq![
        (x / 0x100000000000000) as u8,
        ((x / 0x1000000000000) % 0x100) as u8,
        ((x / 0x10000000000) % 0x100) as u8,
        ((x / 0x100000000) % 0x100) as u8,
        ((x / 0x1000000) % 0x100) as u8,
        ((x / 0x10000) % 0x100) as u8,
        ((x / 0x100) % 0x100) as u8,
        (x % 0x100) as u8,
    ]
}

/// The value of eight big-endian bytes.
pub open spec fn be_u64_val(s: Seq<u8>) -> u64
    recommends
        s.len() == 8,
{
    (s[0] * 0x100000000000000 + s[1] * 0x1000000000000 + s[2] * 0x10000000000 + s[3] * 0x100000000
        + s[4] * 0x1000000 + s[5] * 0x10000 + s[6] * 0x100 + s[7]) as u64
}

/// Reading back the four bytes of `x` gives `x`.
pub proof fn lemma_be_u32_round_trip(x: u32)
    ensures
        be_u32_val(be_u32_bytes(x)) == x,
{
    assert(x / 0x1000000 < 0x100 && (x / 0x1000000) * 0x1000000 + ((x / 0x10000) % 0x100) * 0x10000
        + ((x / 0x100) % 0x100) * 0x100 + (x % 0x100) == x) by (bit_vector);
}

/// Reading back the eight bytes of `x` gives `x`.
pub proof fn lemma_be_u64_round_trip(x: u64)
    ensures
        be_u64_val(be_u64_bytes(x)) == x,
{
    assert(x / 0x100000000000000 < 0x100 && (x / 0x100000000000000) * 0x100000000000000 + ((x
        / 0x1000000000000) % 0x100) * 0x1000000000000 + ((x / 0x10000000000) % 0x100)
        * 0x10000000000 + ((x / 0x100000000) % 0x100) * 0x100000000 + ((x / 0x1000000) % 0x100)
        * 0x1000000 + ((x / 0x10000) % 0x100) * 0x10000 + ((x / 0x100) % 0x100) * 0x100 + (x
        % 0x100) == x) by (bit_vector);
}

/// Appends the four big-endian bytes of `x`.
pub fn push_be_u32(out: &mut Vec<u8>, x: u32)
    ensures
        final(out)@ == old(out)@ + be_u32_bytes(x),
{
    let b0: u8 = (x / 0x1000000) as u8;
    let b1: u8 = ((x / 0x10000) % 0x100) as u8;
    let b2: u8 = ((x / 0x100) % 0x100) as u8;
    let b3: u8 = (x % 0x100) as u8;
    proof {
        assert(x / 0x1000000 < 0x100) by (bit_vector);
    }
    out.push(b0);
    out.push(b1);
    out.push(b2);
    out.push(b3);
    proof {
        assert(final(out)@ =~= old(out)@ + be_u32_bytes(x));
    }
}

/// Appends the eight big-endian bytes of `x`.
pub fn push_be_u64(out: &mut Vec<u8>, x: u64)
    ensures
        final(out)@ == old(out)@ + be_u64_bytes(x),
{
    let b0: u8 = (x / 0x100000000000000) as u8;
    let b1: u8 = ((x / 0x1000000000000) % 0x100) as u8;
    let b2: u8 = ((x / 0x10000000000) % 0x100) as u8;
    let b3: u8 = ((x / 0x100000000) % 0x100) as u8;
    let b4: u8 = ((x / 0x1000000) % 0x100) as u8;
    let b5: u8 = ((x / 0x10000) % 0x100) as u8;
    let b6: u8 = ((x / 0x100) % 0x100) as u8;
    let b7: u8 = (x % 0x100) as u8;
    proof {
        assert(x / 0x100000000000000 < 0x100) by (bit_vector);
    }
    out.push(b0);
    out.push(b1);
    out.push(b2);
    out.push(b3);
    out.push(b4);
    out.push(b5);
    out.push(b6);
    out.push(b7);
    proof {
        assert(final(out)@ =~= old(out)@ + be_u64_bytes(x));
    }
}

/// Reads four big-endian bytes starting at `offset`.
pub fn read_be_u32(bytes: &[u8], offset: usize) -> (x: u32)
    requires
        offset + 4 <= bytes@.len(),
    ensures
        x == be_u32_val(bytes@.subrange(offset as int, offset as int + 4)),
{
    let x = (bytes[offset] as u32) * 0x1000000 + (bytes[offset + 1] as u32) * 0x10000 + (bytes[
        offset + 2] as u32) * 0x100 + (bytes[offset + 3] as u32);
    proof {
        let s = bytes@.subrange(offset as int, offset as int + 4);
        assert(s[0] == bytes@[offset as int]);
        assert(s[1] == bytes@[offset as int + 1]);
        assert(s[2] == bytes@[offset as int + 2]);
        assert(s[3] == bytes@[offset as int + 3]);
    }
    x
}

/// Reads eight big-endian bytes starting at `offset`.
pub fn read_be_u64(bytes: &[u8], offset: usize) -> (x: u64)
    requires
        offset + 8 <= bytes@.len(),
    ensures
        x == be_u64_val(bytes@.subrange(offset as int, offset as int + 8)),
{
    let x = (bytes[offset] as u64) * 0x100000000000000 + (bytes[offset + 1] as u64)
        * 0x1000000000000 + (bytes[offset + 2] as u64) * 0x10000000000 + (bytes[offset + 3] as u64)
        * 0x100000000 + (bytes[offset + 4] as u64) * 0x1000000 + (bytes[offset + 5] as u64)
        * 0x10000 + (bytes[offset + 6] as u64) * 0x100 + (bytes[offset + 7] as u64);
    proof {
        let s = bytes@.subrange(offset as int, offset as int + 8);
        assert(s[0] == bytes@[offset as int]);
        assert(s[1] == bytes@[offset as int + 1]);
        assert(s[2] == bytes@[offset as int + 2]);
        assert(s[3] == bytes@[offset as int + 3]);
        assert(s[4] == bytes@[offset as int + 4]);
        assert(s[5] == bytes@[offset as int + 5]);
        assert(s[6] == bytes@[offset as int + 6]);
        assert(s[7] == bytes@[offset as int + 7]);
    }
    x
}

} // verus!
