use vstd::prelude::*;

verus! {

/// The unsigned integer whose little-endian encoding is `b[0..8]`.
pub open spec fn le_u64(b: Seq<u8>) -> u64
    recommends
        b.len() >= 8,
{
    (b[0] as u64) | ((b[1] as u64) << 8u64) | ((b[2] as u64) << 16u64) | ((b[3] as u64) << 24u64)
        | ((b[4] as u64) << 32u64) | ((b[5] as u64) << 40u64) | ((b[6] as u64) << 48u64) | ((
    b[7] as u64) << 56u64)
}

/// Byte `i` of the little-endian encoding of `v`.
pub open spec fn le_byte(v: u64, i: int) -> u8 {
    ((v >> (8 * i) as u64) & 0xffu64) as u8
}

/// The little-endian encoding of `v`.
pub open spec fn le_bytes(v: u64) -> Seq<u8> {
    Seq::new(8, |i: int| le_byte(v, i))
}

/// Reads the little-endian `u64` stored at `data[at..at + 8]`.
pub fn read_u64_le(data: &[u8], at: usize) -> (r: u64)
    requires
        at + 8 <= data@.len(),
    ensures
        r == le_u64(data@.subrange(at as int, at + 8)),
{
    let b0 = data[at] as u64;
    let b1 = data[at + 1] as u64;
    let b2 = data[at + 2] as u64;
    let b3 = data[at + 3] as u64;
    let b4 = data[at + 4] as u64;
    let b5 = data[at + 5] as u64;
    let b6 = data[at + 6] as u64;
    let b7 = data[at + 7] as u64;
    b0 | (b1 << 8u64) | (b2 << 16u64) | (b3 << 24u64) | (b4 << 32u64) | (b5 << 40u64) | (b6
        << 48u64) | (b7 << 56u64)
}

/// Appends the little-endian encoding of `v` to `out`.
pub fn write_u64_le(out: &mut Vec<u8>, v: u64)
    ensures
        final(out)@ == old(out)@ + le_bytes(v),
{
    let mut i: u64 = 0;
    while i < 8
        invariant
            0 <= i <= 8,
            out@ == old(out)@ + le_bytes(v).subrange(0, i as int),
        decreases 8 - i,
    {
        let b = ((v >> (8 * i)) & 0xff) as u8;
        out.push(b);
        assert(le_bytes(v).subrange(0, i + 1) =~= le_bytes(v).subrange(0, i as int).push(b));
        i = i + 1;
    }
    assert(le_bytes(v).subrange(0, 8) =~= le_bytes(v));
}

/// Decoding an encoded integer gives it back.
pub proof fn lemma_le_round_trip(v: u64)
    ensures
        le_u64(le_bytes(v)) == v,
{
    let b = le_bytes(v);
    assert(b[0] == ((v >> 0u64) & 0xffu64) as u8);
    assert(b[1] == ((v >> 8u64) & 0xffu64) as u8);
    assert(b[2] == ((v >> 16u64) & 0xffu64) as u8);
    assert(b[3] == ((v >> 24u64) & 0xffu64) as u8);
    assert(b[4] == ((v >> 32u64) & 0xffu64) as u8);
    assert(b[5] == ((v >> 40u64) & 0xffu64) as u8);
    assert(b[6] == ((v >> 48u64) & 0xffu64) as u8);
    assert(b[7] == ((v >> 56u64) & 0xffu64) as u8);
    assert(v == (((v >> 0u64) & 0xffu64) as u8 as u64) | ((((v >> 8u64) & 0xffu64) as u8 as u64)
        << 8u64) | ((((v >> 16u64) & 0xffu64) as u8 as u64) << 16u64) | ((((v >> 24u64)
        & 0xffu64) as u8 as u64) << 24u64) | ((((v >> 32u64) & 0xffu64) as u8 as u64) << 32u64)
        | ((((v >> 40u64) & 0xffu64) as u8 as u64) << 40u64) | ((((v >> 48u64) & 0xffu64) as u8
        as u64) << 48u64) | ((((v >> 56u64) & 0xffu64) as u8 as u64) << 56u64)) by (bit_vector);
}

/// Eight zero bytes encode zero.
pub proof fn lemma_le_zero(b: Seq<u8>)
    requires
        b.len() >= 8,
        forall|i: int| 0 <= i < 8 ==> b[i] == 0,
    ensures
        le_u64(b) == 0,
{
    assert(b[0] == 0 && b[1] == 0 && b[2] == 0 && b[3] == 0);
    assert(b[4] == 0 && b[5] == 0 && b[6] == 0 && b[7] == 0);
    assert(((0u8 as u64) | ((0u8 as u64) << 8u64) | ((0u8 as u64) << 16u64) | ((0u8 as u64)
        << 24u64) | ((0u8 as u64) << 32u64) | ((0u8 as u64) << 40u64) | ((0u8 as u64) << 48u64)
        | ((0u8 as u64) << 56u64)) == 0u64) by (bit_vector);
}

} // verus!
