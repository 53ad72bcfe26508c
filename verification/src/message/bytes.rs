use vstd::prelude::*;

verus! {

/// The big-endian value of two bytes.
pub open spec fn u16_from_be(b0: u8, b1: u8) -> u16 {
    ((b0 as u16) << 8) | (b1 as u16)
}

/// The big-endian value of four bytes.
pub open spec fn u32_from_be(b0: u8, b1: u8, b2: u8, b3: u8) -> u32 {
    ((b0 as u32) << 24) | ((b1 as u32) << 16) | ((b2 as u32) << 8) | (b3 as u32)
}

/// The two bytes of `v`, most significant first.
pub open spec fn u16_be_bytes(v: u16) -> Seq<u8> {
    seq![((v >> 8) & 0xff) as u8, (v & 0xff) as u8]
}

/// The four bytes of `v`, most significant first.
pub open spec fn u32_be_bytes(v: u32) -> Seq<u8> {
    seq![((v >> 24) & 0xff) as u8, ((v >> 16) & 0xff) as u8, ((v >> 8) & 0xff) as u8, (v & 0xff) as u8]
}

/// Reading back the bytes of a `u16` gives the `u16`.
pub proof fn lemma_u16_value_roundtrip(v: u16)
    ensures
        u16_from_be(u16_be_bytes(v)[0], u16_be_bytes(v)[1]) == v,
{
    assert((((((v >> 8) & 0xff) as u8) as u16) << 8) | ((((v & 0xff) as u8)) as u16) == v)
        by (bit_vector);
}

/// Reading back the bytes of a `u32` gives the `u32`.
pub proof fn lemma_u32_value_roundtrip(v: u32)
    ensures
        ({
            let s = u32_be_bytes(v);
            u32_from_be(s[0], s[1], s[2], s[3]) == v
        }),
{
    assert((((((v >> 24) & 0xff) as u8) as u32) << 24) | (((((v >> 16) & 0xff) as u8) as u32) << 16)
        | (((((v >> 8) & 0xff) as u8) as u32) << 8) | ((((v & 0xff) as u8)) as u32) == v)
        by (bit_vector);
}

/// Writing the value of four bytes gives those bytes back.
pub proof fn lemma_u32_bytes_roundtrip(b0: u8, b1: u8, b2: u8, b3: u8)
    ensures
        u32_be_bytes(u32_from_be(b0, b1, b2, b3)) == seq![b0, b1, b2, b3],
{
    let v = u32_from_be(b0, b1, b2, b3);
    assert(v == ((b0 as u32) << 24) | ((b1 as u32) << 16) | ((b2 as u32) << 8) | (b3 as u32) ==> (
    ((v >> 24) & 0xff) as u8 == b0 && ((v >> 16) & 0xff) as u8 == b1 && ((v >> 8) & 0xff) as u8
        == b2 && (v & 0xff) as u8 == b3)) by (bit_vector);
    assert(u32_be_bytes(v) =~= seq![b0, b1, b2, b3]);
}

/// The big-endian value of the first four bytes of `bytes`.
pub fn read_u32_be(bytes: &[u8]) -> (r: u32)
    requires
        bytes@.len() >= 4,
    ensures
        r == u32_from_be(bytes@[0], bytes@[1], bytes@[2], bytes@[3]),
{
    ((bytes[0] as u32) << 24) | ((bytes[1] as u32) << 16) | ((bytes[2] as u32) << 8) | (bytes[3] as u32)
}

/// The big-endian value of the first two bytes of `bytes`.
pub fn read_u16_be(bytes: &[u8]) -> (r: u16)
    requires
        bytes@.len() >= 2,
    ensures
        r == u16_from_be(bytes@[0], bytes@[1]),
{
    ((bytes[0] as u16) << 8) | (bytes[1] as u16)
}

/// Appends the four bytes of `v`, most significant first.
pub fn push_u32_be(out: &mut Vec<u8>, v: u32)
    ensures
        final(out)@ == old(out)@ + u32_be_bytes(v),
{
    out.push(((v >> 24) & 0xff) as u8);
    out.push(((v >> 16) & 0xff) as u8);
    out.push(((v >> 8) & 0xff) as u8);
    out.push((v & 0xff) as u8);
    assert(out@ =~= old(out)@ + u32_be_bytes(v));
}

/// Appends the two bytes of `v`, most significant first.
pub fn push_u16_be(out: &mut Vec<u8>, v: u16)
    ensures
        final(out)@ == old(out)@ + u16_be_bytes(v),
{
    out.push(((v >> 8) & 0xff) as u8);
    out.push((v & 0xff) as u8);
    assert(out@ =~= old(out)@ + u16_be_bytes(v));
}

} // verus!
