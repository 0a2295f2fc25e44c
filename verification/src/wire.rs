use vstd::prelude::*;

verus! {

/// The unsigned 32-bit integer held by 4 little-endian bytes: byte 0 is the
/// least significant. The weighted sum is at most 2^32 - 1, so the cast never
/// truncates.
pub open spec fn spec_u32_from_le(bytes: Seq<u8>) -> u32
    recommends
        bytes.len() == 4,
{
    (bytes[0] + bytes[1] * 0x100 + bytes[2] * 0x1_0000 + bytes[3] * 0x100_0000) as u32
}

/// The 4 little-endian bytes of an unsigned 32-bit integer: byte 0 is the
/// least significant.
pub open spec fn spec_u32_to_le(value: u32) -> Seq<u8> {
    seq![
        (value % 0x100) as u8,
        ((value / 0x100) % 0x100) as u8,
        ((value / 0x1_0000) % 0x100) as u8,
        ((value / 0x100_0000) % 0x100) as u8,
    ]
}

/// Law: the little-endian layout is faithful. Reading back the 4 bytes of
/// any unsigned 32-bit integer gives that integer, and any 4-byte buffer is
/// exactly the layout of the integer read from it.
pub proof fn lemma_u32_le_roundtrip(value: u32, bytes: Seq<u8>)
    requires
        bytes.len() == 4,
    ensures
        spec_u32_from_le(spec_u32_to_le(value)) == value,
        spec_u32_to_le(spec_u32_from_le(bytes)) =~= bytes,
{
    assert(value % 0x100 + ((value / 0x100) % 0x100) * 0x100 + ((value / 0x1_0000) % 0x100)
        * 0x1_0000 + ((value / 0x100_0000) % 0x100) * 0x100_0000 == value) by (bit_vector);
    let read: u32 = (bytes[0] + bytes[1] * 0x100 + bytes[2] * 0x1_0000 + bytes[3]
        * 0x100_0000) as u32;
    let b0 = bytes[0];
    let b1 = bytes[1];
    let b2 = bytes[2];
    let b3 = bytes[3];
    assert({
        let x: u32 = (b0 + b1 * 0x100 + b2 * 0x1_0000 + b3 * 0x100_0000) as u32;
        x % 0x100 == b0 && (x / 0x100) % 0x100 == b1 && (x / 0x1_0000) % 0x100 == b2 && (x
            / 0x100_0000) % 0x100 == b3
    }) by (bit_vector);
    assert(spec_u32_to_le(read)[0] == bytes[0]);
    assert(spec_u32_to_le(read)[1] == bytes[1]);
    assert(spec_u32_to_le(read)[2] == bytes[2]);
    assert(spec_u32_to_le(read)[3] == bytes[3]);
}

/// Read the unsigned 32-bit integer held by a 4-byte little-endian buffer.
pub fn u32_from_le(bytes: &[u8]) -> (r: u32)
    requires
        bytes@.len() == 4,
    ensures
        r == spec_u32_from_le(bytes@),
{
    let b0: u32 = bytes[0] as u32;
    let b1: u32 = bytes[1] as u32;
    let b2: u32 = bytes[2] as u32;
    let b3: u32 = bytes[3] as u32;
    b0 + b1 * 0x100 + b2 * 0x1_0000 + b3 * 0x100_0000
}

/// Write an unsigned 32-bit integer as its 4 little-endian bytes.
pub fn u32_to_le(value: u32) -> (r: Vec<u8>)
    ensures
        r@ == spec_u32_to_le(value),
        r@.len() == 4,
{
    let mut out: Vec<u8> = Vec::new();
    out.push((value % 0x100) as u8);
    out.push(((value / 0x100) % 0x100) as u8);
    out.push(((value / 0x1_0000) % 0x100) as u8);
    out.push(((value / 0x100_0000) % 0x100) as u8);
    proof {
        assert(out@ =~= spec_u32_to_le(value));
    }
    out
}

} // verus!
