//! Big-endian encoding of the 32-bit quantities the protocol puts on the wire:
//! the frame length header and the trailing nonce counter.

use vstd::prelude::*;

verus! {

/// The unsigned 32-bit value that four bytes spell in big-endian order.
pub open spec fn spec_be32(b: Seq<u8>) -> u32
    recommends
        b.len() == 4,
{
    ((b[0] as u32) << 24) | ((b[1] as u32) << 16) | ((b[2] as u32) << 8) | (b[3] as u32)
}

/// The four bytes that spell `v` in big-endian order.
pub open spec fn spec_be32_bytes(v: u32) -> Seq<u8> {
    seq![
        ((v >> 24) & 0xff) as u8,
        ((v >> 16) & 0xff) as u8,
        ((v >> 8) & 0xff) as u8,
        (v & 0xff) as u8,
    ]
}

/// Encoding a value and reading the bytes back gives the value again.
pub proof fn lemma_be32_of_bytes(v: u32)
    ensures
        spec_be32(spec_be32_bytes(v)) == v,
{
    assert(((((v >> 24) & 0xff) as u8 as u32) << 24) | ((((v >> 16) & 0xff) as u8 as u32) << 16)
        | ((((v >> 8) & 0xff) as u8 as u32) << 8) | ((v & 0xff) as u8 as u32) == v)
        by (bit_vector);
}

/// Reads a 4-byte big-endian length header, as found in front of every frame.
pub fn parse_frame_length(header: [u8; 4]) -> (n: u32)
    ensures
        n == spec_be32(header@),
{
    ((header[0] as u32) << 24) | ((header[1] as u32) << 16) | ((header[2] as u32) << 8) | (
    header[3] as u32)
}

/// Writes `v` as a 4-byte big-endian header.
pub fn u32_to_be_bytes(v: u32) -> (b: Vec<u8>)
    ensures
        b@ == spec_be32_bytes(v),
{
    let mut b: Vec<u8> = Vec::new();
    b.push(((v >> 24) & 0xff) as u8);
    b.push(((v >> 16) & 0xff) as u8);
    b.push(((v >> 8) & 0xff) as u8);
    b.push((v & 0xff) as u8);
    proof {
        assert(b@ =~= spec_be32_bytes(v));
    }
    b
}

} // verus!
