//! The five-byte packet header: the body size as a little-endian 32-bit
//! number, followed by the packet kind.
use vstd::prelude::*;

verus! {

/// Number of bytes in a packet header.
pub const HEADER_SZ: usize = 5;

/// The four little-endian bytes of `sz`.
pub open spec fn le32_bytes(sz: u32) -> Seq<u8> {
    seq![
        (sz % 256) as u8,
        ((sz / 256) % 256) as u8,
        ((sz / 65536) % 256) as u8,
        (sz / 16777216) as u8,
    ]
}

/// The number that the first four bytes of `b`, read little-endian, stand for.
pub open spec fn le32_value(b: Seq<u8>) -> nat
    recommends
        b.len() >= 4,
{
    (b[0] + 256 * b[1] + 65536 * b[2] + 16777216 * b[3]) as nat
}

/// The header that announces a body of `sz` bytes of packet kind `kind`.
pub open spec fn header_bytes(kind: u8, sz: u32) -> Seq<u8> {
    le32_bytes(sz).push(kind)
}

/// The size announced by a header.
pub open spec fn header_size(hdr: Seq<u8>) -> nat {
    le32_value(hdr)
}

/// The packet kind announced by a header.
pub open spec fn header_kind(hdr: Seq<u8>) -> u8
    recommends
        hdr.len() >= 5,
{
    hdr[4]
}

proof fn lemma_split_bits(sz: u32)
    ensures
        sz & 0xff == sz % 256,
        (sz & 0xff00) >> 8 == (sz / 256) % 256,
        (sz & 0xff0000) >> 16 == (sz / 65536) % 256,
        (sz & 0xff000000) >> 24 == sz / 16777216,
{
    assert(sz & 0xff == sz % 256) by (bit_vector);
    assert((sz & 0xff00) >> 8 == (sz / 256) % 256) by (bit_vector);
    assert((sz & 0xff0000) >> 16 == (sz / 65536) % 256) by (bit_vector);
    assert((sz & 0xff000000) >> 24 == sz / 16777216) by (bit_vector);
}

proof fn lemma_join_bits(b0: u8, b1: u8, b2: u8, b3: u8)
    ensures
        ((b3 as u32) << 24) | ((b2 as u32) << 16) | ((b1 as u32) << 8) | (b0 as u32)
            == b0 + 256 * b1 + 65536 * b2 + 16777216 * b3,
{
    assert(((b3 as u32) << 24) | ((b2 as u32) << 16) | ((b1 as u32) << 8) | (b0 as u32)
        == b0 + 256 * b1 + 65536 * b2 + 16777216 * b3) by (bit_vector);
}

/// Decoding a header gives back the kind and the size it was made from.
pub proof fn lemma_header_roundtrip(kind: u8, sz: u32)
    ensures
        header_bytes(kind, sz).len() == HEADER_SZ,
        header_size(header_bytes(kind, sz)) == sz,
        header_kind(header_bytes(kind, sz)) == kind,
{
    let h = header_bytes(kind, sz);
    assert(h[0] + 256 * h[1] + 65536 * h[2] + 16777216 * h[3] == sz);
}

/// The header bytes of a packet of kind `kind` whose body is `sz` bytes long.
pub fn encode_header(kind: u8, sz: u32) -> (hdr: [u8; 5])
    ensures
        hdr@ == header_bytes(kind, sz),
{
    proof {
        lemma_split_bits(sz);
    }
    let mut hdr: [u8; 5] = [0;5];
    hdr[4] = kind;
    hdr[3] = ((sz & 0xff00_0000) >> 24) as u8;
    hdr[2] = ((sz & 0x00ff_0000) >> 16) as u8;
    hdr[1] = ((sz & 0x0000_ff00) >> 8) as u8;
    hdr[0] = (sz & 0x0000_00ff) as u8;
    assert(hdr@ =~= header_bytes(kind, sz));
    hdr
}

/// The body size and the packet kind announced by the first five bytes of `hdr`.
pub fn decode_header(hdr: &[u8]) -> (r: (usize, u8))
    requires
        hdr@.len() >= HEADER_SZ,
    ensures
        r.0 == header_size(hdr@),
        r.1 == header_kind(hdr@),
{
    let b0 = hdr[0];
    let b1 = hdr[1];
    let b2 = hdr[2];
    let b3 = hdr[3];
    proof {
        lemma_join_bits(b0, b1, b2, b3);
    }
    let sz: u32 = ((b3 as u32) << 24) | ((b2 as u32) << 16) | ((b1 as u32) << 8) | (b0 as u32);
    (sz as usize, hdr[4])
}

} // verus!
