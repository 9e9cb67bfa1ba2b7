//! Network byte order: how 16-bit and 32-bit numbers lie in a buffer, most
//! significant octet first.

use vstd::prelude::*;
use zerocopy::byteorder::network_endian::{U16, U32};

verus! {

/// The number held by two octets in network order: `s[0]` is the high octet.
pub open spec fn be_u16(s: Seq<u8>) -> u16
    recommends
        s.len() == 2,
{
    (s[0] * 0x100 + s[1]) as u16
}

/// The number held by four octets in network order: `s[0]` is the highest octet.
pub open spec fn be_u32(s: Seq<u8>) -> u32
    recommends
        s.len() == 4,
{
    (s[0] * 0x100_0000 + s[1] * 0x1_0000 + s[2] * 0x100 + s[3]) as u32
}

/// The two octets of `v` in network order.
pub open spec fn be_u16_bytes(v: u16) -> Seq<u8> {
    seq![(v / 0x100) as u8, (v % 0x100) as u8]
}

/// The four octets of `v` in network order.
pub open spec fn be_u32_bytes(v: u32) -> Seq<u8> {
    seq![
        (v / 0x100_0000) as u8,
        (v / 0x1_0000 % 0x100) as u8,
        (v / 0x100 % 0x100) as u8,
        (v % 0x100) as u8,
    ]
}

/// Writing a 16-bit number out and reading it back gives the number again.
pub proof fn lemma_be_u16_of_bytes(v: u16)
    ensures
        be_u16_bytes(v).len() == 2,
        be_u16(be_u16_bytes(v)) == v,
{
}

/// Reading two octets and writing the number out gives the octets again.
pub proof fn lemma_be_u16_bytes_of(s: Seq<u8>)
    requires
        s.len() == 2,
    ensures
        be_u16_bytes(be_u16(s)) == s,
{
    lemma_octets_of_sum(0, 0, s[0], s[1]);
    assert(be_u16_bytes(be_u16(s)) =~= s);
}

/// Writing a 32-bit number out and reading it back gives the number again.
pub proof fn lemma_be_u32_of_bytes(v: u32)
    ensures
        be_u32_bytes(v).len() == 4,
        be_u32(be_u32_bytes(v)) == v,
{
}

/// Reading four octets and writing the number out gives the octets again.
pub proof fn lemma_be_u32_bytes_of(s: Seq<u8>)
    requires
        s.len() == 4,
    ensures
        be_u32_bytes(be_u32(s)) == s,
{
    lemma_octets_of_sum(s[0], s[1], s[2], s[3]);
    assert(be_u32_bytes(be_u32(s)) =~= s);
}

/// Network order sorts as the numbers do: `a` is below `b` exactly when, at
/// the first place where their octets differ, the octet of `a` is the smaller.
pub proof fn lemma_be_u16_most_significant_first(a: u16, b: u16)
    ensures
        a < b <==> exists|i: int|
            0 <= i < 2 && be_u16_bytes(a).subrange(0, i) == be_u16_bytes(b).subrange(0, i)
                && #[trigger] be_u16_bytes(a)[i] < be_u16_bytes(b)[i],
{
    let x = be_u16_bytes(a);
    let y = be_u16_bytes(b);
    lemma_be_u16_of_bytes(a);
    lemma_be_u16_of_bytes(b);
    if a < b {
        let i: int = if x[0] != y[0] {
            0
        } else {
            1
        };
        assert(x.subrange(0, i) =~= y.subrange(0, i));
        assert(x[i] < y[i]);
    }
    if exists|i: int|
        0 <= i < 2 && x.subrange(0, i) == y.subrange(0, i) && #[trigger] x[i] < y[i] {
        let i = choose|i: int|
            0 <= i < 2 && x.subrange(0, i) == y.subrange(0, i) && #[trigger] x[i] < y[i];
        assert forall|j: int| 0 <= j < i implies x[j] == y[j] by {
            assert(x.subrange(0, i)[j] == y.subrange(0, i)[j]);
        }
        assert(a < b);
    }
}

/// Network order sorts as the numbers do: `a` is below `b` exactly when, at
/// the first place where their octets differ, the octet of `a` is the smaller.
pub proof fn lemma_be_u32_most_significant_first(a: u32, b: u32)
    ensures
        a < b <==> exists|i: int|
            0 <= i < 4 && be_u32_bytes(a).subrange(0, i) == be_u32_bytes(b).subrange(0, i)
                && #[trigger] be_u32_bytes(a)[i] < be_u32_bytes(b)[i],
{
    let x = be_u32_bytes(a);
    let y = be_u32_bytes(b);
    lemma_be_u32_of_bytes(a);
    lemma_be_u32_of_bytes(b);
    if a < b {
        let i: int = if x[0] != y[0] {
            0
        } else if x[1] != y[1] {
            1
        } else if x[2] != y[2] {
            2
        } else {
            3
        };
        assert(x.subrange(0, i) =~= y.subrange(0, i));
        assert(x[i] < y[i]);
    }
    if exists|i: int|
        0 <= i < 4 && x.subrange(0, i) == y.subrange(0, i) && #[trigger] x[i] < y[i] {
        let i = choose|i: int|
            0 <= i < 4 && x.subrange(0, i) == y.subrange(0, i) && #[trigger] x[i] < y[i];
        assert forall|j: int| 0 <= j < i implies x[j] == y[j] by {
            assert(x.subrange(0, i)[j] == y.subrange(0, i)[j]);
        }
        assert(a < b);
    }
}

/// Four octets weighted by their place add up to a 32-bit number from which
/// division and remainder give each octet back.
proof fn lemma_octets_of_sum(b0: u8, b1: u8, b2: u8, b3: u8)
    by (bit_vector)
    ensures
        b0 * 0x100_0000 + b1 * 0x1_0000 + b2 * 0x100 + b3 <= 0xffff_ffff,
        (b0 * 0x100_0000 + b1 * 0x1_0000 + b2 * 0x100 + b3) / 0x100_0000 == b0,
        (b0 * 0x100_0000 + b1 * 0x1_0000 + b2 * 0x100 + b3) / 0x1_0000 % 0x100 == b1,
        (b0 * 0x100_0000 + b1 * 0x1_0000 + b2 * 0x100 + b3) / 0x100 % 0x100 == b2,
        (b0 * 0x100_0000 + b1 * 0x1_0000 + b2 * 0x100 + b3) % 0x100 == b3,
{
}

/// Reads a 16-bit number through `zerocopy::byteorder::U16::get`, with
/// network order as the byte order; `U16::from_bytes` takes the octets in as
/// they are. The result is the number whose high octet is `raw[0]` and whose
/// low octet is `raw[1]`.
#[verifier::external_body]
pub(crate) fn u16_from_network(raw: [u8; 2]) -> (v: u16)
    ensures
        v == be_u16(raw@),
{
    U16::from_bytes(raw).get()
}

/// Writes a 16-bit number through `zerocopy::byteorder::U16::new`, with
/// network order as the byte order; the octets come out as they are held.
/// The result holds the high octet of `v` first and the low octet second.
#[verifier::external_body]
pub(crate) fn u16_to_network(v: u16) -> (raw: [u8; 2])
    ensures
        raw@ == be_u16_bytes(v),
{
    U16::new(v).into()
}

/// Reads a 32-bit number through `zerocopy::byteorder::U32::get`, with
/// network order as the byte order; `U32::from_bytes` takes the octets in as
/// they are. The result is the number whose octets, from the highest down,
/// are `raw[0]` to `raw[3]`.
#[verifier::external_body]
pub(crate) fn u32_from_network(raw: [u8; 4]) -> (v: u32)
    ensures
        v == be_u32(raw@),
{
    U32::from_bytes(raw).get()
}

/// Writes a 32-bit number through `zerocopy::byteorder::U32::new`, with
/// network order as the byte order; the octets come out as they are held.
/// The result holds the octets of `v` from the highest down.
#[verifier::external_body]
pub(crate) fn u32_to_network(v: u32) -> (raw: [u8; 4])
    ensures
        raw@ == be_u32_bytes(v),
{
    U32::new(v).into()
}

} // verus!
