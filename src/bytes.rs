//! Host-order encoding of the 32-bit words that the kernel's CAN structures
//! are made of.

use vstd::prelude::*;
use vstd::endian::{endianness, Endian};

verus! {

/// The four bytes of `x`, least significant first.
pub open spec fn u32_le(x: u32) -> Seq<u8> {
    seq![x as u8, (x >> 8u32) as u8, (x >> 16u32) as u8, (x >> 24u32) as u8]
}

/// The four bytes of `x`, most significant first.
pub open spec fn u32_be(x: u32) -> Seq<u8> {
    seq![(x >> 24u32) as u8, (x >> 16u32) as u8, (x >> 8u32) as u8, x as u8]
}

/// The four bytes of `x` in the byte order of the machine that runs the
/// code.
pub open spec fn host_bytes(x: u32) -> Seq<u8> {
    if endianness() is Little {
        u32_le(x)
    } else {
        u32_be(x)
    }
}

/// Different words have different bytes.
pub proof fn lemma_host_bytes_injective(x: u32, y: u32)
    requires
        host_bytes(x) == host_bytes(y),
    ensures
        x == y,
{
    let (a, b) = (host_bytes(x), host_bytes(y));
    assert(a[0] == b[0] && a[1] == b[1] && a[2] == b[2] && a[3] == b[3]);
    assert(x as u8 == y as u8 && (x >> 8u32) as u8 == (y >> 8u32) as u8 && (x >> 16u32) as u8 == (
    y >> 16u32) as u8 && (x >> 24u32) as u8 == (y >> 24u32) as u8);
    assert(x == y) by (bit_vector)
        requires
            x as u8 == y as u8,
            (x >> 8u32) as u8 == (y >> 8u32) as u8,
            (x >> 16u32) as u8 == (y >> 16u32) as u8,
            (x >> 24u32) as u8 == (y >> 24u32) as u8,
    ;
}

/// Relies on `u32::to_ne_bytes`: the value in the machine's own byte order.
#[verifier::external_body]
pub(crate) fn u32_to_host_bytes(x: u32) -> (r: Vec<u8>)
    ensures
        r@ == host_bytes(x),
{
    x.to_ne_bytes().to_vec()
}

/// Relies on `u32::from_ne_bytes`: reads four bytes in the machine's own
/// byte order.
#[verifier::external_body]
pub(crate) fn u32_from_host_bytes(b: &[u8]) -> (r: u32)
    requires
        b@.len() == 4,
    ensures
        b@ == host_bytes(r),
{
    u32::from_ne_bytes([b[0], b[1], b[2], b[3]])
}

/// Appends the host-order bytes of `x` to `out`.
pub fn push_u32(out: &mut Vec<u8>, x: u32)
    ensures
        final(out)@.len() == old(out)@.len() + 4,
        final(out)@.subrange(0, old(out)@.len() as int) == old(out)@,
        final(out)@.subrange(old(out)@.len() as int, old(out)@.len() + 4int) == host_bytes(x),
{
    let b = u32_to_host_bytes(x);
    let ghost start = out@;
    let mut i: usize = 0;
    while i < 4
        invariant
            0 <= i <= 4,
            b@.len() == 4,
            out@.len() == start.len() + i,
            out@.subrange(0, start.len() as int) == start,
            out@.subrange(start.len() as int, start.len() + i as int) == b@.subrange(0, i as int),
        decreases 4 - i,
    {
        out.push(b[i]);
        i = i + 1;
        assert(out@.subrange(start.len() as int, start.len() + i as int) =~= b@.subrange(0, i as int));
        assert(out@.subrange(0, start.len() as int) =~= start);
    }
    assert(b@.subrange(0, 4) =~= b@);
}

/// `b` is the words of `w` in order, each in the machine's byte order, with
/// nothing between them.
pub open spec fn host_words(b: Seq<u8>, w: Seq<u32>) -> bool {
    &&& b.len() == 4 * w.len()
    &&& forall|i: int|
        0 <= i < w.len() ==> #[trigger] b.subrange(4 * i, 4 * i + 4) == host_bytes(w[i])
}

/// Lays the words of `w` out one after another in host byte order.
pub fn words_to_host_bytes(w: &[u32]) -> (r: Vec<u8>)
    requires
        w@.len() * 4 <= usize::MAX,
    ensures
        host_words(r@, w@),
{
    let mut out: Vec<u8> = Vec::new();
    let mut k: usize = 0;
    while k < w.len()
        invariant
            0 <= k <= w@.len(),
            w@.len() * 4 <= usize::MAX,
            host_words(out@, w@.subrange(0, k as int)),
        decreases w@.len() - k,
    {
        let ghost before = out@;
        push_u32(&mut out, w[k]);
        proof {
            let ws = w@.subrange(0, k + 1);
            assert forall|i: int| 0 <= i < ws.len() implies #[trigger] out@.subrange(
                4 * i,
                4 * i + 4,
            ) == host_bytes(ws[i]) by {
                if i < k {
                    assert(out@.subrange(4 * i, 4 * i + 4) =~= before.subrange(4 * i, 4 * i + 4));
                    assert(w@.subrange(0, k as int)[i] == ws[i]);
                }
            }
        }
        k = k + 1;
    }
    assert(w@.subrange(0, w@.len() as int) =~= w@);
    out
}

} // verus!
