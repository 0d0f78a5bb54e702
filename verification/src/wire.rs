//! Big-endian integer encodings and the byte-level helpers every packet
//! codec is built from.

use vstd::prelude::*;

verus! {

/// Big-endian bytes of a 16-bit value.
pub open spec fn be16(v: u16) -> Seq<u8> {
    seq![(v / 0x100) as u8, (v % 0x100) as u8]
}

/// Big-endian bytes of a 32-bit value.
pub open spec fn be32(v: u32) -> Seq<u8> {
    seq![
        (v / 0x100_0000) as u8,
        ((v / 0x1_0000) % 0x100) as u8,
        ((v / 0x100) % 0x100) as u8,
        (v % 0x100) as u8,
    ]
}

/// Big-endian bytes of a 64-bit value.
pub open spec fn be64(v: u64) -> Seq<u8> {
    be32((v / 0x1_0000_0000) as u32) + be32((v % 0x1_0000_0000) as u32)
}

/// The 16-bit value stored big-endian at `s[i..i + 2]`.
pub open spec fn read_be16(s: Seq<u8>, i: int) -> u16 {
    (s[i] * 0x100 + s[i + 1]) as u16
}

/// The 32-bit value stored big-endian at `s[i..i + 4]`.
pub open spec fn read_be32(s: Seq<u8>, i: int) -> u32 {
    (s[i] * 0x100_0000 + s[i + 1] * 0x1_0000 + s[i + 2] * 0x100 + s[i + 3]) as u32
}

/// The 64-bit value stored big-endian at `s[i..i + 8]`.
pub open spec fn read_be64(s: Seq<u8>, i: int) -> u64 {
    (read_be32(s, i) * 0x1_0000_0000 + read_be32(s, i + 4)) as u64
}

/// Reading back the bytes of `be16(v)` gives `v`, and any two bytes are the
/// encoding of the value read from them.
pub proof fn lemma_be16(v: u16, s: Seq<u8>, i: int)
    ensures
        be16(v).len() == 2,
        read_be16(be16(v), 0) == v,
        0 <= i && i + 2 <= s.len() ==> be16(read_be16(s, i)) =~= s.subrange(i, i + 2),
{
}

/// Reading back the bytes of `be32(v)` gives `v`, and any four bytes are the
/// encoding of the value read from them.
pub proof fn lemma_be32(v: u32, s: Seq<u8>, i: int)
    ensures
        be32(v).len() == 4,
        read_be32(be32(v), 0) == v,
        0 <= i && i + 4 <= s.len() ==> be32(read_be32(s, i)) =~= s.subrange(i, i + 4),
{
    if 0 <= i && i + 4 <= s.len() {
        let a = s[i];
        let b = s[i + 1];
        let c = s[i + 2];
        let d = s[i + 3];
        let x = a * 0x100_0000 + b * 0x1_0000 + c * 0x100 + d;
        assert(x / 0x100_0000 == a && (x / 0x1_0000) % 0x100 == b && (x / 0x100) % 0x100 == c
            && x % 0x100 == d) by (nonlinear_arith)
            requires
                x == a * 0x100_0000 + b * 0x1_0000 + c * 0x100 + d,
                0 <= a < 256,
                0 <= b < 256,
                0 <= c < 256,
                0 <= d < 256,
        ;
    }
}

/// Reading back the bytes of `be64(v)` gives `v`, and any eight bytes are the
/// encoding of the value read from them.
pub proof fn lemma_be64(v: u64, s: Seq<u8>, i: int)
    ensures
        be64(v).len() == 8,
        read_be64(be64(v), 0) == v,
        0 <= i && i + 8 <= s.len() ==> be64(read_be64(s, i)) =~= s.subrange(i, i + 8),
{
    let hi = (v / 0x1_0000_0000) as u32;
    let lo = (v % 0x1_0000_0000) as u32;
    lemma_be32(hi, s, i);
    lemma_be32(lo, s, i + 4);
    let e = be64(v);
    assert(e.subrange(0, 4) =~= be32(hi));
    assert(e.subrange(4, 8) =~= be32(lo));
    lemma_read_be32_shift(be32(hi), be32(lo));
    if 0 <= i && i + 8 <= s.len() {
        let h = read_be32(s, i);
        let l = read_be32(s, i + 4);
        let x = read_be64(s, i);
        assert(x / 0x1_0000_0000 == h && x % 0x1_0000_0000 == l) by (nonlinear_arith)
            requires
                x == h * 0x1_0000_0000 + l,
                0 <= l < 0x1_0000_0000,
                0 <= h,
        ;
        assert(be64(x) =~= s.subrange(i, i + 8));
    }
}

proof fn lemma_read_be32_shift(a: Seq<u8>, b: Seq<u8>)
    requires
        a.len() == 4,
        b.len() == 4,
    ensures
        read_be32(a + b, 0) == read_be32(a, 0),
        read_be32(a + b, 4) == read_be32(b, 0),
{
}

/// Values read from a sequence only depend on the bytes they cover.
pub proof fn lemma_read_in_context(pre: Seq<u8>, mid: Seq<u8>, post: Seq<u8>)
    ensures
        mid.len() >= 2 ==> read_be16(pre + mid + post, pre.len() as int) == read_be16(mid, 0),
        mid.len() >= 4 ==> read_be32(pre + mid + post, pre.len() as int) == read_be32(mid, 0),
        mid.len() >= 8 ==> read_be64(pre + mid + post, pre.len() as int) == read_be64(mid, 0),
{
    let s = pre + mid + post;
    let p = pre.len() as int;
    assert forall|k: int| 0 <= k < mid.len() implies #[trigger] s[p + k] == mid[k] by {}
    if mid.len() >= 8 {
        assert(s[p + 4] == mid[4] && s[p + 5] == mid[5] && s[p + 6] == mid[6] && s[p + 7]
            == mid[7]);
    }
    if mid.len() >= 4 {
        assert(s[p] == mid[0] && s[p + 1] == mid[1] && s[p + 2] == mid[2] && s[p + 3] == mid[3]);
    }
    if mid.len() >= 2 {
        assert(s[p] == mid[0] && s[p + 1] == mid[1]);
    }
}

/// Appends the big-endian bytes of `v`.
pub fn push_be16(buf: &mut Vec<u8>, v: u16)
    ensures
        final(buf)@ == old(buf)@ + be16(v),
{
    buf.push((v / 0x100) as u8);
    buf.push((v % 0x100) as u8);
}

/// Appends the big-endian bytes of `v`.
pub fn push_be32(buf: &mut Vec<u8>, v: u32)
    ensures
        final(buf)@ == old(buf)@ + be32(v),
{
    buf.push((v / 0x100_0000) as u8);
    buf.push(((v / 0x1_0000) % 0x100) as u8);
    buf.push(((v / 0x100) % 0x100) as u8);
    buf.push((v % 0x100) as u8);
}

/// Appends the big-endian bytes of `v`.
pub fn push_be64(buf: &mut Vec<u8>, v: u64)
    ensures
        final(buf)@ == old(buf)@ + be64(v),
{
    push_be32(buf, (v / 0x1_0000_0000) as u32);
    push_be32(buf, (v % 0x1_0000_0000) as u32);
}

/// Reads the big-endian 16-bit value at `buf[i..i + 2]`.
pub fn get_be16(buf: &[u8], i: usize) -> (r: u16)
    requires
        i + 2 <= buf.len(),
    ensures
        r == read_be16(buf@, i as int),
{
    buf[i] as u16 * 0x100 + buf[i + 1] as u16
}

/// Reads the big-endian 32-bit value at `buf[i..i + 4]`.
pub fn get_be32(buf: &[u8], i: usize) -> (r: u32)
    requires
        i + 4 <= buf.len(),
    ensures
        r == read_be32(buf@, i as int),
{
    buf[i] as u32 * 0x100_0000 + buf[i + 1] as u32 * 0x1_0000 + buf[i + 2] as u32 * 0x100
        + buf[i + 3] as u32
}

/// Reads the big-endian 64-bit value at `buf[i..i + 8]`.
pub fn get_be64(buf: &[u8], i: usize) -> (r: u64)
    requires
        i + 8 <= buf.len(),
    ensures
        r == read_be64(buf@, i as int),
{
    let hi = get_be32(buf, i);
    let lo = get_be32(buf, i + 4);
    hi as u64 * 0x1_0000_0000 + lo as u64
}

/// Appends all bytes of `src`.
pub fn push_bytes(buf: &mut Vec<u8>, src: &[u8])
    ensures
        final(buf)@ == old(buf)@ + src@,
{
    let ghost start = buf@;
    let n = src.len();
    for i in 0..n
        invariant
            n == src@.len(),
            buf@ == start + src@.subrange(0, i as int),
    {
        buf.push(src[i]);
        assert(src@.subrange(0, i + 1) =~= src@.subrange(0, i as int).push(src@[i as int]));
    }
    assert(src@.subrange(0, n as int) =~= src@);
}

/// Copies `buf[from..to]` into a fresh vector.
pub fn copy_range(buf: &[u8], from: usize, to: usize) -> (r: Vec<u8>)
    requires
        from <= to <= buf@.len(),
    ensures
        r@ == buf@.subrange(from as int, to as int),
{
    let mut r: Vec<u8> = Vec::with_capacity(to - from);
    for i in from..to
        invariant
            from <= to <= buf@.len(),
            r@ == buf@.subrange(from as int, i as int),
    {
        r.push(buf[i]);
        assert(buf@.subrange(from as int, i + 1) =~= buf@.subrange(from as int, i as int).push(
            buf@[i as int],
        ));
    }
    r
}

/// Overwrites the whole of `dst` with `src`.
pub fn copy_into(dst: &mut [u8], src: &Vec<u8>)
    requires
        old(dst)@.len() == src@.len(),
    ensures
        final(dst)@ == src@,
{
    let n = src.len();
    for i in 0..n
        invariant
            n == src@.len(),
            dst@.len() == n,
            forall|k: int| 0 <= k < i ==> dst@[k] == src@[k],
    {
        dst[i] = src[i];
    }
    assert(dst@ =~= src@);
}

} // verus!
