//! Little-endian byte encoding helpers shared by the wire formats.
use vstd::prelude::*;

verus! {

/// The two little-endian bytes of a 16-bit value.
pub open spec fn le16(v: u16) -> Seq<u8> {
    seq![(v % 256) as u8, (v / 256) as u8]
}

/// The four little-endian bytes of a 32-bit value.
pub open spec fn le32(v: u32) -> Seq<u8> {
    seq![(v % 256) as u8, ((v / 256) % 256) as u8, ((v / 65536) % 256) as u8, (v / 16777216) as u8]
}

/// The 16-bit value held little-endian in two bytes.
pub open spec fn from_le16(b0: u8, b1: u8) -> int {
    b0 + 256 * b1
}

/// The 32-bit value held little-endian in four bytes.
pub open spec fn from_le32(b0: u8, b1: u8, b2: u8, b3: u8) -> int {
    b0 + 256 * b1 + 65536 * b2 + 16777216 * b3
}

/// Writes `v` little-endian at `off`, leaving every other byte as it was.
pub fn put_u16_le(buf: &mut Vec<u8>, off: usize, v: u16)
    requires
        off + 2 <= old(buf).len(),
    ensures
        final(buf)@ == old(buf)@.update(off as int, le16(v)[0]).update(off + 1, le16(v)[1]),
{
    buf.set(off, (v % 256) as u8);
    buf.set(off + 1, (v / 256) as u8);
}

/// Writes `v` little-endian at `off`, leaving every other byte as it was.
pub fn put_u32_le(buf: &mut Vec<u8>, off: usize, v: u32)
    requires
        off + 4 <= old(buf).len(),
    ensures
        final(buf)@ == old(buf)@.update(off as int, le32(v)[0]).update(off + 1, le32(v)[1]).update(
            off + 2,
            le32(v)[2],
        ).update(off + 3, le32(v)[3]),
{
    buf.set(off, (v % 256) as u8);
    buf.set(off + 1, ((v / 256) % 256) as u8);
    buf.set(off + 2, ((v / 65536) % 256) as u8);
    buf.set(off + 3, (v / 16777216) as u8);
}

/// Reads the little-endian 16-bit value at `off`.
pub fn get_u16_le(buf: &[u8], off: usize) -> (r: u16)
    requires
        off + 2 <= buf@.len(),
    ensures
        r == from_le16(buf@[off as int], buf@[off + 1]),
{
    buf[off] as u16 + 256 * (buf[off + 1] as u16)
}

/// Reads the little-endian 32-bit value at `off`.
pub fn get_u32_le(buf: &[u8], off: usize) -> (r: u32)
    requires
        off + 4 <= buf@.len(),
    ensures
        r == from_le32(buf@[off as int], buf@[off + 1], buf@[off + 2], buf@[off + 3]),
{
    buf[off] as u32 + 256 * (buf[off + 1] as u32) + 65536 * (buf[off + 2] as u32) + 16777216 * (
    buf[off + 3] as u32)
}

/// `dst` with the `n` bytes at `off` replaced by `src[so..so + n]`.
pub open spec fn spliced(dst: Seq<u8>, off: int, src: Seq<u8>, so: int, n: int) -> Seq<u8> {
    dst.subrange(0, off) + src.subrange(so, so + n) + dst.subrange(off + n, dst.len() as int)
}

/// Copies `n` bytes of `src` from `so` into `dst` at `off`; nothing else changes.
pub fn copy_bytes(dst: &mut Vec<u8>, off: usize, src: &[u8], so: usize, n: usize)
    requires
        off + n <= old(dst).len(),
        so + n <= src@.len(),
    ensures
        final(dst)@ == spliced(old(dst)@, off as int, src@, so as int, n as int),
{
    let mut i: usize = 0;
    while i < n
        invariant
            i <= n,
            off + n <= dst.len(),
            so + n <= src.len(),
            dst@.len() == old(dst)@.len(),
            forall|k: int| 0 <= k < off ==> dst@[k] == old(dst)@[k],
            forall|k: int| off + n <= k < dst@.len() ==> dst@[k] == old(dst)@[k],
            forall|k: int| off <= k < off + i ==> dst@[k] == src@[so + k - off],
        decreases n - i,
    {
        dst.set(off + i, src[so + i]);
        i = i + 1;
    }
    assert(dst@ =~= spliced(old(dst)@, off as int, src@, so as int, n as int));
}

/// Sets the `n` bytes at `off` to `v`; nothing else changes.
pub fn fill_bytes(dst: &mut Vec<u8>, off: usize, n: usize, v: u8)
    requires
        off + n <= old(dst).len(),
    ensures
        final(dst)@.len() == old(dst)@.len(),
        forall|k: int| 0 <= k < final(dst)@.len() ==> final(dst)@[k] == if off <= k < off + n {
            v
        } else {
            old(dst)@[k]
        },
{
    let mut i: usize = 0;
    while i < n
        invariant
            i <= n,
            off + n <= dst.len(),
            dst@.len() == old(dst)@.len(),
            forall|k: int| 0 <= k < dst@.len() ==> dst@[k] == if off <= k < off + i {
                v
            } else {
                old(dst)@[k]
            },
        decreases n - i,
    {
        dst.set(off + i, v);
        i = i + 1;
    }
}

/// A vector of `n` zero bytes.
pub fn zeroed(n: usize) -> (r: Vec<u8>)
    ensures
        r@ == Seq::new(n as nat, |i: int| 0u8),
{
    let mut r: Vec<u8> = Vec::with_capacity(n);
    let mut i: usize = 0;
    while i < n
        invariant
            i <= n,
            r@ == Seq::new(i as nat, |k: int| 0u8),
        decreases n - i,
    {
        r.push(0);
        i = i + 1;
        assert(r@ =~= Seq::new(i as nat, |k: int| 0u8));
    }
    r
}

/// Appends `x` little-endian.
pub fn push_u16_le(v: &mut Vec<u8>, x: u16)
    ensures
        final(v)@ == old(v)@ + le16(x),
{
    v.push((x % 256) as u8);
    v.push((x / 256) as u8);
    assert(v@ =~= old(v)@ + le16(x));
}

/// Appends `x` little-endian.
pub fn push_u32_le(v: &mut Vec<u8>, x: u32)
    ensures
        final(v)@ == old(v)@ + le32(x),
{
    v.push((x % 256) as u8);
    v.push(((x / 256) % 256) as u8);
    v.push(((x / 65536) % 256) as u8);
    v.push((x / 16777216) as u8);
    assert(v@ =~= old(v)@ + le32(x));
}

/// `n` copies of `b`.
pub open spec fn fill_seq(n: nat, b: u8) -> Seq<u8> {
    Seq::new(n, |i: int| b)
}

/// Appends `n` copies of `b`.
pub fn push_fill(v: &mut Vec<u8>, n: usize, b: u8)
    ensures
        final(v)@ == old(v)@ + fill_seq(n as nat, b),
{
    let mut i: usize = 0;
    while i < n
        invariant
            i <= n,
            v@ == old(v)@ + fill_seq(i as nat, b),
        decreases n - i,
    {
        v.push(b);
        i = i + 1;
        assert(v@ =~= old(v)@ + fill_seq(i as nat, b));
    }
}

/// Appends the first `n` bytes of `src`.
pub fn push_bytes(v: &mut Vec<u8>, src: &[u8], n: usize)
    requires
        n <= src@.len(),
    ensures
        final(v)@ == old(v)@ + src@.take(n as int),
{
    let mut i: usize = 0;
    while i < n
        invariant
            i <= n <= src@.len(),
            v@ == old(v)@ + src@.take(i as int),
        decreases n - i,
    {
        v.push(src[i]);
        i = i + 1;
        assert(v@ =~= old(v)@ + src@.take(i as int));
    }
}

} // verus!
