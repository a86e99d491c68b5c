use vstd::prelude::*;

verus! {

/// The byte at `at`, as an integer.
pub open spec fn le8(b: Seq<u8>, at: int) -> int {
    b[at] as int
}

/// The little-endian 16-bit integer stored at `at`.
pub open spec fn le16(b: Seq<u8>, at: int) -> int {
    b[at] as int + b[at + 1] as int * 0x100
}

/// The little-endian 32-bit integer stored at `at`.
pub open spec fn le32(b: Seq<u8>, at: int) -> int {
    le16(b, at) + le16(b, at + 2) * 0x10000
}

/// The big-endian 32-bit integer stored at `at`.
pub open spec fn be32(b: Seq<u8>, at: int) -> int {
    b[at] as int * 0x1000000 + b[at + 1] as int * 0x10000 + b[at + 2] as int * 0x100
        + b[at + 3] as int
}

/// Whether `n` bytes starting at `at` lie inside `b`.
pub open spec fn fits(b: Seq<u8>, at: int, n: int) -> bool {
    0 <= at && 0 <= n && at + n <= b.len()
}

/// Reads the byte at `offset`.
pub fn get_u8(data: &[u8], offset: usize) -> (r: u8)
    requires
        offset < data@.len(),
    ensures
        r as int == le8(data@, offset as int),
{
    data[offset]
}

/// Reads the little-endian `u16` at `offset`.
pub fn get_u16(data: &[u8], offset: usize) -> (r: u16)
    requires
        fits(data@, offset as int, 2),
    ensures
        r as int == le16(data@, offset as int),
{
    data[offset] as u16 + data[offset + 1] as u16 * 0x100
}

/// Reads the little-endian `u32` at `offset`.
pub fn get_u32(data: &[u8], offset: usize) -> (r: u32)
    requires
        fits(data@, offset as int, 4),
    ensures
        r as int == le32(data@, offset as int),
{
    let _n = data.len();
    let lo = get_u16(data, offset) as u32;
    let hi = get_u16(data, offset + 2) as u32;
    lo + hi * 0x10000
}

/// Reads the big-endian `u32` at `offset`.
pub fn get_u32_be(data: &[u8], offset: usize) -> (r: u32)
    requires
        fits(data@, offset as int, 4),
    ensures
        r as int == be32(data@, offset as int),
{
    data[offset] as u32 * 0x1000000 + data[offset + 1] as u32 * 0x10000 + data[offset + 2] as u32
        * 0x100 + data[offset + 3] as u32
}

/// Copies the `len` bytes that start at `start`.
pub fn copy_range(data: &[u8], start: usize, len: usize) -> (r: Vec<u8>)
    requires
        fits(data@, start as int, len as int),
    ensures
        r@ == data@.subrange(start as int, start + len),
{
    let mut r: Vec<u8> = Vec::with_capacity(len);
    let n = data.len();
    let mut i: usize = 0;
    while i < len
        invariant
            n == data@.len(),
            fits(data@, start as int, len as int),
            i <= len,
            r@ == data@.subrange(start as int, start + i),
        decreases len - i,
    {
        r.push(data[start + i]);
        i += 1;
        assert(r@ =~= data@.subrange(start as int, start + i));
    }
    r
}

/// Little-endian bytes of a `u16`.
pub open spec fn u16_le(v: u16) -> Seq<u8> {
    seq![(v % 0x100) as u8, (v / 0x100) as u8]
}

/// Little-endian bytes of a `u32`.
pub open spec fn u32_le(v: u32) -> Seq<u8> {
    seq![
        (v % 0x100) as u8,
        (v / 0x100 % 0x100) as u8,
        (v / 0x10000 % 0x100) as u8,
        (v / 0x1000000) as u8,
    ]
}

/// Big-endian bytes of a `u32`.
pub open spec fn u32_be(v: u32) -> Seq<u8> {
    seq![
        (v / 0x1000000) as u8,
        (v / 0x10000 % 0x100) as u8,
        (v / 0x100 % 0x100) as u8,
        (v % 0x100) as u8,
    ]
}

/// Little-endian bytes of a `u64`.
pub open spec fn u64_le(v: u64) -> Seq<u8> {
    u32_le((v % 0x1_0000_0000) as u32) + u32_le((v / 0x1_0000_0000) as u32)
}

/// `n` zero bytes.
pub open spec fn zeros(n: nat) -> Seq<u8> {
    Seq::new(n, |i: int| 0u8)
}

/// Appends the little-endian bytes of `v`.
pub fn push_u16(out: &mut Vec<u8>, v: u16)
    ensures
        final(out)@ == old(out)@ + u16_le(v),
{
    let ghost start = out@;
    out.push((v % 0x100) as u8);
    out.push((v / 0x100) as u8);
    assert(out@ =~= start + u16_le(v));
}

/// Appends the little-endian bytes of `v`.
pub fn push_u32(out: &mut Vec<u8>, v: u32)
    ensures
        final(out)@ == old(out)@ + u32_le(v),
{
    let ghost start = out@;
    out.push((v % 0x100) as u8);
    out.push((v / 0x100 % 0x100) as u8);
    out.push((v / 0x10000 % 0x100) as u8);
    out.push((v / 0x1000000) as u8);
    assert(out@ =~= start + u32_le(v));
}

/// Appends the big-endian bytes of `v`.
pub fn push_u32_be(out: &mut Vec<u8>, v: u32)
    ensures
        final(out)@ == old(out)@ + u32_be(v),
{
    let ghost start = out@;
    out.push((v / 0x1000000) as u8);
    out.push((v / 0x10000 % 0x100) as u8);
    out.push((v / 0x100 % 0x100) as u8);
    out.push((v % 0x100) as u8);
    assert(out@ =~= start + u32_be(v));
}

/// Appends the little-endian bytes of `v`.
pub fn push_u64(out: &mut Vec<u8>, v: u64)
    ensures
        final(out)@ == old(out)@ + u64_le(v),
{
    let ghost start = out@;
    push_u32(out, (v % 0x1_0000_0000) as u32);
    push_u32(out, (v / 0x1_0000_0000) as u32);
    assert(out@ =~= start + u64_le(v));
}

/// Appends `n` zero bytes.
pub fn push_zeros(out: &mut Vec<u8>, n: usize)
    ensures
        final(out)@ == old(out)@ + zeros(n as nat),
{
    let ghost start = out@;
    let mut i: usize = 0;
    while i < n
        invariant
            i <= n,
            out@ == start + zeros(i as nat),
        decreases n - i,
    {
        out.push(0);
        i += 1;
        assert(out@ =~= start + zeros(i as nat));
    }
}

/// Appends every byte of `src`.
pub fn push_all(out: &mut Vec<u8>, src: &[u8])
    ensures
        final(out)@ == old(out)@ + src@,
{
    let ghost start = out@;
    let mut i: usize = 0;
    while i < src.len()
        invariant
            i <= src@.len(),
            out@ == start + src@.subrange(0, i as int),
        decreases src@.len() - i,
    {
        out.push(src[i]);
        i += 1;
        assert(out@ =~= start + src@.subrange(0, i as int));
    }
    assert(src@.subrange(0, src@.len() as int) =~= src@);
}

} // verus!
