//! Small verified byte-buffer helpers shared by the format modules.
use vstd::prelude::*;

verus! {

/// Appends every byte of `src` to `out`, in order.
pub fn append_bytes(out: &mut Vec<u8>, src: &[u8])
    ensures
        final(out)@ == old(out)@ + src@,
{
    let n = src.len();
    let mut i: usize = 0;
    while i < n
        invariant
            n == src@.len(),
            i <= n,
            out@ == old(out)@ + src@.subrange(0, i as int),
        decreases n - i,
    {
        proof {
            assert(src@.subrange(0, i + 1) == src@.subrange(0, i as int).push(src@[i as int]));
        }
        out.push(src[i]);
        i = i + 1;
    }
    proof {
        assert(src@.subrange(0, n as int) == src@);
    }
}

/// Copies `src[start..end]` into a new vector.
pub fn copy_range(src: &[u8], start: usize, end: usize) -> (r: Vec<u8>)
    requires
        start <= end <= src@.len(),
    ensures
        r@ == src@.subrange(start as int, end as int),
{
    let mut out: Vec<u8> = Vec::new();
    let mut i: usize = start;
    while i < end
        invariant
            start <= i <= end,
            end <= src@.len(),
            out@ == src@.subrange(start as int, i as int),
        decreases end - i,
    {
        proof {
            assert(src@.subrange(start as int, i + 1) == src@.subrange(start as int, i as int).push(
                src@[i as int],
            ));
        }
        out.push(src[i]);
        i = i + 1;
    }
    out
}

/// The big-endian value of two bytes.
pub open spec fn be16(hi: u8, lo: u8) -> int {
    hi as int * 256 + lo as int
}

/// Reads a big-endian `u16` at `pos`.
pub fn read_be16(data: &[u8], pos: usize) -> (r: usize)
    requires
        pos + 2 <= data@.len(),
    ensures
        r == be16(data@[pos as int], data@[pos + 1]),
        r < 65536,
{
    (data[pos] as usize) * 256 + (data[pos + 1] as usize)
}

/// The four little-endian bytes of a 32-bit value.
pub open spec fn le32(v: u32) -> Seq<u8> {
    seq![
        (v % 256) as u8,
        ((v / 256) % 256) as u8,
        ((v / 65536) % 256) as u8,
        ((v / 16777216) % 256) as u8,
    ]
}

/// The three low little-endian bytes of a value (a 24-bit field).
pub open spec fn le24(v: u32) -> Seq<u8> {
    seq![(v % 256) as u8, ((v / 256) % 256) as u8, ((v / 65536) % 256) as u8]
}

/// The value of four little-endian bytes.
pub open spec fn le32_value(b: Seq<u8>) -> int {
    b[0] as int + b[1] as int * 256 + b[2] as int * 65536 + b[3] as int * 16777216
}

/// Reading back the bytes of `le32(v)` gives `v`.
pub proof fn lemma_le32_value(v: u32)
    ensures
        le32_value(le32(v)) == v as int,
{
    let b = le32(v);
    let v0 = v as int;
    assert(b[0] as int == v0 % 256);
    assert(b[1] as int == (v0 / 256) % 256);
    assert(b[2] as int == (v0 / 65536) % 256);
    assert(b[3] as int == v0 / 16777216) by {
        assert(v0 / 16777216 < 256);
    }
    assert(v0 == (v0 / 256) * 256 + v0 % 256);
    assert(v0 / 256 == ((v0 / 256) / 256) * 256 + (v0 / 256) % 256);
    assert((v0 / 256) / 256 == v0 / 65536) by {
        vstd::arithmetic::div_mod::lemma_div_denominator(v0, 256, 256);
    }
    assert(v0 / 65536 == ((v0 / 65536) / 256) * 256 + (v0 / 65536) % 256);
    assert((v0 / 65536) / 256 == v0 / 16777216) by {
        vstd::arithmetic::div_mod::lemma_div_denominator(v0, 65536, 256);
    }
}

/// Appends the four little-endian bytes of `v`.
pub fn push_le32(out: &mut Vec<u8>, v: u32)
    ensures
        final(out)@ == old(out)@ + le32(v),
{
    let ghost prev = out@;
    out.push((v % 256) as u8);
    out.push(((v / 256) % 256) as u8);
    out.push(((v / 65536) % 256) as u8);
    out.push(((v / 16777216) % 256) as u8);
    assert(out@ =~= prev + le32(v));
}

/// Appends the three low little-endian bytes of `v`.
pub fn push_le24(out: &mut Vec<u8>, v: u32)
    ensures
        final(out)@ == old(out)@ + le24(v),
{
    let ghost prev = out@;
    out.push((v % 256) as u8);
    out.push(((v / 256) % 256) as u8);
    out.push(((v / 65536) % 256) as u8);
    assert(out@ =~= prev + le24(v));
}

} // verus!
