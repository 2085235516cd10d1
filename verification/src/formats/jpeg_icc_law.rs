//! The read-back law of JPEG ICC embedding: the profile spliced into a JPEG
//! stream by the encoder is exactly what ICC extraction reads back.
use vstd::prelude::*;
use crate::bytes::be16;
use crate::color::{
    assembled_profile, icc_chunk_of_segment, icc_signature, is_standalone_marker, jpeg_icc_chunks,
    jpeg_icc_profile, payload_with_number, payloads_below,
};
use crate::formats::jpeg::{
    app0_run_end, has_soi, icc_app2_segment, icc_app2_segments, icc_chunk, icc_chunk_count,
    icc_insert_position, icc_segments, jfif_stream, jpeg_with_icc,
};

verus! {

/// Every APP0 segment in the run starting at `pos` declares a length of at
/// least 2 (the length field itself), as JPEG requires.
pub open spec fn app0_lengths_valid(jpeg: Seq<u8>, pos: int) -> bool
    decreases (if pos < jpeg.len() { jpeg.len() - pos } else { 0 }),
{
    if pos < 0 || !(pos + 4 < jpeg.len()) || jpeg[pos] != 0xFF || jpeg[pos + 1] != 0xE0 {
        true
    } else {
        be16(jpeg[pos + 2], jpeg[pos + 3]) >= 2 && app0_lengths_valid(
            jpeg,
            pos + 2 + be16(jpeg[pos + 2], jpeg[pos + 3]),
        )
    }
}

/// The chunks the APP2 segments of `icc` carry, in order: numbers 1 to
/// count, the count, and the payload slices.
pub open spec fn injected_chunks(icc: Seq<u8>) -> Seq<(u8, u8, Seq<u8>)> {
    let count = icc_chunk_count(icc.len() as int);
    Seq::new(
        count as nat,
        |i: int| (((i + 1) % 256) as u8, (count % 256) as u8, icc_chunk(icc, i)),
    )
}

/// Scanning only reads the bytes from the scan position on.
proof fn lemma_scan_suffix(a: Seq<u8>, b: Seq<u8>, k: int)
    requires
        0 <= k,
    ensures
        jpeg_icc_chunks(a + b, a.len() + k) == jpeg_icc_chunks(b, k),
    decreases b.len() - k,
{
    let d = a + b;
    let pos = a.len() + k;
    if k >= b.len() - 1 {
    } else {
        assert(d[pos] == b[k]);
        assert(d[pos + 1] == b[k + 1]);
        if d[pos] != 0xFF {
            lemma_scan_suffix(a, b, k + 1);
        } else {
            let marker = d[pos + 1];
            if is_standalone_marker(marker) {
                lemma_scan_suffix(a, b, k + 2);
            } else if marker == 0xDA || k + 4 > b.len() {
            } else {
                assert(d[pos + 2] == b[k + 2]);
                assert(d[pos + 3] == b[k + 3]);
                let length = be16(b[k + 2], b[k + 3]);
                if length < 2 || k + 4 + length - 2 > b.len() {
                } else {
                    assert(d.subrange(pos + 4, pos + 4 + length - 2) =~= b.subrange(
                        k + 4,
                        k + 4 + length - 2,
                    ));
                    lemma_scan_suffix(a, b, k + 4 + length - 2);
                }
            }
        }
    }
}

proof fn lemma_prefix_index(a: Seq<u8>, b: Seq<u8>, p: int, i: int)
    requires
        p <= a.len(),
        p <= b.len(),
        a.subrange(0, p) == b.subrange(0, p),
        0 <= i < p,
    ensures
        a[i] == b[i],
{
    assert(a.subrange(0, p)[i] == a[i]);
    assert(b.subrange(0, p)[i] == b[i]);
}

/// The chunk-free APP0 run: scanning `out` (which agrees with `jpeg` before
/// the run's end `p`) from any position of the run reaches `p` with no chunk.
proof fn lemma_scan_app0_run(jpeg: Seq<u8>, out: Seq<u8>, q: int, p: int)
    requires
        2 <= q <= p,
        app0_run_end(jpeg, q) == p,
        app0_lengths_valid(jpeg, q),
        p <= jpeg.len(),
        p + 2 <= out.len(),
        out.subrange(0, p) == jpeg.subrange(0, p),
    ensures
        jpeg_icc_chunks(out, q) == jpeg_icc_chunks(out, p),
    decreases p - q,
{
    if q == p {
    } else {
        assert(!(q < 0 || !(q + 4 < jpeg.len()) || jpeg[q] != 0xFF || jpeg[q + 1] != 0xE0));
        let length = be16(jpeg[q + 2], jpeg[q + 3]);
        let next = q + 2 + length;
        crate::formats::jpeg::lemma_app0_run_end_at_least(jpeg, next);
        assert(next <= p);
        assert(length >= 2);
        assert(q + 3 < p);
        lemma_prefix_index(out, jpeg, p, q);
        lemma_prefix_index(out, jpeg, p, q + 1);
        lemma_prefix_index(out, jpeg, p, q + 2);
        lemma_prefix_index(out, jpeg, p, q + 3);
        assert(icc_chunk_of_segment(0xE0, out.subrange(q + 4, next)) is None);
        lemma_scan_app0_run(jpeg, out, next, p);
    }
}

/// Offsets of the APP2 segments: each segment is 18 header bytes plus its
/// chunk, and the segments up to `k` are a prefix of all of them.
proof fn lemma_segments_prefix(icc: Seq<u8>, k: int, n: int, count: int)
    requires
        0 <= k <= n,
    ensures
        icc_app2_segments(icc, n, count).len() >= icc_app2_segments(icc, k, count).len(),
        icc_app2_segments(icc, n, count).subrange(0, icc_app2_segments(icc, k, count).len() as int)
            == icc_app2_segments(icc, k, count),
    decreases n - k,
{
    if k < n {
        lemma_segments_prefix(icc, k, n - 1, count);
        let s = icc_app2_segments(icc, n, count);
        let s1 = icc_app2_segments(icc, n - 1, count);
        let sk = icc_app2_segments(icc, k, count);
        assert(s == s1 + icc_app2_segment(icc, n - 1, count));
        assert(s.subrange(0, sk.len() as int) =~= s1.subrange(0, sk.len() as int));
    } else {
        assert(icc_app2_segments(icc, n, count).subrange(0, icc_app2_segments(icc, n, count).len() as int)
            =~= icc_app2_segments(icc, n, count));
    }
}

/// Chunks below the count are non-empty and at most 65519 bytes.
proof fn lemma_chunk_len(icc: Seq<u8>, i: int)
    requires
        0 <= i < icc_chunk_count(icc.len() as int),
    ensures
        1 <= icc_chunk(icc, i).len() <= 65519,
        icc_chunk(icc, i).len() == (if i * 65519 + 65519 < icc.len() {
            65519
        } else {
            icc.len() - i * 65519
        }),
{
}

/// Reading back the big-endian length field written for a segment.
proof fn lemma_be16_roundtrip(v: int)
    requires
        0 <= v < 65536,
    ensures
        be16((v / 256) as u8, (v % 256) as u8) == v,
{
}

/// Scanning the APP2 segments from segment `k` finds their chunks from `k`
/// on, then whatever follows the segments.
proof fn lemma_scan_segments(out: Seq<u8>, icc: Seq<u8>, p: int, k: int)
    requires
        0 <= p,
        0 <= k <= icc_chunk_count(icc.len() as int),
        p + icc_segments(icc).len() <= out.len(),
        out.subrange(p, p + icc_segments(icc).len()) == icc_segments(icc),
    ensures
        ({
            let count = icc_chunk_count(icc.len() as int);
            jpeg_icc_chunks(out, p + icc_app2_segments(icc, k, count).len()) == injected_chunks(
                icc,
            ).subrange(k, count) + jpeg_icc_chunks(out, p + icc_segments(icc).len())
        }),
    decreases icc_chunk_count(icc.len() as int) - k,
{
    let count = icc_chunk_count(icc.len() as int);
    let all = icc_segments(icc);
    if k == count {
        assert(injected_chunks(icc).subrange(k, count) =~= Seq::<(u8, u8, Seq<u8>)>::empty());
        assert(injected_chunks(icc).subrange(k, count) + jpeg_icc_chunks(out, p + all.len())
            =~= jpeg_icc_chunks(out, p + all.len()));
    } else {
        lemma_scan_segments(out, icc, p, k + 1);
        lemma_segments_prefix(icc, k + 1, count, count);
        lemma_chunk_len(icc, k);
        let sk = icc_app2_segments(icc, k, count);
        let sk1 = icc_app2_segments(icc, k + 1, count);
        let seg = icc_app2_segment(icc, k, count);
        let chunk = icc_chunk(icc, k);
        assert(sk1 == sk + seg);
        let s = p + sk.len();
        let seg_len: int = 16 + chunk.len() as int;
        lemma_be16_roundtrip(seg_len);
        // the segment's bytes sit at `s` in `out`
        assert forall|j: int| 0 <= j < seg.len() implies out[s + j] == seg[j] by {
            assert(all.subrange(0, sk1.len() as int) == sk1);
            assert(sk1[sk.len() + j] == seg[j]);
            assert(all[sk.len() + j] == sk1[sk.len() + j]);
            assert(out.subrange(p, p + all.len())[sk.len() + j] == out[s + j]);
        }
        assert(seg.len() == 18 + chunk.len());
        let hdr = seq![0xFFu8, 0xE2u8, (seg_len / 256) as u8, (seg_len % 256) as u8];
        assert(seg == hdr + icc_signature() + seq![((k + 1) % 256) as u8, (count % 256) as u8] + chunk);
        assert(seg[0] == 0xFF);
        assert(seg[1] == 0xE2);
        assert(seg[2] == (seg_len / 256) as u8);
        assert(seg[3] == (seg_len % 256) as u8);
        assert(out[s + 0] == seg[0]);
        assert(out[s + 1] == seg[1]);
        assert(out[s + 2] == seg[2]);
        assert(out[s + 3] == seg[3]);
        assert(!is_standalone_marker(0xE2));
        let seg_body = out.subrange(s + 4, s + 4 + seg_len - 2);
        assert(seg_body =~= seg.subrange(4, seg.len() as int));
        assert(seg_body.subrange(0, 12) =~= icc_signature());
        assert(seg_body.subrange(14, seg_body.len() as int) =~= chunk);
        assert(icc_chunk_of_segment(0xE2, seg_body) == Some(injected_chunks(icc)[k]));
        assert(s + 4 + seg_len - 2 == p + sk1.len());
        assert(injected_chunks(icc).subrange(k, count) =~= seq![injected_chunks(icc)[k]]
            + injected_chunks(icc).subrange(k + 1, count));
    }
}

/// The payloads numbered `k` among the first `m` injected chunks: chunk
/// `k - 1` when `1 <= k <= m`, else nothing.
proof fn lemma_payload_of_injected(icc: Seq<u8>, m: int, k: u8)
    requires
        0 <= m <= icc_chunk_count(icc.len() as int),
        icc_chunk_count(icc.len() as int) <= 255,
    ensures
        payload_with_number(injected_chunks(icc).take(m), k) == if 1 <= k <= m {
            icc_chunk(icc, k - 1)
        } else {
            Seq::empty()
        },
    decreases m,
{
    let chunks = injected_chunks(icc).take(m);
    if m == 0 {
    } else {
        lemma_payload_of_injected(icc, m - 1, k);
        assert(chunks.drop_last() =~= injected_chunks(icc).take(m - 1));
        let last = chunks.last();
        assert(last.0 == ((m - 1 + 1) % 256) as u8);
        assert(last.0 == m as u8);
        if k == m {
            assert(payload_with_number(chunks, k) =~= Seq::<u8>::empty() + icc_chunk(icc, k - 1));
        } else {
            assert(payload_with_number(chunks, k) =~= payload_with_number(chunks.drop_last(), k)
                + Seq::<u8>::empty());
        }
    }
}

/// The first `m` chunks of a profile concatenate to its first
/// `min(m * 65519, len)` bytes.
proof fn lemma_chunks_concat(icc: Seq<u8>, m: int)
    requires
        0 <= m <= icc_chunk_count(icc.len() as int),
        icc_chunk_count(icc.len() as int) <= 255,
    ensures
        ({
            let end = if m * 65519 < icc.len() {
                m * 65519
            } else {
                icc.len() as int
            };
            payloads_below(injected_chunks(icc), m + 1) == icc.subrange(0, end)
        }),
    decreases m,
{
    let count = icc_chunk_count(icc.len() as int);
    let chunks = injected_chunks(icc);
    assert(chunks.take(count) =~= chunks);
    if m == 0 {
        lemma_payload_of_injected(icc, count, 0);
        assert(payload_with_number(chunks, 0) == Seq::<u8>::empty());
        assert(payloads_below(chunks, 0) == Seq::<u8>::empty());
        assert(((1 - 1) as u8) == 0u8);
        assert(payloads_below(chunks, 1) == payloads_below(chunks, 0) + payload_with_number(chunks, 0));
        assert(payloads_below(chunks, 1) =~= Seq::<u8>::empty());
        assert(icc.subrange(0, 0) =~= Seq::<u8>::empty());
    } else {
        lemma_chunks_concat(icc, m - 1);
        lemma_payload_of_injected(icc, count, m as u8);
        assert((m as u8) as int == m);
        lemma_chunk_len(icc, m - 1);
        let prev_end = (m - 1) * 65519;
        let end = if m * 65519 < icc.len() {
            m * 65519
        } else {
            icc.len() as int
        };
        assert(payloads_below(chunks, m + 1) == payloads_below(chunks, m) + payload_with_number(
            chunks,
            m as u8,
        ));
        assert(icc.subrange(0, prev_end) + icc.subrange(prev_end, end) =~= icc.subrange(0, end));
    }
}

/// A profile of at least 128 bytes (and at most 255 chunks) spliced
/// into a JPEG stream is read back unchanged by ICC extraction, when the
/// stream starts with SOI, its leading APP0 segments are well formed and end
/// inside it, and the rest of the stream carries no ICC chunk of its own.
pub proof fn lemma_injected_profile_reads_back(jpeg: Seq<u8>, icc: Seq<u8>)
    requires
        has_soi(jpeg),
        icc_insert_position(jpeg) <= jpeg.len(),
        app0_lengths_valid(jpeg, 2),
        jpeg_icc_chunks(jpeg, icc_insert_position(jpeg)) == Seq::<(u8, u8, Seq<u8>)>::empty(),
        128 <= icc.len() <= 255 * 65519,
    ensures
        jpeg_icc_profile(jpeg_with_icc(jpeg, icc)) == Some(icc),
{
    let p = icc_insert_position(jpeg);
    let count = icc_chunk_count(icc.len() as int);
    let segs = icc_segments(icc);
    crate::formats::jpeg::lemma_app0_run_end_at_least(jpeg, 2);
    let a = jpeg.subrange(0, p);
    let b = jpeg.subrange(p, jpeg.len() as int);
    let out = jpeg_with_icc(jpeg, icc);
    assert(out == a + segs + b);
    assert(jpeg == a + b);
    assert(count >= 1 && count <= 255);
    // the segments are at least one header long
    lemma_segments_prefix(icc, 1, count, count);
    assert(icc_app2_segments(icc, 0, count) == Seq::<u8>::empty());
    assert(icc_app2_segments(icc, 1, count) == icc_app2_segments(icc, 0, count) + icc_app2_segment(
        icc,
        0,
        count,
    ));
    assert(icc_app2_segment(icc, 0, count).len() >= 18);
    assert(segs.len() >= 18);
    // the prefix and the segments sit where expected
    assert(out.subrange(0, p) =~= a);
    assert(out.subrange(p, p + segs.len()) =~= segs);
    // what follows the segments scans like the rest of the original stream
    lemma_scan_suffix(a + segs, b, 0);
    lemma_scan_suffix(a, b, 0);
    assert(jpeg_icc_chunks(out, p + segs.len()) == Seq::<(u8, u8, Seq<u8>)>::empty());
    // SOI, then the APP0 run
    assert(out[0] == jpeg[0] && out[1] == jpeg[1]) by {
        lemma_prefix_index(out, jpeg, p, 0);
        lemma_prefix_index(out, jpeg, p, 1);
    }
    assert(jpeg_icc_chunks(out, 0) == jpeg_icc_chunks(out, 2));
    lemma_scan_app0_run(jpeg, out, 2, p);
    // the APP2 segments
    lemma_scan_segments(out, icc, p, 0);
    assert(icc_app2_segments(icc, 0, count).len() == 0);
    let chunks = injected_chunks(icc);
    assert(chunks.subrange(0, count) =~= chunks);
    assert(jpeg_icc_chunks(out, 0) =~= chunks);
    // reassembly
    lemma_chunks_concat(icc, count);
    assert(icc.subrange(0, icc.len() as int) =~= icc);
    lemma_payloads_beyond_count(icc, 256);
}

/// Numbers above the chunk count carry no payload.
proof fn lemma_payloads_beyond_count(icc: Seq<u8>, n: int)
    requires
        icc_chunk_count(icc.len() as int) + 1 <= n <= 256,
        icc_chunk_count(icc.len() as int) <= 255,
    ensures
        payloads_below(injected_chunks(icc), n) == payloads_below(
            injected_chunks(icc),
            icc_chunk_count(icc.len() as int) + 1,
        ),
    decreases n,
{
    let count = icc_chunk_count(icc.len() as int);
    let chunks = injected_chunks(icc);
    if n > count + 1 {
        lemma_payloads_beyond_count(icc, n - 1);
        assert(chunks.take(count) =~= chunks);
        lemma_payload_of_injected(icc, count, (n - 1) as u8);
        assert(payloads_below(chunks, n) =~= payloads_below(chunks, n - 1) + Seq::<u8>::empty());
    }
}

/// A stream with libjpeg's outline has its ICC insertion point right after
/// the JFIF APP0 segment (byte 20), well-formed APP0 lengths, no ICC chunk
/// from there on, and so no profile of its own.
pub proof fn lemma_jfif_stream_layout(c: Seq<u8>)
    requires
        jfif_stream(c),
    ensures
        has_soi(c),
        icc_insert_position(c) == 20,
        app0_lengths_valid(c, 2),
        jpeg_icc_chunks(c, 20) == Seq::<(u8, u8, Seq<u8>)>::empty(),
        jpeg_icc_profile(c) is None,
{
    let head = c.subrange(0, 6);
    assert(c[0] == head[0] && c[1] == head[1] && c[2] == head[2] && c[3] == head[3]);
    assert(c[4] == head[4] && c[5] == head[5]);
    assert(be16(c[4], c[5]) == 16);
    assert(app0_run_end(c, 20) == 20);
    assert(app0_run_end(c, 2) == app0_run_end(c, 20));
    assert(app0_lengths_valid(c, 20));
    assert(is_standalone_marker(0xD8));
    assert(jpeg_icc_chunks(c, 0) == jpeg_icc_chunks(c, 2));
    assert(icc_chunk_of_segment(0xE0, c.subrange(6, 20)) is None);
    assert(jpeg_icc_chunks(c, 2) == jpeg_icc_chunks(c, 20));
}

/// A profile of at least 128 bytes (and at most 255 chunks) spliced into a
/// stream with libjpeg's outline reads back unchanged.
pub proof fn lemma_encoder_profile_reads_back(c: Seq<u8>, icc: Seq<u8>)
    requires
        jfif_stream(c),
        128 <= icc.len() <= 255 * 65519,
    ensures
        jpeg_icc_profile(jpeg_with_icc(c, icc)) == Some(icc),
{
    lemma_jfif_stream_layout(c);
    lemma_injected_profile_reads_back(c, icc);
}

} // verus!
