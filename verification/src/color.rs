//! Color space detection: ICC profile extraction from JPEG APP2 segments,
//! classification of profiles, and the decision whether pixels need a
//! color transform.
use vstd::prelude::*;
use moxcms::{ColorProfile, Layout, TransformOptions};
use crate::bytes::{be16, copy_range, append_bytes, read_be16};
use crate::error::ImageError;

verus! {

/// Detected source color space.
#[derive(Debug, Clone, Copy, PartialEq, Eq, Structural)]
pub enum SourceColorSpace {
    /// Standard sRGB (most common)
    Srgb,
    /// Adobe RGB (1998)
    AdobeRgb,
    /// Display P3
    DisplayP3,
    /// Unknown/custom profile (handled via its ICC data)
    Custom,
}

/// Color space metadata extracted from an image.
#[derive(Debug, Clone)]
pub struct ColorSpaceInfo {
    /// Detected color space
    pub space: SourceColorSpace,
    /// Raw ICC profile bytes (if present)
    pub icc_profile: Option<Vec<u8>>,
}

impl Default for ColorSpaceInfo {
    fn default() -> (r: Self)
        ensures
            r.space == SourceColorSpace::Srgb,
            r.icc_profile is None,
    {
        ColorSpaceInfo { space: SourceColorSpace::Srgb, icc_profile: None }
    }
}

// ---------------------------------------------------------------------------
// ICC profile extraction from JPEG APP2 segments
// ---------------------------------------------------------------------------

/// One `ICC_PROFILE` APP2 chunk: its sequence number, the announced chunk
/// count, and its payload.
#[derive(Debug, Clone)]
pub struct IccChunk {
    pub number: u8,
    pub total: u8,
    pub data: Vec<u8>,
}

/// A chunk as a mathematical value.
pub open spec fn chunk_view(c: IccChunk) -> (u8, u8, Seq<u8>) {
    (c.number, c.total, c.data@)
}

pub open spec fn chunks_view(cs: Seq<IccChunk>) -> Seq<(u8, u8, Seq<u8>)> {
    cs.map_values(|c: IccChunk| chunk_view(c))
}

/// The 12-byte APP2 identifier `"ICC_PROFILE\0"`.
pub open spec fn icc_signature() -> Seq<u8> {
    seq![0x49u8, 0x43, 0x43, 0x5F, 0x50, 0x52, 0x4F, 0x46, 0x49, 0x4C, 0x45, 0x00]
}

/// Markers that carry no length field: TEM, RST0-7, SOI, EOI and stuffed 0x00.
pub open spec fn is_standalone_marker(marker: u8) -> bool {
    marker == 0x00 || marker == 0x01 || (0xD0 <= marker && marker <= 0xD9)
}

/// The ICC chunk carried by a segment, if it is an APP2 `ICC_PROFILE` segment
/// with more than the 14 header bytes.
pub open spec fn icc_chunk_of_segment(marker: u8, seg: Seq<u8>) -> Option<(u8, u8, Seq<u8>)> {
    if marker == 0xE2 && seg.len() > 14 && seg.subrange(0, 12) == icc_signature() {
        Some((seg[12], seg[13], seg.subrange(14, seg.len() as int)))
    } else {
        None
    }
}

/// The ICC chunks found by scanning JPEG header segments from byte `pos`:
/// bytes other than 0xFF are skipped, standalone markers are skipped, the
/// scan stops at SOS (0xDA) or at a truncated or malformed length field, and
/// every other marker's segment is stepped over by its big-endian length.
pub open spec fn jpeg_icc_chunks(data: Seq<u8>, pos: int) -> Seq<(u8, u8, Seq<u8>)>
    decreases data.len() - pos,
{
    if pos < 0 || pos >= data.len() - 1 {
        Seq::empty()
    } else if data[pos] != 0xFF {
        jpeg_icc_chunks(data, pos + 1)
    } else {
        let marker = data[pos + 1];
        let p = pos + 2;
        if is_standalone_marker(marker) {
            jpeg_icc_chunks(data, p)
        } else if marker == 0xDA || p + 2 > data.len() {
            Seq::empty()
        } else {
            let length = be16(data[p], data[p + 1]);
            let q = p + 2;
            if length < 2 || q + length - 2 > data.len() {
                Seq::empty()
            } else {
                let seg = data.subrange(q, q + length - 2);
                let rest = jpeg_icc_chunks(data, q + length - 2);
                match icc_chunk_of_segment(marker, seg) {
                    Some(c) => seq![c] + rest,
                    None => rest,
                }
            }
        }
    }
}

/// Whether the header scan from `pos` reaches a start-of-scan marker
/// (`FF DA`) reading only bytes of `h`: every segment before it is whole and
/// well formed within `h`.
pub open spec fn scan_reaches_sos(h: Seq<u8>, pos: int) -> bool
    decreases h.len() - pos,
{
    if pos < 0 || pos + 1 >= h.len() {
        false
    } else if h[pos] != 0xFF {
        scan_reaches_sos(h, pos + 1)
    } else {
        let marker = h[pos + 1];
        let p = pos + 2;
        if is_standalone_marker(marker) {
            scan_reaches_sos(h, p)
        } else if marker == 0xDA {
            true
        } else if p + 2 > h.len() {
            false
        } else {
            let length = be16(h[p], h[p + 1]);
            let q = p + 2;
            if length < 2 || q + length - 2 > h.len() {
                false
            } else {
                scan_reaches_sos(h, q + length - 2)
            }
        }
    }
}

/// Nothing after the first start-of-scan marker matters to ICC extraction:
/// when the scan of `h` reaches SOS within `h`, any two continuations of
/// `h` give the same chunks, and so the same profile.
pub proof fn lemma_bytes_after_sos_ignored(h: Seq<u8>, t1: Seq<u8>, t2: Seq<u8>, pos: int)
    requires
        0 <= pos,
        scan_reaches_sos(h, pos),
    ensures
        jpeg_icc_chunks(h + t1, pos) == jpeg_icc_chunks(h + t2, pos),
        pos == 0 ==> jpeg_icc_profile(h + t1) == jpeg_icc_profile(h + t2),
    decreases h.len() - pos,
{
    let a = h + t1;
    let b = h + t2;
    assert(a[pos] == h[pos] && b[pos] == h[pos]);
    assert(a[pos + 1] == h[pos + 1] && b[pos + 1] == h[pos + 1]);
    if h[pos] != 0xFF {
        lemma_bytes_after_sos_ignored(h, t1, t2, pos + 1);
    } else {
        let marker = h[pos + 1];
        let p = pos + 2;
        if is_standalone_marker(marker) {
            lemma_bytes_after_sos_ignored(h, t1, t2, p);
        } else if marker == 0xDA {
        } else {
            assert(a[p] == h[p] && b[p] == h[p]);
            assert(a[p + 1] == h[p + 1] && b[p + 1] == h[p + 1]);
            let length = be16(h[p], h[p + 1]);
            let q = p + 2;
            assert(a.subrange(q, q + length - 2) =~= h.subrange(q, q + length - 2));
            assert(b.subrange(q, q + length - 2) =~= h.subrange(q, q + length - 2));
            lemma_bytes_after_sos_ignored(h, t1, t2, q + length - 2);
        }
    }
}

/// The scan depends only on the bytes from its position on: two streams
/// that end in the same bytes, scanned from the same offset into them, give
/// the same chunks.
proof fn lemma_scan_ignores_prefix(a: Seq<u8>, b: Seq<u8>, r: Seq<u8>, k: int)
    requires
        0 <= k,
    ensures
        jpeg_icc_chunks(a + r, a.len() + k) == jpeg_icc_chunks(b + r, b.len() + k),
    decreases r.len() - k,
{
    let da = a + r;
    let db = b + r;
    let pa = a.len() + k;
    let pb = b.len() + k;
    if k >= r.len() - 1 {
    } else {
        assert(da[pa] == r[k] && db[pb] == r[k]);
        assert(da[pa + 1] == r[k + 1] && db[pb + 1] == r[k + 1]);
        if r[k] != 0xFF {
            lemma_scan_ignores_prefix(a, b, r, k + 1);
        } else {
            let marker = r[k + 1];
            if is_standalone_marker(marker) {
                lemma_scan_ignores_prefix(a, b, r, k + 2);
            } else if marker == 0xDA || k + 4 > r.len() {
            } else {
                assert(da[pa + 2] == r[k + 2] && db[pb + 2] == r[k + 2]);
                assert(da[pa + 3] == r[k + 3] && db[pb + 3] == r[k + 3]);
                let length = be16(r[k + 2], r[k + 3]);
                if length < 2 || k + 4 + length - 2 > r.len() {
                } else {
                    assert(da.subrange(pa + 4, pa + 4 + length - 2) =~= r.subrange(
                        k + 4,
                        k + 4 + length - 2,
                    ));
                    assert(db.subrange(pb + 4, pb + 4 + length - 2) =~= r.subrange(
                        k + 4,
                        k + 4 + length - 2,
                    ));
                    lemma_scan_ignores_prefix(a, b, r, k + 4 + length - 2);
                }
            }
        }
    }
}

/// Header segments other than start-of-scan are stepped over by their
/// length: after SOI, a segment with any marker `m` that carries a length
/// field (neither standalone nor SOS), and that is not an APP2 segment,
/// contributes nothing and does not end the scan, so the chunks (and the
/// profile) are those of the stream without it. In particular an Exif APP1
/// segment before the ICC chunks does not hide them.
pub proof fn lemma_header_segment_skipped(m: u8, body: Seq<u8>, rest: Seq<u8>)
    requires
        m != 0xDA,
        m != 0xE2,
        m != 0x00,
        m != 0x01,
        !(0xD0 <= m <= 0xD9),
        body.len() + 2 < 65536,
    ensures
        ({
            let len = body.len() + 2;
            let with_segment = seq![0xFFu8, 0xD8, 0xFF, m, (len / 256) as u8, (len % 256) as u8]
                + body + rest;
            let without = seq![0xFFu8, 0xD8] + rest;
            &&& jpeg_icc_chunks(with_segment, 0) == jpeg_icc_chunks(without, 0)
            &&& jpeg_icc_profile(with_segment) == jpeg_icc_profile(without)
        }),
{
    let len = body.len() + 2;
    let head = seq![0xFFu8, 0xD8, 0xFF, m, (len / 256) as u8, (len % 256) as u8] + body;
    let with_segment = head + rest;
    let without = seq![0xFFu8, 0xD8] + rest;
    assert(seq![0xFFu8, 0xD8, 0xFF, m, (len / 256) as u8, (len % 256) as u8] + body + rest
        =~= with_segment);
    assert(with_segment[0] == 0xFF && with_segment[1] == 0xD8);
    assert(with_segment[2] == 0xFF && with_segment[3] == m);
    assert(with_segment[4] == (len / 256) as u8 && with_segment[5] == (len % 256) as u8);
    assert(be16((len / 256) as u8, (len % 256) as u8) == len);
    assert(with_segment.subrange(6, 6 + len - 2) =~= body);
    lemma_scan_ignores_prefix(head, seq![0xFFu8, 0xD8], rest, 0);
    assert(jpeg_icc_chunks(with_segment, 2) == jpeg_icc_chunks(with_segment, 6 + len - 2));
    if rest.len() == 0 {
        assert(jpeg_icc_chunks(without, 0) == Seq::<(u8, u8, Seq<u8>)>::empty());
    } else {
        assert(without[0] == 0xFF && without[1] == 0xD8);
    }
}

/// Concatenation of the payloads of the chunks numbered `k`, in their order./// Concatenation of the payloads of the chunks numbered `k`, in their order.
pub open spec fn payload_with_number(chunks: Seq<(u8, u8, Seq<u8>)>, k: u8) -> Seq<u8>
    decreases chunks.len(),
{
    if chunks.len() == 0 {
        Seq::empty()
    } else {
        let last = chunks.last();
        payload_with_number(chunks.drop_last(), k) + if last.0 == k {
            last.2
        } else {
            Seq::empty()
        }
    }
}

/// Payloads of the chunks numbered below `n`, ordered by chunk number and,
/// among equal numbers, by position (a stable sort by number).
pub open spec fn payloads_below(chunks: Seq<(u8, u8, Seq<u8>)>, n: int) -> Seq<u8>
    decreases n,
{
    if n <= 0 {
        Seq::empty()
    } else {
        payloads_below(chunks, n - 1) + payload_with_number(chunks, (n - 1) as u8)
    }
}

/// The reassembled profile: all chunk payloads ordered by chunk number.
pub open spec fn assembled_profile(chunks: Seq<(u8, u8, Seq<u8>)>) -> Seq<u8> {
    payloads_below(chunks, 256)
}

/// What `extract_icc_from_jpeg` returns: the reassembled profile when at least
/// one chunk was found and the profile is at least 128 bytes (an ICC header).
pub open spec fn jpeg_icc_profile(data: Seq<u8>) -> Option<Seq<u8>> {
    let chunks = jpeg_icc_chunks(data, 0);
    if chunks.len() == 0 {
        None
    } else if assembled_profile(chunks).len() >= 128 {
        Some(assembled_profile(chunks))
    } else {
        None
    }
}

pub open spec fn opt_bytes_view(o: Option<Vec<u8>>) -> Option<Seq<u8>> {
    match o {
        Some(v) => Some(v@),
        None => None,
    }
}

/// Whether `data[start..start + 12]` is the ICC APP2 identifier.
pub(crate) fn has_icc_signature(data: &[u8], start: usize) -> (r: bool)
    requires
        start + 12 <= data@.len(),
    ensures
        r == (data@.subrange(start as int, start + 12) == icc_signature()),
{
    let r = data[start] == 0x49 && data[start + 1] == 0x43 && data[start + 2] == 0x43
        && data[start + 3] == 0x5F && data[start + 4] == 0x50 && data[start + 5] == 0x52
        && data[start + 6] == 0x4F && data[start + 7] == 0x46 && data[start + 8] == 0x49
        && data[start + 9] == 0x4C && data[start + 10] == 0x45 && data[start + 11] == 0x00;
    proof {
        let s = data@.subrange(start as int, start + 12);
        if r {
            assert(s =~= icc_signature());
        } else {
            if s == icc_signature() {
                assert(s[0] == data@[start as int]);
                assert(s[1] == data@[start + 1]);
                assert(s[2] == data@[start + 2]);
                assert(s[3] == data@[start + 3]);
                assert(s[4] == data@[start + 4]);
                assert(s[5] == data@[start + 5]);
                assert(s[6] == data@[start + 6]);
                assert(s[7] == data@[start + 7]);
                assert(s[8] == data@[start + 8]);
                assert(s[9] == data@[start + 9]);
                assert(s[10] == data@[start + 10]);
                assert(s[11] == data@[start + 11]);
            }
        }
    }
    r
}

/// Scans the JPEG header segments and collects the ICC chunks in file order.
fn scan_icc_chunks(data: &[u8]) -> (r: Vec<IccChunk>)
    requires
        data@.len() >= 1,
    ensures
        chunks_view(r@) == jpeg_icc_chunks(data@, 0),
{
    let len = data.len();
    let mut chunks: Vec<IccChunk> = Vec::new();
    let mut pos: usize = 0;
    while pos < len - 1
        invariant_except_break
            len == data@.len(),
            len >= 1,
            pos <= len,
            chunks_view(chunks@) + jpeg_icc_chunks(data@, pos as int) == jpeg_icc_chunks(data@, 0),
        ensures
            chunks_view(chunks@) == jpeg_icc_chunks(data@, 0),
        decreases len - pos,
    {
        let ghost old_pos = pos as int;
        let ghost old_view = chunks_view(chunks@);
        if data[pos] != 0xFF {
            pos = pos + 1;
            continue;
        }
        let marker = data[pos + 1];
        pos = pos + 2;
        if marker == 0x00 || marker == 0x01 || (0xD0 <= marker && marker <= 0xD9) {
            continue;
        }
        if marker == 0xDA {
            proof {
                assert(chunks_view(chunks@) + Seq::<(u8, u8, Seq<u8>)>::empty() == chunks_view(chunks@));
            }
            break;
        }
        if len < 2 || pos > len - 2 {
            proof {
                assert(chunks_view(chunks@) + Seq::<(u8, u8, Seq<u8>)>::empty() == chunks_view(chunks@));
            }
            break;
        }
        let length = read_be16(data, pos);
        pos = pos + 2;
        if length < 2 || length - 2 > len - pos {
            proof {
                assert(chunks_view(chunks@) + Seq::<(u8, u8, Seq<u8>)>::empty() == chunks_view(chunks@));
            }
            break;
        }
        let seg_start = pos;
        let seg_end = pos + (length - 2);
        pos = seg_end;
        let ghost seg = data@.subrange(seg_start as int, seg_end as int);
        if marker == 0xE2 && length - 2 > 14 {
            if has_icc_signature(data, seg_start) {
                proof {
                    assert(seg.subrange(0, 12) =~= data@.subrange(seg_start as int, seg_start + 12));
                }
                let number = data[seg_start + 12];
                let total = data[seg_start + 13];
                let payload = copy_range(data, seg_start + 14, seg_end);
                proof {
                    assert(payload@ =~= seg.subrange(14, seg.len() as int));
                }
                let chunk = IccChunk { number, total, data: payload };
                chunks.push(chunk);
                proof {
                    let c = chunk_view(chunk);
                    assert(icc_chunk_of_segment(marker, seg) == Some(c));
                    assert(chunks_view(chunks@) =~= old_view.push(c));
                    assert(old_view + (seq![c] + jpeg_icc_chunks(data@, pos as int)) =~= old_view.push(
                        c,
                    ) + jpeg_icc_chunks(data@, pos as int));
                }
            } else {
                proof {
                    assert(seg.subrange(0, 12) =~= data@.subrange(seg_start as int, seg_start + 12));
                }
            }
        }
    }
    chunks
}

/// Concatenates the payloads of chunks numbered `k`, in order.
fn append_payloads_with_number(out: &mut Vec<u8>, chunks: &Vec<IccChunk>, k: u8)
    ensures
        final(out)@ == old(out)@ + payload_with_number(chunks_view(chunks@), k),
{
    let n = chunks.len();
    let mut i: usize = 0;
    while i < n
        invariant
            n == chunks@.len(),
            i <= n,
            out@ == old(out)@ + payload_with_number(chunks_view(chunks@).take(i as int), k),
        decreases n - i,
    {
        proof {
            let cv = chunks_view(chunks@);
            assert(cv.take(i + 1).drop_last() =~= cv.take(i as int));
            assert(cv.take(i + 1).last() == chunk_view(chunks@[i as int]));
        }
        if chunks[i].number == k {
            append_bytes(out, chunks[i].data.as_slice());
        }
        proof {
            let cv = chunks_view(chunks@);
            if chunks@[i as int].number != k {
                assert(payload_with_number(cv.take(i + 1), k) =~= payload_with_number(
                    cv.take(i as int),
                    k,
                ) + Seq::<u8>::empty());
            }
        }
        i = i + 1;
    }
    proof {
        assert(chunks_view(chunks@).take(n as int) =~= chunks_view(chunks@));
    }
}

/// Reassembles the profile: payloads ordered by chunk number, stably.
fn assemble_icc_profile(chunks: &Vec<IccChunk>) -> (r: Vec<u8>)
    ensures
        r@ == assembled_profile(chunks_view(chunks@)),
{
    let mut out: Vec<u8> = Vec::new();
    let mut k: u16 = 0;
    while k < 256
        invariant
            k <= 256,
            out@ == payloads_below(chunks_view(chunks@), k as int),
        decreases 256 - k,
    {
        append_payloads_with_number(&mut out, chunks, k as u8);
        k = k + 1;
    }
    out
}

/// Extracts the ICC profile stored in a JPEG's `ICC_PROFILE` APP2 segments.
///
/// Segments are scanned up to the start of scan; chunks are concatenated in
/// chunk-number order. Returns `None` when no chunk is found or the result is
/// shorter than an ICC header (128 bytes).
pub fn extract_icc_from_jpeg(data: &[u8]) -> (r: Option<Vec<u8>>)
    requires
        data@.len() >= 1,
    ensures
        opt_bytes_view(r) == jpeg_icc_profile(data@),
{
    let chunks = scan_icc_chunks(data);
    if chunks.len() == 0 {
        return None;
    }
    let profile = assemble_icc_profile(&chunks);
    if profile.len() >= 128 {
        Some(profile)
    } else {
        None
    }
}


// ---------------------------------------------------------------------------
// Color space detection from an ICC profile
// ---------------------------------------------------------------------------

/// The description text of an ICC profile, in the three forms the profile
/// format has: a plain string, localized strings, or a text description.
#[derive(Debug, Clone)]
pub enum ProfileDescription {
    Plain(String),
    Localized(Vec<String>),
    Ascii(String),
}

/// The text a description carries: the plain string, the first localized
/// string, or the ASCII description.
pub open spec fn description_text(d: ProfileDescription) -> Option<Seq<char>> {
    match d {
        ProfileDescription::Plain(s) => Some(s@),
        ProfileDescription::Localized(v) => if v@.len() > 0 {
            Some(v@[0]@)
        } else {
            None
        },
        ProfileDescription::Ascii(s) => Some(s@),
    }
}

/// Extracts the text from a profile description.
pub fn profile_text_to_string(text: ProfileDescription) -> (r: Option<String>)
    ensures
        match r {
            Some(s) => description_text(text) == Some(s@),
            None => description_text(text) is None,
        },
{
    match text {
        ProfileDescription::Plain(s) => Some(s),
        ProfileDescription::Localized(mut locales) => {
            if locales.len() > 0 {
                Some(locales.remove(0))
            } else {
                None
            }
        },
        ProfileDescription::Ascii(s) => Some(s),
    }
}

/// Whether `needle` occurs in `hay` as a contiguous run.
pub open spec fn has_substring(hay: Seq<char>, needle: Seq<char>) -> bool {
    exists|i: int| 0 <= i && i + needle.len() <= hay.len() && #[trigger] hay.subrange(i, i + needle.len()) == needle
}

/// Whether `needle` occurs at position `i` of `hay`.
fn occurs_at(hay: &Vec<char>, needle: &[char], i: usize) -> (r: bool)
    requires
        i + needle@.len() <= hay@.len(),
    ensures
        r == (hay@.subrange(i as int, i + needle@.len()) == needle@),
{
    let n = needle.len();
    let hl = hay.len();
    let mut k: usize = 0;
    while k < n
        invariant
            n == needle@.len(),
            hl == hay@.len(),
            i + n <= hay@.len(),
            k <= n,
            hay@.subrange(i as int, i + k) == needle@.subrange(0, k as int),
        decreases n - k,
    {
        if hay[i + k] != needle[k] {
            proof {
                if hay@.subrange(i as int, i + n) == needle@ {
                    assert(hay@.subrange(i as int, i + n)[k as int] == hay@[i + k]);
                }
            }
            return false;
        }
        proof {
            assert(hay@.subrange(i as int, i + k + 1) =~= needle@.subrange(0, k + 1));
        }
        k = k + 1;
    }
    proof {
        assert(needle@.subrange(0, n as int) =~= needle@);
    }
    true
}

/// Substring search over characters.
fn contains_chars(hay: &Vec<char>, needle: &[char]) -> (r: bool)
    ensures
        r == has_substring(hay@, needle@),
{
    let n = needle.len();
    if n > hay.len() {
        return false;
    }
    let last = hay.len() - n;
    let mut i: usize = 0;
    while i <= last
        invariant
            n == needle@.len(),
            last + n == hay@.len(),
            forall|j: int| 0 <= j < i ==> #[trigger] hay@.subrange(j, j + n) != needle@,
        decreases last + 1 - i,
    {
        if occurs_at(hay, needle, i) {
            return true;
        }
        if i == last {
            proof {
                assert forall|j: int| 0 <= j && j + needle@.len() <= hay@.len() implies #[trigger] hay@.subrange(j, j + needle@.len()) != needle@ by {
                    assert(j <= last);
                }
            }
            return false;
        }
        i = i + 1;
    }
    proof {
        assert forall|j: int| 0 <= j && j + needle@.len() <= hay@.len() implies #[trigger] hay@.subrange(j, j + needle@.len()) != needle@ by {
            assert(j <= last);
        }
    }
    false
}

pub open spec fn chars_p3() -> Seq<char> {
    seq!['p', '3']
}

pub open spec fn chars_display_p3() -> Seq<char> {
    seq!['d', 'i', 's', 'p', 'l', 'a', 'y', ' ', 'p', '3']
}

pub open spec fn chars_adobe_rgb() -> Seq<char> {
    seq!['a', 'd', 'o', 'b', 'e', ' ', 'r', 'g', 'b']
}

pub open spec fn chars_adobergb() -> Seq<char> {
    seq!['a', 'd', 'o', 'b', 'e', 'r', 'g', 'b']
}

pub open spec fn chars_srgb() -> Seq<char> {
    seq!['s', 'r', 'g', 'b']
}

pub open spec fn chars_iec61966() -> Seq<char> {
    seq!['i', 'e', 'c', '6', '1', '9', '6', '6']
}

/// The color space a lowercased profile description names: any mention of
/// "p3" is Display P3, then "adobe rgb"/"adobergb" is Adobe RGB, then
/// "srgb"/"iec61966" is sRGB; anything else is a custom profile.
pub open spec fn color_space_of_lowercase(d: Seq<char>) -> SourceColorSpace {
    if has_substring(d, chars_display_p3()) || has_substring(d, chars_p3()) {
        SourceColorSpace::DisplayP3
    } else if has_substring(d, chars_adobe_rgb()) || has_substring(d, chars_adobergb()) {
        SourceColorSpace::AdobeRgb
    } else if has_substring(d, chars_srgb()) || has_substring(d, chars_iec61966()) {
        SourceColorSpace::Srgb
    } else {
        SourceColorSpace::Custom
    }
}

/// The text of an optional description.
pub open spec fn optional_description_text(desc: Option<ProfileDescription>) -> Option<Seq<char>> {
    match desc {
        Some(d) => description_text(d),
        None => None,
    }
}

/// The color space a parsed profile's description names; a profile without
/// usable description text is custom.
pub open spec fn color_space_of_description(desc: Option<ProfileDescription>) -> SourceColorSpace {
    match optional_description_text(desc) {
        Some(t) => color_space_of_lowercase(text_to_lowercase(t)),
        None => SourceColorSpace::Custom,
    }
}

/// Classifies a parsed profile by its description text.
pub fn classify_profile_description(desc: Option<ProfileDescription>) -> (r: SourceColorSpace)
    ensures
        r == color_space_of_description(desc),
{
    let text = match desc {
        Some(d) => profile_text_to_string(d),
        None => None,
    };
    let desc_text = match text {
        Some(t) => t,
        None => {
            return SourceColorSpace::Custom;
        },
    };
    let lower = lowercase_chars(&desc_text);
    if contains_chars(&lower, &['d', 'i', 's', 'p', 'l', 'a', 'y', ' ', 'p', '3']) || contains_chars(
        &lower,
        &['p', '3'],
    ) {
        proof {
            assert(['d', 'i', 's', 'p', 'l', 'a', 'y', ' ', 'p', '3']@ =~= chars_display_p3());
            assert(['p', '3']@ =~= chars_p3());
        }
        return SourceColorSpace::DisplayP3;
    }
    proof {
        assert(['d', 'i', 's', 'p', 'l', 'a', 'y', ' ', 'p', '3']@ =~= chars_display_p3());
        assert(['p', '3']@ =~= chars_p3());
    }
    if contains_chars(&lower, &['a', 'd', 'o', 'b', 'e', ' ', 'r', 'g', 'b']) || contains_chars(
        &lower,
        &['a', 'd', 'o', 'b', 'e', 'r', 'g', 'b'],
    ) {
        proof {
            assert(['a', 'd', 'o', 'b', 'e', ' ', 'r', 'g', 'b']@ =~= chars_adobe_rgb());
            assert(['a', 'd', 'o', 'b', 'e', 'r', 'g', 'b']@ =~= chars_adobergb());
        }
        return SourceColorSpace::AdobeRgb;
    }
    proof {
        assert(['a', 'd', 'o', 'b', 'e', ' ', 'r', 'g', 'b']@ =~= chars_adobe_rgb());
        assert(['a', 'd', 'o', 'b', 'e', 'r', 'g', 'b']@ =~= chars_adobergb());
    }
    if contains_chars(&lower, &['s', 'r', 'g', 'b']) || contains_chars(
        &lower,
        &['i', 'e', 'c', '6', '1', '9', '6', '6'],
    ) {
        proof {
            assert(['s', 'r', 'g', 'b']@ =~= chars_srgb());
            assert(['i', 'e', 'c', '6', '1', '9', '6', '6']@ =~= chars_iec61966());
        }
        return SourceColorSpace::Srgb;
    }
    proof {
        assert(['s', 'r', 'g', 'b']@ =~= chars_srgb());
        assert(['i', 'e', 'c', '6', '1', '9', '6', '6']@ =~= chars_iec61966());
    }
    SourceColorSpace::Custom
}

/// The color space of ICC bytes: sRGB where moxcms cannot parse them,
/// custom for a profile without description text, else what the lowercased
/// description names.
pub open spec fn color_space_of_icc(icc: Seq<u8>) -> SourceColorSpace {
    match icc_parsed_description(icc) {
        None => SourceColorSpace::Srgb,
        Some(None) => SourceColorSpace::Custom,
        Some(Some(t)) => color_space_of_lowercase(text_to_lowercase(t)),
    }
}

/// Detects the color space an ICC profile describes. A profile moxcms
/// cannot parse is taken as sRGB; a parsed one is classified by its
/// description (see `classify_profile_description`).
pub fn detect_color_space(icc_data: &[u8]) -> (r: SourceColorSpace)
    ensures
        r == color_space_of_icc(icc_data@),
{
    match cms_parse_profile(icc_data) {
        Some(description) => classify_profile_description(description),
        None => SourceColorSpace::Srgb,
    }
}

// ---------------------------------------------------------------------------
// Color space detection from EXIF
// ---------------------------------------------------------------------------

/// The EXIF tags the pipeline reads.
#[derive(Debug, Clone, Copy, PartialEq, Eq, Structural)]
pub enum ExifTag {
    ColorSpace,
    Orientation,
}

/// The color space an EXIF ColorSpace value names: 1 is sRGB, 2 is Adobe
/// RGB; other values (such as 0xFFFF, uncalibrated) name none.
pub open spec fn color_space_of_exif_value(value: u16) -> Option<SourceColorSpace> {
    if value == 1 {
        Some(SourceColorSpace::Srgb)
    } else if value == 2 {
        Some(SourceColorSpace::AdobeRgb)
    } else {
        None
    }
}

/// The color space named by the first value of an EXIF ColorSpace field
/// (given as the field's SHORT values, if it has that type).
pub fn color_space_from_exif_values(values: Option<Vec<u16>>) -> (r: Option<SourceColorSpace>)
    ensures
        r == match values {
            Some(v) => if v@.len() > 0 {
                color_space_of_exif_value(v@[0])
            } else {
                None
            },
            None => None,
        },
{
    match values {
        Some(v) => {
            if v.len() > 0 {
                match v[0] {
                    1 => Some(SourceColorSpace::Srgb),
                    2 => Some(SourceColorSpace::AdobeRgb),
                    _ => None,
                }
            } else {
                None
            }
        },
        None => None,
    }
}

/// The color space the first SHORT value of the image's EXIF ColorSpace
/// field names.
pub open spec fn exif_color_space(data: Seq<u8>) -> Option<SourceColorSpace> {
    match exif_shorts(data, ExifTag::ColorSpace) {
        Some(v) => if v.len() > 0 {
            color_space_of_exif_value(v[0])
        } else {
            None
        },
        None => None,
    }
}

/// Checks the EXIF ColorSpace tag (value 2 = Adobe RGB). Data without
/// readable EXIF names no color space.
pub fn detect_color_space_from_exif(data: &[u8]) -> (r: Option<SourceColorSpace>)
    ensures
        r == exif_color_space(data@),
{
    match exif_read_primary_shorts(data, ExifTag::ColorSpace) {
        Some(values) => color_space_from_exif_values(values),
        None => None,
    }
}

/// Extracts the complete color space info from a JPEG: the ICC profile if
/// one is embedded (classified by `detect_color_space`), else the EXIF
/// ColorSpace tag, else sRGB.
pub fn extract_color_info(data: &[u8]) -> (r: ColorSpaceInfo)
    requires
        data@.len() >= 1,
    ensures
        opt_bytes_view(r.icc_profile) == jpeg_icc_profile(data@),
        jpeg_icc_profile(data@) matches Some(p) ==> r.space == color_space_of_icc(p),
        jpeg_icc_profile(data@) is None ==> r.space == match exif_color_space(data@) {
            Some(space) => space,
            None => SourceColorSpace::Srgb,
        },
{
    if let Some(icc) = extract_icc_from_jpeg(data) {
        let space = detect_color_space(icc.as_slice());
        return ColorSpaceInfo { space, icc_profile: Some(icc) };
    }
    if let Some(space) = detect_color_space_from_exif(data) {
        return ColorSpaceInfo { space, icc_profile: None };
    }
    ColorSpaceInfo::default()
}

// ---------------------------------------------------------------------------
// Color transforms
// ---------------------------------------------------------------------------

/// Pixel layouts the transformer handles.
#[derive(Debug, Clone, Copy, PartialEq, Eq, Structural)]
pub enum PixelLayout {
    Rgb,
    Rgba,
}

/// Where a transform's source profile comes from: ICC bytes that moxcms
/// parses, or one of moxcms's built-in profiles.
pub enum SourceProfile {
    Icc(Vec<u8>),
    Srgb,
    AdobeRgb,
    DisplayP3,
}

/// The ICC data color space signature `RGB `.
pub open spec fn icc_rgb_signature() -> Seq<u8> {
    seq![0x52u8, 0x47, 0x42, 0x20]
}

/// Whether ICC bytes declare RGB data in the header (bytes 16..20).
pub open spec fn icc_declares_rgb(icc: Seq<u8>) -> bool {
    icc.len() >= 20 && icc.subrange(16, 20) == icc_rgb_signature()
}

/// A source profile as values.
pub enum SourceProfileView {
    Icc(Seq<u8>),
    Srgb,
    AdobeRgb,
    DisplayP3,
}

impl View for SourceProfile {
    type V = SourceProfileView;

    open spec fn view(&self) -> SourceProfileView {
        match self {
            SourceProfile::Icc(icc) => SourceProfileView::Icc(icc@),
            SourceProfile::Srgb => SourceProfileView::Srgb,
            SourceProfile::AdobeRgb => SourceProfileView::AdobeRgb,
            SourceProfile::DisplayP3 => SourceProfileView::DisplayP3,
        }
    }
}

/// Whether a source profile has RGB data: the built-in ones do, ICC bytes
/// where their header says so.
pub open spec fn source_profile_is_rgb(source: SourceProfileView) -> bool {
    match source {
        SourceProfileView::Icc(icc) => icc_declares_rgb(icc),
        _ => true,
    }
}

/// The source profile a transformer is built with for some color info: the
/// embedded ICC bytes, else the built-in profile of the detected space
/// (sRGB for a custom one).
pub open spec fn source_profile_for(info: ColorSpaceInfo) -> SourceProfileView {
    match info.icc_profile {
        Some(icc) => SourceProfileView::Icc(icc@),
        None => match info.space {
            SourceColorSpace::AdobeRgb => SourceProfileView::AdobeRgb,
            SourceColorSpace::DisplayP3 => SourceProfileView::DisplayP3,
            _ => SourceProfileView::Srgb,
        },
    }
}

/// The destination profile for a target: Display P3 or sRGB.
pub open spec fn dest_profile_for(normalize: bool) -> StandardProfile {
    if normalize {
        StandardProfile::DisplayP3
    } else {
        StandardProfile::Srgb
    }
}

/// Whether `out` is what moxcms gives (see `cms_transform_pixels`) for the
/// pixels from the source profile to the destination in the layout. A
/// relation rather than a function: moxcms picks its SIMD kernels at run
/// time, so the colors may differ from machine to machine.
pub uninterp spec fn cms_transformed(
    source: SourceProfileView,
    dest: StandardProfile,
    layout: PixelLayout,
    pixels: Seq<u8>,
    out: Seq<u8>,
) -> bool;

/// Color transformer between a source color space and sRGB or Display P3.
pub struct ColorTransformer {
    /// Source profile
    source: SourceProfile,
    /// Destination profile
    dest: StandardProfile,
    /// Whether the destination is Display P3
    normalize: bool,
    /// Source color space (cached)
    source_space: SourceColorSpace,
}

/// Whether a transform from `source` is needed when the target is Display P3
/// (`normalize`) or sRGB: always unless the source already is the target.
pub open spec fn transform_needed(normalize: bool, source: SourceColorSpace) -> bool {
    if normalize {
        source != SourceColorSpace::DisplayP3
    } else {
        source != SourceColorSpace::Srgb
    }
}

impl ColorTransformer {
    /// Whether the destination is Display P3.
    pub closed spec fn spec_normalize(&self) -> bool {
        self.normalize
    }

    /// The source color space the transformer was built for.
    pub closed spec fn spec_source_space(&self) -> SourceColorSpace {
        self.source_space
    }

    /// Whether the source profile has RGB data.
    pub closed spec fn spec_source_rgb(&self) -> bool {
        source_profile_is_rgb(self.source@)
    }

    /// The source profile.
    pub closed spec fn spec_source(&self) -> SourceProfileView {
        self.source@
    }

    /// The destination profile.
    pub closed spec fn spec_dest(&self) -> StandardProfile {
        self.dest
    }

    /// Creates a transformer from the source color info to Display P3
    /// (`normalize_to_p3`) or sRGB. The source profile is the embedded ICC
    /// profile when there is one (failing if moxcms cannot parse it), else
    /// the standard profile of the detected space (sRGB for custom).
    pub fn new(color_info: &ColorSpaceInfo, normalize_to_p3: bool) -> (r: Result<Self, ImageError>)
        ensures
            match color_info.icc_profile {
                Some(icc) => r is Ok <==> icc_parses(icc@),
                None => r is Ok,
            },
            r is Err ==> r == Err::<Self, ImageError>(ImageError::IccProfileParse),
            r matches Ok(t) ==> t.spec_normalize() == normalize_to_p3 && t.spec_source_space()
                == color_info.space,
            r matches Ok(t) ==> t.spec_source() == source_profile_for(*color_info) && t.spec_dest()
                == dest_profile_for(normalize_to_p3),
            r matches Ok(t) ==> t.spec_source_rgb() == match color_info.icc_profile {
                Some(icc) => icc_declares_rgb(icc@),
                None => true,
            },
    {
        let source = match &color_info.icc_profile {
            Some(icc) => match cms_parse_profile(icc.as_slice()) {
                Some(_) => SourceProfile::Icc(vstd::slice::slice_to_vec(icc.as_slice())),
                None => {
                    return Err(ImageError::IccProfileParse);
                },
            },
            None => match color_info.space {
                SourceColorSpace::Srgb => SourceProfile::Srgb,
                SourceColorSpace::AdobeRgb => SourceProfile::AdobeRgb,
                SourceColorSpace::DisplayP3 => SourceProfile::DisplayP3,
                SourceColorSpace::Custom => SourceProfile::Srgb,
            },
        };
        let dest = if normalize_to_p3 {
            StandardProfile::DisplayP3
        } else {
            StandardProfile::Srgb
        };
        Ok(ColorTransformer {
            source,
            dest,
            normalize: normalize_to_p3,
            source_space: color_info.space,
        })
    }

    /// Whether a transform is needed (source space differs from the target).
    pub fn needs_transform(&self) -> (r: bool)
        ensures
            r == transform_needed(self.spec_normalize(), self.spec_source_space()),
    {
        if self.normalize {
            return self.source_space != SourceColorSpace::DisplayP3;
        }
        self.source_space != SourceColorSpace::Srgb
    }

    /// Transforms the whole rows of `width` pixels in place; bytes after the
    /// last whole row stay as they are.
    fn transform_rows(&self, pixels: &mut [u8], width: usize, layout: PixelLayout) -> (r: Result<
        (),
        ImageError,
    >)
        requires
            width >= 1,
            width * 4 <= usize::MAX,
        ensures
            final(pixels)@.len() == old(pixels)@.len(),
            r is Err ==> r == Err::<(), ImageError>(ImageError::ColorTransform),
            r is Ok ==> ({
                let rb = width * pixel_channels(layout);
                forall|i: int|
                    (old(pixels)@.len() as int / rb) * rb <= i < old(pixels)@.len() ==> final(pixels)@[i]
                        == old(pixels)@[i]
            }),
            r is Ok && layout == PixelLayout::Rgba && self.spec_source_rgb() ==> forall|i: int|
                0 <= i < old(pixels)@.len() as int / 4 ==> #[trigger] final(pixels)@[4 * i + 3]
                    == old(pixels)@[4 * i + 3],
            r is Ok ==> ({
                let rb = width * pixel_channels(layout);
                let end = (old(pixels)@.len() as int / rb) * rb;
                cms_transformed(
                    self.spec_source(),
                    self.spec_dest(),
                    layout,
                    old(pixels)@.subrange(0, end),
                    final(pixels)@.subrange(0, end),
                )
            }),
    {
        let channels: usize = match layout {
            PixelLayout::Rgb => 3,
            PixelLayout::Rgba => 4,
        };
        let row_bytes = width * channels;
        let len = pixels.len();
        let rows = len / row_bytes;
        proof {
            vstd::arithmetic::div_mod::lemma_fundamental_div_mod(len as int, row_bytes as int);
            assert(rows * row_bytes <= len) by (nonlinear_arith)
                requires
                    len == row_bytes * (len / row_bytes) + len % row_bytes,
                    0 <= len % row_bytes,
                    rows == len / row_bytes,
            ;
        }
        let end = rows * row_bytes;
        let region = vstd::slice::slice_subrange(pixels, 0, end);
        let out = match cms_transform_pixels(&self.source, self.dest, layout, region) {
            Some(o) => o,
            None => {
                return Err(ImageError::ColorTransform);
            },
        };
        let ghost original = pixels@;
        let mut k: usize = 0;
        while k < end
            invariant
                len == pixels@.len(),
                len == original.len(),
                out@.len() == end,
                end <= len,
                k <= end,
                forall|i: int| end <= i < len ==> pixels@[i] == original[i],
                forall|i: int| 0 <= i < k ==> pixels@[i] == out@[i],
            decreases end - k,
        {
            pixels[k] = out[k];
            k = k + 1;
        }
        proof {
            assert(region@ == original.subrange(0, end as int));
            assert(pixels@.subrange(0, end as int) =~= out@);
            if layout == PixelLayout::Rgba && source_profile_is_rgb(self.source@) {
                assert forall|i: int| 0 <= i < len as int / 4 implies #[trigger] pixels@[4 * i + 3]
                    == original[4 * i + 3] by {
                    assert(4 * i + 3 < len) by (nonlinear_arith)
                        requires
                            0 <= i < len as int / 4,
                    ;
                    if 4 * i + 3 < end {
                        assert(i < end as int / 4) by (nonlinear_arith)
                            requires
                                4 * i + 3 < end,
                                end == rows * (width * 4),
                                0 <= i,
                        ;
                        assert(region@ == original.subrange(0, end as int));
                        assert(pixels@[4 * i + 3] == out@[4 * i + 3]);
                        assert(out@[4 * i + 3] == region@[4 * i + 3]);
                    }
                }
            }
        }
        Ok(())
    }

    /// Transforms RGB8 pixels in place, row by row.
    pub fn transform_rgb8(&self, pixels: &mut [u8], width: usize) -> (r: Result<(), ImageError>)
        requires
            width >= 1,
            width * 4 <= usize::MAX,
        ensures
            final(pixels)@.len() == old(pixels)@.len(),
            r is Err ==> r == Err::<(), ImageError>(ImageError::ColorTransform),
            r is Ok ==> forall|i: int|
                (old(pixels)@.len() as int / (width * 3)) * (width * 3) <= i < old(pixels)@.len()
                    ==> final(pixels)@[i] == old(pixels)@[i],
            r is Ok ==> cms_transformed(
                self.spec_source(),
                self.spec_dest(),
                PixelLayout::Rgb,
                old(pixels)@.subrange(0, (old(pixels)@.len() as int / (width * 3)) * (width * 3)),
                final(pixels)@.subrange(0, (old(pixels)@.len() as int / (width * 3)) * (width * 3)),
            ),
    {
        self.transform_rows(pixels, width, PixelLayout::Rgb)
    }

    /// Transforms RGBA8 pixels in place, row by row.
    pub fn transform_rgba8(&self, pixels: &mut [u8], width: usize) -> (r: Result<(), ImageError>)
        requires
            width >= 1,
            width * 4 <= usize::MAX,
        ensures
            final(pixels)@.len() == old(pixels)@.len(),
            r is Err ==> r == Err::<(), ImageError>(ImageError::ColorTransform),
            r is Ok ==> forall|i: int|
                (old(pixels)@.len() as int / (width * 4)) * (width * 4) <= i < old(pixels)@.len()
                    ==> final(pixels)@[i] == old(pixels)@[i],
            r is Ok && self.spec_source_rgb() ==> forall|i: int|
                0 <= i < old(pixels)@.len() as int / 4 ==> #[trigger] final(pixels)@[4 * i + 3]
                    == old(pixels)@[4 * i + 3],
            r is Ok ==> cms_transformed(
                self.spec_source(),
                self.spec_dest(),
                PixelLayout::Rgba,
                old(pixels)@.subrange(0, (old(pixels)@.len() as int / (width * 4)) * (width * 4)),
                final(pixels)@.subrange(0, (old(pixels)@.len() as int / (width * 4)) * (width * 4)),
            ),
    {
        self.transform_rows(pixels, width, PixelLayout::Rgba)
    }

    /// The ICC profile bytes of the destination color space.
    pub fn dest_icc_profile(&self) -> (r: Result<Vec<u8>, ImageError>)
        ensures
            r matches Ok(bytes) && 132 <= bytes@.len() <= 65519 && bytes@.subrange(36, 40)
                == icc_file_signature(),
            r matches Ok(bytes) ==> icc_without_date(bytes@) == standard_icc_without_date(
                if self.spec_normalize() {
                    StandardProfile::DisplayP3
                } else {
                    StandardProfile::Srgb
                },
            ),
    {
        let standard = if self.normalize {
            StandardProfile::DisplayP3
        } else {
            StandardProfile::Srgb
        };
        match cms_encode_standard_profile(standard) {
            Some(bytes) => Ok(bytes),
            None => Err(ImageError::IccProfileEncode),
        }
    }

    /// Whether the output is Display P3.
    pub fn is_p3_output(&self) -> (r: bool)
        ensures
            r == self.spec_normalize(),
    {
        self.normalize
    }
}

/// Bytes per pixel of a layout.
pub open spec fn pixel_channels(layout: PixelLayout) -> int {
    match layout {
        PixelLayout::Rgb => 3,
        PixelLayout::Rgba => 4,
    }
}

/// Display P3 ICC profile bytes, as moxcms encodes its Display P3 profile.
pub fn get_display_p3_icc() -> (r: Vec<u8>)
    ensures
        132 <= r@.len() <= 65519,
        r@.subrange(36, 40) == icc_file_signature(),
        icc_without_date(r@) == standard_icc_without_date(StandardProfile::DisplayP3),
{
    match cms_encode_standard_profile(StandardProfile::DisplayP3) {
        Some(bytes) => bytes,
        None => Vec::new(),
    }
}

/// Standard sRGB ICC profile bytes, as moxcms encodes its sRGB profile.
pub fn get_srgb_icc() -> (r: Vec<u8>)
    ensures
        132 <= r@.len() <= 65519,
        r@.subrange(36, 40) == icc_file_signature(),
        icc_without_date(r@) == standard_icc_without_date(StandardProfile::Srgb),
{
    match cms_encode_standard_profile(StandardProfile::Srgb) {
        Some(bytes) => bytes,
        None => Vec::new(),
    }
}

// ---------------------------------------------------------------------------
// moxcms, kamadak-exif and std text helpers
// ---------------------------------------------------------------------------

/// What moxcms makes of ICC bytes (`ColorProfile::new_from_slice`): `None`
/// where it rejects them, else the parsed profile's description text (its
/// plain string, the value of its first localized entry, or its ASCII
/// description), itself `None` where the profile has no description or no
/// localized entry; a function of the bytes alone.
pub uninterp spec fn icc_parsed_description(icc: Seq<u8>) -> Option<Option<Seq<char>>>;

/// Whether moxcms parses these bytes as an ICC profile.
pub open spec fn icc_parses(icc: Seq<u8>) -> bool {
    icc_parsed_description(icc) is Some
}

/// What kamadak-exif reads from an image container for a tag
/// (`Reader::read_from_container`, then `Exif::get_field(tag, In::PRIMARY)`):
/// `None` where no EXIF data parses, else the field's values where the field
/// is present with type SHORT (`None` otherwise); a function of the bytes
/// and the tag alone.
pub uninterp spec fn exif_primary_short_values(data: Seq<u8>, tag: ExifTag) -> Option<Option<Seq<u16>>>;

/// The SHORT values of an EXIF field, as a sequence.
pub open spec fn shorts_view(values: Option<Vec<u16>>) -> Option<Seq<u16>> {
    match values {
        Some(v) => Some(v@),
        None => None,
    }
}

/// The SHORT values the image's primary EXIF field for `tag` holds, `None`
/// where there is no EXIF data or no such field.
pub open spec fn exif_shorts(data: Seq<u8>, tag: ExifTag) -> Option<Seq<u16>> {
    match exif_primary_short_values(data, tag) {
        Some(v) => v,
        None => None,
    }
}

/// The result of std's `str::to_lowercase`, as characters.
pub uninterp spec fn text_to_lowercase(s: Seq<char>) -> Seq<char>;

/// `moxcms::ColorProfile::new_from_slice`: the parsed profile's
/// `description` field converted variant by variant (localized entries by
/// their `value`), or `None` where moxcms rejects the bytes; both are named
/// by `icc_parsed_description`.
#[verifier::external_body]
fn cms_parse_profile(icc: &[u8]) -> (r: Option<Option<ProfileDescription>>)
    ensures
        match r {
            Some(d) => icc_parsed_description(icc@) == Some(optional_description_text(d)),
            None => icc_parsed_description(icc@) is None,
        },
{
    let profile = ColorProfile::new_from_slice(icc).ok()?;
    let description = match &profile.description {
        None => None,
        Some(moxcms::ProfileText::PlainString(s)) => Some(ProfileDescription::Plain(s.clone())),
        Some(moxcms::ProfileText::Localizable(l)) => Some(ProfileDescription::Localized(l.iter().map(|x| x.value.clone()).collect())),
        Some(moxcms::ProfileText::Description(d)) => Some(ProfileDescription::Ascii(d.ascii_string.clone())),
    };
    Some(description)
}


/// The standard profiles the library writes out.
#[derive(Debug, Clone, Copy, PartialEq, Eq, Structural)]
pub enum StandardProfile {
    Srgb,
    DisplayP3,
}

/// The ICC profile file signature `acsp`.
pub open spec fn icc_file_signature() -> Seq<u8> {
    seq![0x61u8, 0x63, 0x73, 0x70]
}

/// An ICC profile's bytes without the creation date and time, which the
/// header holds at bytes 24..36.
pub open spec fn icc_without_date(bytes: Seq<u8>) -> Seq<u8> {
    bytes.subrange(0, 24) + bytes.subrange(36, bytes.len() as int)
}

/// The bytes moxcms encodes for a standard profile, its creation date left
/// out (as `icc_without_date` leaves it out).
pub uninterp spec fn standard_icc_without_date(profile: StandardProfile) -> Seq<u8>;

/// `moxcms::ColorProfile::new_srgb` or `new_display_p3`, then
/// `ColorProfile::encode`: the ICC bytes. The encoder fails only on a
/// parametric curve of 2, 6 or more than 7 parameters or on a LUT of mixed
/// kinds; these two profiles carry three 5-parameter curves and no LUT, so
/// it succeeds. It writes the 128-byte ICC header, with the signature `acsp`
/// at bytes 36-39, and the four-byte tag count before anything else, so the
/// bytes are at least 132 long. The tags these two profiles carry (their
/// colorants and white points, three five-parameter curves, a CICP tag and
/// one-entry description and copyright texts, `new_srgb` and
/// `new_display_p3` in defaults.rs) take well under a kilobyte, far below
/// 65519 (one JPEG APP2 chunk of profile data). Of the header only the creation date and
/// time (bytes 24..36, `ColorDateTime::now()`) depend on when the call is
/// made; the profile id is left zero and everything else is built from the
/// profile, so the other bytes are named by `standard_icc_without_date`.
#[verifier::external_body]
fn cms_encode_standard_profile(profile: StandardProfile) -> (r: Option<Vec<u8>>)
    ensures
        r is Some,
        r matches Some(bytes) ==> 132 <= bytes@.len() <= 65519,
        r matches Some(bytes) ==> bytes@.subrange(36, 40) == icc_file_signature(),
        r matches Some(bytes) ==> icc_without_date(bytes@) == standard_icc_without_date(profile),
{
    let profile = match profile {
        StandardProfile::Srgb => moxcms::ColorProfile::new_srgb(),
        StandardProfile::DisplayP3 => moxcms::ColorProfile::new_display_p3(),
    };
    profile.encode().ok()
}

/// A moxcms transform of 8-bit pixels: the source profile from
/// `ColorProfile::new_from_slice` (ICC bytes) or `new_srgb`,
/// `new_adobe_rgb`, `new_display_p3`; the destination from `new_srgb` or
/// `new_display_p3`; then `create_transform_8bit` (the same layout on both
/// sides, default options) and `TransformExecutor::transform` of all the
/// given pixels into a buffer of the same length. `None` where moxcms fails
/// to parse the profile or to build or run the transform. The profiles and
/// the executor (a boxed trait object) only live inside this item. The
/// executor maps pixel by pixel, so one call over whole rows equals a pass
/// row by row. For an RGB source (the header's data color space, bytes
/// 16..20, is `RGB `, as it is for the built-in profiles) and an RGB
/// destination with the `Rgba` layout, every path moxcms takes (matrix
/// shaper, 3-to-3 LUT, or the multi-stage pipeline with its alpha-copy
/// stage, in the scalar and the SIMD kernels) writes each pixel's alpha
/// from the source pixel. A four-channel (CMYK) source gets alpha set to
/// the maximum instead, so nothing is stated of alpha there. Nothing is
/// stated of the colors.
#[verifier::external_body]
fn cms_transform_pixels(
    source: &SourceProfile,
    dest: StandardProfile,
    layout: PixelLayout,
    pixels: &[u8],
) -> (r: Option<Vec<u8>>)
    ensures
        r matches Some(out) ==> out@.len() == pixels@.len(),
        r matches Some(out) ==> cms_transformed(source@, dest, layout, pixels@, out@),
        r matches Some(out) ==> (layout == PixelLayout::Rgba && source_profile_is_rgb(source@)
            ==> forall|i: int|
            0 <= i < pixels@.len() as int / 4 ==> #[trigger] out@[4 * i + 3] == pixels@[4 * i + 3]),
{
    let source = match source {
        SourceProfile::Icc(icc) => ColorProfile::new_from_slice(icc).ok()?,
        SourceProfile::Srgb => ColorProfile::new_srgb(),
        SourceProfile::AdobeRgb => ColorProfile::new_adobe_rgb(),
        SourceProfile::DisplayP3 => ColorProfile::new_display_p3(),
    };
    let dest = match dest { StandardProfile::Srgb => ColorProfile::new_srgb(), StandardProfile::DisplayP3 => ColorProfile::new_display_p3() };
    let layout = match layout { PixelLayout::Rgb => Layout::Rgb, PixelLayout::Rgba => Layout::Rgba };
    let transform = source.create_transform_8bit(layout, &dest, layout, TransformOptions::default()).ok()?;
    let mut dst = vec![0u8; pixels.len()];
    transform.transform(pixels, &mut dst).ok()?;
    Some(dst)
}

/// std's `str::to_lowercase`, as characters.
#[verifier::external_body]
fn lowercase_chars(s: &String) -> (r: Vec<char>)
    ensures
        r@ == text_to_lowercase(s@),
{
    s.to_lowercase().chars().collect()
}

/// `exif::Reader::read_from_container` over the bytes, then
/// `Exif::get_field(tag, In::PRIMARY)`: `None` where no EXIF data parses,
/// else the field's values where they are of type SHORT; named by
/// `exif_primary_short_values`.
#[verifier::external_body]
pub(crate) fn exif_read_primary_shorts(data: &[u8], tag: ExifTag) -> (r: Option<Option<Vec<u16>>>)
    ensures
        match r {
            Some(v) => exif_primary_short_values(data@, tag) == Some(shorts_view(v)),
            None => exif_primary_short_values(data@, tag) is None,
        },
{
    let exif = exif::Reader::new().read_from_container(&mut std::io::BufReader::new(std::io::Cursor::new(data))).ok()?;
    let tag = match tag {
        ExifTag::ColorSpace => exif::Tag::ColorSpace,
        ExifTag::Orientation => exif::Tag::Orientation,
    };
    match exif.get_field(tag, exif::In::PRIMARY).map(|f| &f.value) {
        Some(exif::Value::Short(values)) => Some(Some(values.clone())),
        _ => Some(None),
    }
}

} // verus!
