//! Byte-level inspection helpers used when comparing encoder outputs.
use vstd::prelude::*;
use crate::bytes::{be16, copy_range, read_be16};
use crate::color::{has_icc_signature, icc_signature};

verus! {

/// The big-endian value of four bytes.
pub open spec fn be32_value(b0: u8, b1: u8, b2: u8, b3: u8) -> int {
    b0 as int * 16777216 + b1 as int * 65536 + b2 as int * 256 + b3 as int
}

/// The first embedded profile found scanning from byte `i`: at an
/// `ICC_PROFILE\0` identifier, the profile starts two bytes after it (past
/// the chunk number and count) and is as long as its own big-endian size
/// field says, if that many bytes remain; otherwise the scan goes on. The scan
/// covers identifier positions below `len - 12`.
pub open spec fn first_embedded_profile(data: Seq<u8>, i: int) -> Option<Seq<u8>>
    decreases data.len() - i,
{
    if i < 0 || i >= data.len() - 12 {
        None
    } else if data.subrange(i, i + 12) == icc_signature() && i + 14 + 4 <= data.len()
        && i + 14 + be32_value(data[i + 14], data[i + 15], data[i + 16], data[i + 17]) <= data.len() {
        Some(data.subrange(i + 14, i + 14 + be32_value(data[i + 14], data[i + 15], data[i + 16], data[i + 17])))
    } else {
        first_embedded_profile(data, i + 1)
    }
}

/// What an APP2 segment holds, by the identifier its content starts with.
#[derive(Debug, Clone, Copy, PartialEq, Eq, Structural)]
pub enum App2Kind {
    /// An ICC profile chunk, with its number and the chunk count
    IccProfile { chunk: u8, total: u8 },
    /// Multi-Picture Format data
    Mpf,
    /// Anything else
    Unknown,
}

/// An APP2 segment found by `app2_segments`: where its marker stands, the
/// value of its length field, its kind, and up to 16 bytes of its content
/// (from the first 32 content bytes that lie inside the segment and the
/// data).
#[derive(Debug, Clone)]
pub struct App2Segment {
    pub offset: usize,
    pub length: usize,
    pub kind: App2Kind,
    pub header: Vec<u8>,
}

/// The bytes `"MPF\0"`.
pub open spec fn mpf_signature() -> Seq<u8> {
    seq![0x4Du8, 0x50, 0x46, 0x00]
}

/// The content bytes shown for an APP2 segment at `pos` with length field
/// `len`: from `pos + 4` up to the first of `pos + 36`, the segment's end
/// and the data's end.
pub open spec fn app2_content(data: Seq<u8>, pos: int, len: int) -> Seq<u8> {
    let end = if pos + 36 <= pos + 2 + len { pos + 36 } else { pos + 2 + len };
    let end = if end <= data.len() { end } else { data.len() as int };
    data.subrange(pos + 4, end)
}

/// The kind of an APP2 segment with the given content.
pub open spec fn app2_kind_of(content: Seq<u8>) -> App2Kind {
    if content.len() >= 12 && content.subrange(0, 12) == icc_signature() {
        App2Kind::IccProfile { chunk: content[12], total: content[13] }
    } else if content.len() >= 4 && content.subrange(0, 4) == mpf_signature() {
        App2Kind::Mpf
    } else {
        App2Kind::Unknown
    }
}

/// The first 16 bytes (or fewer) of a content run.
pub open spec fn app2_header_of(content: Seq<u8>) -> Seq<u8> {
    if content.len() <= 16 {
        content
    } else {
        content.subrange(0, 16)
    }
}

/// The APP2 segments met scanning from `pos`: an APP2 marker (`FF E2`) is
/// taken with its length field and skipped over (`2 + length` bytes), the
/// scan stops at SOS (`FF DA`) or where fewer than five bytes remain, and any
/// other byte is stepped over.
pub open spec fn app2_scan(data: Seq<u8>, pos: int) -> Seq<(int, int, App2Kind, Seq<u8>)>
    decreases data.len() - pos,
{
    if pos < 0 || pos + 4 >= data.len() {
        Seq::empty()
    } else if data[pos] == 0xFF && data[pos + 1] == 0xE2 {
        let len = be16(data[pos + 2], data[pos + 3]);
        let content = app2_content(data, pos, len);
        let rest = if pos + 2 + len < data.len() {
            app2_scan(data, pos + 2 + len)
        } else {
            Seq::empty()
        };
        seq![(pos, len, app2_kind_of(content), app2_header_of(content))] + rest
    } else if data[pos] == 0xFF && data[pos + 1] == 0xDA {
        Seq::empty()
    } else {
        app2_scan(data, pos + 1)
    }
}

/// Whether every APP2 segment the scan from `pos` meets can be shown: its
/// length field covers the length bytes themselves, and an ICC identifier
/// in its content is followed by the chunk number and count.
pub open spec fn app2_scan_well_formed(data: Seq<u8>, pos: int) -> bool
    decreases data.len() - pos,
{
    if pos < 0 || pos + 4 >= data.len() {
        true
    } else if data[pos] == 0xFF && data[pos + 1] == 0xE2 {
        let len = be16(data[pos + 2], data[pos + 3]);
        let content = app2_content(data, pos, len);
        &&& len >= 2
        &&& (content.len() >= 12 && content.subrange(0, 12) == icc_signature()) ==> content.len()
            >= 14
        &&& pos + 2 + len < data.len() ==> app2_scan_well_formed(data, pos + 2 + len)
    } else if data[pos] == 0xFF && data[pos + 1] == 0xDA {
        true
    } else {
        app2_scan_well_formed(data, pos + 1)
    }
}

/// The view of a found segment.
pub open spec fn app2_segment_view(s: App2Segment) -> (int, int, App2Kind, Seq<u8>) {
    (s.offset as int, s.length as int, s.kind, s.header@)
}

/// Lists the APP2 segments before the first SOS marker, with their offset,
/// length, kind and first content bytes.
pub fn app2_segments(data: &[u8]) -> (r: Vec<App2Segment>)
    requires
        app2_scan_well_formed(data@, 0),
    ensures
        r@.map_values(|s: App2Segment| app2_segment_view(s)) == app2_scan(data@, 0),
{
    let len = data.len();
    let mut out: Vec<App2Segment> = Vec::new();
    let mut pos: usize = 0;
    while len >= 5 && pos < len - 4
        invariant
            len == data@.len(),
            app2_scan_well_formed(data@, pos as int),
            out@.map_values(|s: App2Segment| app2_segment_view(s)) + app2_scan(data@, pos as int)
                == app2_scan(data@, 0),
        decreases len - pos,
    {
        if data[pos] == 0xFF && data[pos + 1] == 0xE2 {
            let seg_len = read_be16(data, pos + 2);
            let ghost expected = app2_content(data@, pos as int, seg_len as int);
            let mut rel_end: usize = if seg_len >= 34 {
                36
            } else {
                2 + seg_len
            };
            if rel_end > len - pos {
                rel_end = len - pos;
            }
            let end = pos + rel_end;
            let content = copy_range(data, pos + 4, end);
            assert(content@ == expected);
            let kind = if content.len() >= 12 && has_icc_signature(content.as_slice(), 0) {
                App2Kind::IccProfile { chunk: content[12], total: content[13] }
            } else if content.len() >= 4 && content[0] == 0x4D && content[1] == 0x50 && content[2]
                == 0x46 && content[3] == 0x00 {
                proof {
                    assert(content@.subrange(0, 4) =~= mpf_signature());
                }
                App2Kind::Mpf
            } else {
                proof {
                    if content@.len() >= 4 && content@.subrange(0, 4) == mpf_signature() {
                        assert(content@[0] == content@.subrange(0, 4)[0]);
                        assert(content@[1] == content@.subrange(0, 4)[1]);
                        assert(content@[2] == content@.subrange(0, 4)[2]);
                        assert(content@[3] == content@.subrange(0, 4)[3]);
                    }
                }
                App2Kind::Unknown
            };
            let shown = if content.len() <= 16 {
                content.len()
            } else {
                16
            };
            let header = copy_range(content.as_slice(), 0, shown);
            proof {
                assert(header@ == app2_header_of(content@));
            }
            let ghost prev = out@.map_values(|s: App2Segment| app2_segment_view(s));
            out.push(App2Segment { offset: pos, length: seg_len, kind, header });
            proof {
                assert(out@.map_values(|s: App2Segment| app2_segment_view(s)) =~= prev.push(
                    (pos as int, seg_len as int, kind, header@),
                ));
            }
            if seg_len + 2 >= len - pos {
                proof {
                    assert(app2_scan(data@, pos as int) == seq![(pos as int, seg_len as int, kind, header@)]);
                    assert(out@.map_values(|s: App2Segment| app2_segment_view(s)) =~= prev + app2_scan(data@, pos as int));
                }
                return out;
            }
            proof {
                assert(app2_scan(data@, pos as int) == seq![(pos as int, seg_len as int, kind, header@)]
                    + app2_scan(data@, pos + 2 + seg_len));
                assert(prev.push((pos as int, seg_len as int, kind, header@)) + app2_scan(data@, pos + 2 + seg_len)
                    =~= prev + app2_scan(data@, pos as int));
            }
            pos = pos + 2 + seg_len;
        } else if data[pos] == 0xFF && data[pos + 1] == 0xDA {
            proof {
                assert(app2_scan(data@, pos as int) == Seq::<(int, int, App2Kind, Seq<u8>)>::empty());
                assert(out@.map_values(|s: App2Segment| app2_segment_view(s)) + Seq::<(int, int, App2Kind, Seq<u8>)>::empty()
                    =~= out@.map_values(|s: App2Segment| app2_segment_view(s)));
            }
            return out;
        } else {
            pos = pos + 1;
        }
    }
    proof {
        assert(app2_scan(data@, pos as int) == Seq::<(int, int, App2Kind, Seq<u8>)>::empty());
        assert(out@.map_values(|s: App2Segment| app2_segment_view(s)) + Seq::<(int, int, App2Kind, Seq<u8>)>::empty()
            =~= out@.map_values(|s: App2Segment| app2_segment_view(s)));
    }
    out
}

/// Finds the first embedded ICC profile by its identifier and its own size
/// field, without reassembling chunks.
pub fn extract_icc(data: &[u8]) -> (r: Option<Vec<u8>>)
    requires
        data@.len() >= 12,
    ensures
        crate::color::opt_bytes_view(r) == first_embedded_profile(data@, 0),
{
    let len = data.len();
    let last = len - 12;
    let mut i: usize = 0;
    while i < last
        invariant
            len == data@.len(),
            last == len - 12,
            i <= last,
            first_embedded_profile(data@, i as int) == first_embedded_profile(data@, 0),
        decreases last - i,
    {
        if crate::color::has_icc_signature(data, i) {
            if len >= 18 && i <= len - 18 {
                let start = i + 14;
                let size: u64 = (data[start] as u64) * 16777216 + (data[start + 1] as u64) * 65536
                    + (data[start + 2] as u64) * 256 + (data[start + 3] as u64);
                if size <= (len - start) as u64 {
                    let end = start + size as usize;
                    return Some(crate::bytes::copy_range(data, start, end));
                }
            }
        }
        i = i + 1;
    }
    None
}

} // verus!
