//! What a reader finds in a WebP stream after the profile was attached.
use vstd::prelude::*;
use crate::bytes::{le24, le32, le32_value, lemma_le32_value};
use crate::formats::webp::{
    iccp_chunk, mod_u32, tag_iccp, tag_riff, tag_vp8x, tag_webp, vp8x_chunk, webp_with_icc,
};

verus! {

/// Attaching a profile to a simple WebP stream gives a well-formed extended
/// stream from which the profile reads back: the `RIFF`/`WEBP` header whose
/// size field is the stream length minus eight (where that fits in 32 bits),
/// a VP8X chunk with only the ICC flag set and the canvas size, the ICCP
/// chunk at offset 30 whose size field is the profile length and whose
/// payload, at offset 38, is exactly the profile, and the original image
/// chunk, unchanged, at the end.
pub proof fn lemma_webp_profile_reads_back(webp: Seq<u8>, icc: Seq<u8>, width: u32, height: u32) -> (out: Seq<u8>)
    requires
        webp.len() >= 12,
    ensures
        out == webp_with_icc(webp, icc, width, height),
        out.subrange(0, 4) == tag_riff(),
        out.subrange(8, 12) == tag_webp(),
        out.subrange(12, 16) == tag_vp8x(),
        le32_value(out.subrange(20, 24)) == 0x20,
        out.subrange(24, 27) == le24((width - 1) as u32),
        out.subrange(27, 30) == le24((height - 1) as u32),
        out.subrange(30, 34) == tag_iccp(),
        icc.len() < 0x1_0000_0000 ==> le32_value(out.subrange(34, 38)) == icc.len(),
        out.subrange(38, 38 + icc.len() as int) == icc,
        out.len() - 8 < 0x1_0000_0000 ==> le32_value(out.subrange(4, 8)) == out.len() - 8,
        out.subrange(out.len() - (webp.len() - 12), out.len() as int) == webp.subrange(
            12,
            webp.len() as int,
        ),
{
    let out = webp_with_icc(webp, icc, width, height);
    let image_chunk = webp.subrange(12, webp.len() as int);
    let vp8x = vp8x_chunk(width, height);
    let iccp = iccp_chunk(icc);
    let riff_size = 4 + vp8x.len() + iccp.len() + image_chunk.len();
    let size_field = le32(mod_u32(riff_size as int));
    let head = tag_riff() + size_field + tag_webp();
    assert(vp8x.len() == 18);
    assert(head.len() == 12);
    assert(out == head + vp8x + iccp + image_chunk);
    assert(out.len() == riff_size + 8);
    assert(out.subrange(0, 4) =~= tag_riff());
    assert(out.subrange(4, 8) =~= size_field);
    assert(out.subrange(8, 12) =~= tag_webp());
    assert(out.subrange(12, 16) =~= tag_vp8x());
    assert(out.subrange(20, 24) =~= le32(0x20));
    assert(out.subrange(24, 27) =~= le24((width - 1) as u32));
    assert(out.subrange(27, 30) =~= le24((height - 1) as u32));
    assert(out.subrange(30, 34) =~= tag_iccp());
    assert(out.subrange(34, 38) =~= le32(mod_u32(icc.len() as int)));
    assert(out.subrange(38, 38 + icc.len() as int) =~= icc);
    assert(out.subrange(out.len() - image_chunk.len(), out.len() as int) =~= image_chunk);
    lemma_le32_value(0x20);
    lemma_le32_value(mod_u32(icc.len() as int));
    lemma_le32_value(mod_u32(riff_size as int));
    if icc.len() < 0x1_0000_0000 {
        assert(mod_u32(icc.len() as int) == icc.len()) by {
            vstd::arithmetic::div_mod::lemma_small_mod(icc.len(), 0x1_0000_0000);
        }
    }
    if out.len() - 8 < 0x1_0000_0000 {
        assert(mod_u32(riff_size as int) == riff_size) by {
            vstd::arithmetic::div_mod::lemma_small_mod(riff_size as nat, 0x1_0000_0000);
        }
    }
    out
}

} // verus!
