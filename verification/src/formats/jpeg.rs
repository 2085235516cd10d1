//! JPEG encoding using mozjpeg, with ICC profile injection into APP2
//! segments numbered from 1.
use vstd::prelude::*;
use super::Encoder;
use crate::bytes::{append_bytes, be16, copy_range, read_be16};
use crate::color::jpeg_icc_profile;
use crate::error::ImageError;

verus! {

/// Maximum size of ICC profile data per APP2 segment (64KB - overhead)
pub const ICC_CHUNK_SIZE: usize = 65519;

/// Largest width or height libjpeg accepts.
pub const JPEG_MAX_DIMENSION: u32 = 65500;

/// Chroma subsampling modes for JPEG encoding.
#[derive(Debug, Clone, Copy, PartialEq, Eq, Structural)]
pub enum ChromaSubsampling {
    /// Full chroma resolution (no subsampling) - best quality
    Yuv444,
    /// Horizontal subsampling only
    Yuv422,
    /// Both horizontal and vertical subsampling (default) - best compression
    Yuv420,
}

impl Default for ChromaSubsampling {
    fn default() -> (r: Self)
        ensures
            r == ChromaSubsampling::Yuv420,
    {
        ChromaSubsampling::Yuv420
    }
}

/// JPEG encoding configuration.
#[derive(Debug, Clone, Copy, PartialEq, Eq, Structural)]
pub struct JpegConfig {
    /// Enable lossless mode (100% quality, disables DCT quantization)
    pub lossless: bool,
    /// Quality level 1-100 (ignored if lossless)
    pub quality: u8,
    /// Enable progressive scan encoding for better compression
    pub progressive: bool,
    /// Chroma subsampling (forced to 4:4:4 if lossless)
    pub chroma_subsampling: ChromaSubsampling,
}

/// `v` clamped into `[lo, hi]`.
pub open spec fn clamp_u8(v: u8, lo: u8, hi: u8) -> u8 {
    if v < lo {
        lo
    } else if v > hi {
        hi
    } else {
        v
    }
}

/// `v` clamped into `[lo, hi]`.
pub fn clamp_byte(v: u8, lo: u8, hi: u8) -> (r: u8)
    requires
        lo <= hi,
    ensures
        r == clamp_u8(v, lo, hi),
{
    if v < lo {
        lo
    } else if v > hi {
        hi
    } else {
        v
    }
}

impl Default for JpegConfig {
    fn default() -> (r: Self)
        ensures
            r == (JpegConfig {
                lossless: false,
                quality: 75,
                progressive: true,
                chroma_subsampling: ChromaSubsampling::Yuv420,
            }),
    {
        JpegConfig {
            lossless: false,
            quality: 75,
            progressive: true,
            chroma_subsampling: ChromaSubsampling::Yuv420,
        }
    }
}

impl JpegConfig {
    pub fn new() -> (r: Self)
        ensures
            r == (JpegConfig {
                lossless: false,
                quality: 75,
                progressive: true,
                chroma_subsampling: ChromaSubsampling::Yuv420,
            }),
    {
        Self::default()
    }

    pub fn with_quality(self, quality: u8) -> (r: Self)
        ensures
            r == (JpegConfig { quality: clamp_u8(quality, 1, 100), ..self }),
    {
        JpegConfig { quality: clamp_byte(quality, 1, 100), ..self }
    }

    pub fn with_lossless(self, lossless: bool) -> (r: Self)
        ensures
            r == (JpegConfig { lossless, ..self }),
    {
        JpegConfig { lossless, ..self }
    }

    pub fn with_progressive(self, progressive: bool) -> (r: Self)
        ensures
            r == (JpegConfig { progressive, ..self }),
    {
        JpegConfig { progressive, ..self }
    }

    pub fn with_chroma_subsampling(self, subsampling: ChromaSubsampling) -> (r: Self)
        ensures
            r == (JpegConfig { chroma_subsampling: subsampling, ..self }),
    {
        JpegConfig { chroma_subsampling: subsampling, ..self }
    }
}

/// The quality mozjpeg is run at: 100 in lossless mode, else the configured one.
pub open spec fn effective_jpeg_quality(config: JpegConfig) -> u8 {
    if config.lossless {
        100
    } else {
        config.quality
    }
}

/// The subsampling mozjpeg is run with: 4:4:4 in lossless mode.
pub open spec fn effective_subsampling(config: JpegConfig) -> ChromaSubsampling {
    if config.lossless {
        ChromaSubsampling::Yuv444
    } else {
        config.chroma_subsampling
    }
}

/// Chroma pixel sizes `(h, v)` of a subsampling mode, for both Cb and Cr.
pub open spec fn chroma_pixel_size(s: ChromaSubsampling) -> (u8, u8) {
    match s {
        ChromaSubsampling::Yuv444 => (1, 1),
        ChromaSubsampling::Yuv422 => (2, 1),
        ChromaSubsampling::Yuv420 => (2, 2),
    }
}

/// The RGB bytes of an RGBA buffer: the alpha byte of every whole pixel
/// dropped, a trailing partial pixel ignored.
pub open spec fn rgb_of_rgba(rgba: Seq<u8>) -> Seq<u8> {
    Seq::new(((rgba.len() / 4) * 3) as nat, |i: int| rgba[(i / 3) * 4 + i % 3])
}

/// Drops the alpha channel of every whole RGBA pixel.
pub fn rgba_to_rgb(rgba: &[u8]) -> (r: Vec<u8>)
    ensures
        r@ == rgb_of_rgba(rgba@),
{
    let len = rgba.len();
    let n = len / 4;
    proof {
        vstd::arithmetic::div_mod::lemma_fundamental_div_mod(rgba@.len() as int, 4);
    }
    let mut rgb: Vec<u8> = Vec::new();
    let mut p: usize = 0;
    while p < n
        invariant
            len == rgba@.len(),
            n == rgba@.len() / 4,
            n * 4 <= rgba@.len(),
            p <= n,
            rgb@.len() == p * 3,
            forall|i: int| 0 <= i < p * 3 ==> rgb@[i] == rgba@[(i / 3) * 4 + i % 3],
        decreases n - p,
    {
        proof {
            assert(p * 4 + 3 < rgba@.len());
        }
        rgb.push(rgba[p * 4]);
        rgb.push(rgba[p * 4 + 1]);
        rgb.push(rgba[p * 4 + 2]);
        proof {
            assert forall|i: int| 0 <= i < (p + 1) * 3 implies rgb@[i] == rgba@[(i / 3) * 4 + i
                % 3] by {
                if i >= p * 3 {
                    let c = i - p * 3;
                    vstd::arithmetic::div_mod::lemma_fundamental_div_mod_converse(i, 3, p as int, c);
                }
            }
        }
        p = p + 1;
    }
    proof {
        assert(rgb@ =~= rgb_of_rgba(rgba@));
    }
    rgb
}

// ---------------------------------------------------------------------------
// ICC profile injection
// ---------------------------------------------------------------------------

/// The end of the run of APP0 segments starting at `pos`: each `FF E0 len`
/// segment is stepped over by `2 + len` while at least five bytes remain.
pub open spec fn app0_run_end(jpeg: Seq<u8>, pos: int) -> int
    decreases (if pos < jpeg.len() { jpeg.len() - pos } else { 0 }),
{
    if pos < 0 || !(pos + 4 < jpeg.len()) || jpeg[pos] != 0xFF || jpeg[pos + 1] != 0xE0 {
        pos
    } else {
        app0_run_end(jpeg, pos + 2 + be16(jpeg[pos + 2], jpeg[pos + 3]))
    }
}

/// Whether the stream starts with the SOI marker `FF D8`.
pub open spec fn has_soi(jpeg: Seq<u8>) -> bool {
    jpeg.len() >= 2 && jpeg[0] == 0xFF && jpeg[1] == 0xD8
}

/// Where the ICC segments go: after SOI and any leading APP0 segments.
pub open spec fn icc_insert_position(jpeg: Seq<u8>) -> int {
    app0_run_end(jpeg, 2)
}

/// Number of APP2 chunks a profile of `len` bytes is split into.
pub open spec fn icc_chunk_count(len: int) -> int {
    if len % 65519 == 0 {
        len / 65519
    } else {
        len / 65519 + 1
    }
}

/// The `i`-th (0-based) slice of a profile cut into 65519-byte chunks.
pub open spec fn icc_chunk(icc: Seq<u8>, i: int) -> Seq<u8> {
    let start = i * 65519;
    let end = if start + 65519 < icc.len() {
        start + 65519
    } else {
        icc.len() as int
    };
    icc.subrange(start, end)
}

/// APP2 segment carrying chunk `i` of `count` (numbered from 1):
/// `FF E2`, big-endian length, `ICC_PROFILE\0`, number, count, payload.
pub open spec fn icc_app2_segment(icc: Seq<u8>, i: int, count: int) -> Seq<u8> {
    let chunk = icc_chunk(icc, i);
    let seg_len = 16 + chunk.len();
    seq![0xFFu8, 0xE2u8, (seg_len / 256) as u8, (seg_len % 256) as u8]
        + crate::color::icc_signature() + seq![((i + 1) % 256) as u8, (count % 256) as u8]
        + chunk
}

/// The first `k` APP2 segments of a profile split into `count` chunks.
pub open spec fn icc_app2_segments(icc: Seq<u8>, k: int, count: int) -> Seq<u8>
    decreases k,
{
    if k <= 0 {
        Seq::empty()
    } else {
        icc_app2_segments(icc, k - 1, count) + icc_app2_segment(icc, k - 1, count)
    }
}

/// All APP2 segments of a profile.
pub open spec fn icc_segments(icc: Seq<u8>) -> Seq<u8> {
    let count = icc_chunk_count(icc.len() as int);
    icc_app2_segments(icc, count, count)
}

/// The JPEG stream with the profile's APP2 segments spliced in at the
/// insertion position.
pub open spec fn jpeg_with_icc(jpeg: Seq<u8>, icc: Seq<u8>) -> Seq<u8> {
    let pos = icc_insert_position(jpeg);
    jpeg.subrange(0, pos) + icc_segments(icc) + jpeg.subrange(pos, jpeg.len() as int)
}

/// The outline of a stream as libjpeg writes it for YCbCr output: SOI, a
/// JFIF APP0 segment of length 16, no second APP0 after it, more bytes after
/// that, and no ICC chunk anywhere in the header segments before SOS.
pub open spec fn jfif_stream(c: Seq<u8>) -> bool {
    &&& c.len() > 24
    &&& c.subrange(0, 6) == seq![0xFFu8, 0xD8, 0xFF, 0xE0, 0x00, 0x10]
    &&& !(c[20] == 0xFF && c[21] == 0xE0)
    &&& crate::color::jpeg_icc_chunks(c, 0) == Seq::<(u8, u8, Seq<u8>)>::empty()
}

/// Finds the position to insert the ICC profile (after SOI and APP0/JFIF).
fn find_icc_insert_position(jpeg: &[u8]) -> (r: Result<usize, ImageError>)
    ensures
        !has_soi(jpeg@) ==> r == Err::<usize, ImageError>(ImageError::MissingJpegSoi),
        has_soi(jpeg@) && icc_insert_position(jpeg@) <= jpeg@.len() ==> r is Ok,
        r matches Ok(p) ==> p as int == icc_insert_position(jpeg@) && p <= jpeg@.len(),
        has_soi(jpeg@) && icc_insert_position(jpeg@) > jpeg@.len() ==> r == Err::<
            usize,
            ImageError,
        >(ImageError::MalformedJpeg),
{
    let len = jpeg.len();
    if !(len >= 2 && jpeg[0] == 0xFF && jpeg[1] == 0xD8) {
        return Err(ImageError::MissingJpegSoi);
    }
    let mut pos: usize = 2;
    loop
        invariant
            len == jpeg@.len(),
            has_soi(jpeg@),
            2 <= pos <= len,
            app0_run_end(jpeg@, pos as int) == icc_insert_position(jpeg@),
        decreases len - pos,
    {
        if !(len >= 5 && pos < len - 4) || jpeg[pos] != 0xFF || jpeg[pos + 1] != 0xE0 {
            assert(app0_run_end(jpeg@, pos as int) == pos);
            return Ok(pos);
        }
        let seg_len = read_be16(jpeg, pos + 2);
        if seg_len + 2 > len - pos {
            proof {
                lemma_app0_run_end_at_least(jpeg@, pos as int + 2 + seg_len);
            }
            return Err(ImageError::MalformedJpeg);
        }
        pos = pos + 2 + seg_len;
    }
}

/// The end of an APP0 run never precedes its start.
pub proof fn lemma_app0_run_end_at_least(jpeg: Seq<u8>, pos: int)
    ensures
        app0_run_end(jpeg, pos) >= pos,
    decreases (if pos < jpeg.len() { jpeg.len() - pos } else { 0 }),
{
    if pos < 0 || !(pos + 4 < jpeg.len()) || jpeg[pos] != 0xFF || jpeg[pos + 1] != 0xE0 {
    } else {
        lemma_app0_run_end_at_least(jpeg, pos + 2 + be16(jpeg[pos + 2], jpeg[pos + 3]));
    }
}

/// Chunk `i` of a profile starts inside it when `i` is below the chunk count.
proof fn lemma_chunk_start_in_bounds(len: int, i: int)
    requires
        0 <= i < icc_chunk_count(len),
        0 <= len,
    ensures
        i * 65519 < len,
{
}

/// Appends `FF E2`, the big-endian segment length, `ICC_PROFILE\0`, the
/// chunk number and the chunk count.
fn push_segment_header(out: &mut Vec<u8>, seg_len: usize, number: u8, count: u8)
    requires
        seg_len < 65536,
    ensures
        final(out)@ == old(out)@ + seq![0xFFu8, 0xE2u8, (seg_len / 256) as u8, (seg_len % 256) as u8]
            + crate::color::icc_signature() + seq![number, count],
{
    let ghost prev = out@;
    out.push(0xFF);
    out.push(0xE2);
    out.push((seg_len / 256) as u8);
    out.push((seg_len % 256) as u8);
    out.push(0x49);
    out.push(0x43);
    out.push(0x43);
    out.push(0x5F);
    out.push(0x50);
    out.push(0x52);
    out.push(0x4F);
    out.push(0x46);
    out.push(0x49);
    out.push(0x4C);
    out.push(0x45);
    out.push(0x00);
    out.push(number);
    out.push(count);
    assert(out@ =~= prev + seq![0xFFu8, 0xE2u8, (seg_len / 256) as u8, (seg_len % 256) as u8]
        + crate::color::icc_signature() + seq![number, count]);
}

/// Builds the APP2 segments of a profile, chunks numbered from 1.
fn build_icc_segments(icc: &[u8]) -> (r: Vec<u8>)
    ensures
        r@ == icc_segments(icc@),
{
    let len = icc.len();
    let count: usize = if len % ICC_CHUNK_SIZE == 0 {
        len / ICC_CHUNK_SIZE
    } else {
        len / ICC_CHUNK_SIZE + 1
    };
    let count_byte = (count % 256) as u8;
    let mut out: Vec<u8> = Vec::new();
    let mut i: usize = 0;
    while i < count
        invariant
            len == icc@.len(),
            count as int == icc_chunk_count(len as int),
            count_byte as int == count % 256,
            i <= count,
            out@ == icc_app2_segments(icc@, i as int, count as int),
        decreases count - i,
    {
        proof {
            lemma_chunk_start_in_bounds(len as int, i as int);
        }
        let start = i * ICC_CHUNK_SIZE;
        let end = if len - start > ICC_CHUNK_SIZE {
            start + ICC_CHUNK_SIZE
        } else {
            len
        };
        let chunk_len = end - start;
        let seg_len = 16 + chunk_len;
        let ghost prev = out@;
        push_segment_header(&mut out, seg_len, ((i + 1) % 256) as u8, count_byte);
        let chunk = vstd::slice::slice_subrange(icc, start, end);
        append_bytes(&mut out, chunk);
        proof {
            let seg = icc_app2_segment(icc@, i as int, count as int);
            assert(icc_chunk(icc@, i as int) == chunk@);
            assert(out@ =~= prev + seg);
        }
        i = i + 1;
    }
    out
}

/// Injects an ICC profile into a JPEG stream as APP2 segments, numbered from
/// 1 as the ICC specification requires, placed after SOI and APP0/JFIF.
fn inject_icc_profile(jpeg: &[u8], icc_profile: &[u8]) -> (r: Result<Vec<u8>, ImageError>)
    ensures
        !has_soi(jpeg@) ==> r == Err::<Vec<u8>, ImageError>(ImageError::MissingJpegSoi),
        has_soi(jpeg@) && icc_insert_position(jpeg@) > jpeg@.len() ==> r == Err::<
            Vec<u8>,
            ImageError,
        >(ImageError::MalformedJpeg),
        has_soi(jpeg@) && icc_insert_position(jpeg@) <= jpeg@.len() ==> (r matches Ok(out)
            && out@ == jpeg_with_icc(jpeg@, icc_profile@)),
{
    let insert_pos = match find_icc_insert_position(jpeg) {
        Ok(p) => p,
        Err(e) => {
            return Err(e);
        },
    };
    let segments = build_icc_segments(icc_profile);
    let mut output: Vec<u8> = Vec::new();
    append_bytes(&mut output, vstd::slice::slice_subrange(jpeg, 0, insert_pos));
    append_bytes(&mut output, segments.as_slice());
    append_bytes(&mut output, vstd::slice::slice_subrange(jpeg, insert_pos, jpeg.len()));
    Ok(output)
}


// ---------------------------------------------------------------------------
// Encoder
// ---------------------------------------------------------------------------

/// The quality and chroma subsampling mozjpeg is run with.
pub fn jpeg_encode_settings(config: &JpegConfig) -> (r: (u8, ChromaSubsampling))
    ensures
        r == (effective_jpeg_quality(*config), effective_subsampling(*config)),
        !config.lossless ==> r.0 == config.quality && r.1 == config.chroma_subsampling,
        config.lossless ==> r.0 == 100 && r.1 == ChromaSubsampling::Yuv444,
{
    let quality = if config.lossless {
        100
    } else {
        config.quality
    };
    let subsampling = if config.lossless {
        ChromaSubsampling::Yuv444
    } else {
        config.chroma_subsampling
    };
    (quality, subsampling)
}

/// The Cb/Cr pixel sizes handed to mozjpeg for a subsampling mode.
pub fn chroma_sampling_sizes(s: ChromaSubsampling) -> (r: (u8, u8))
    ensures
        r == chroma_pixel_size(s),
        s == ChromaSubsampling::Yuv444 <==> r == (1u8, 1u8),
        s == ChromaSubsampling::Yuv422 <==> r == (2u8, 1u8),
        s == ChromaSubsampling::Yuv420 <==> r == (2u8, 2u8),
{
    match s {
        ChromaSubsampling::Yuv444 => (1, 1),
        ChromaSubsampling::Yuv422 => (2, 1),
        ChromaSubsampling::Yuv420 => (2, 2),
    }
}

/// Attaches the ICC profile (if any) to a compressed JPEG stream.
pub fn finish_jpeg_stream(compressed: Vec<u8>, icc_profile: Option<&[u8]>) -> (r: Result<
    Vec<u8>,
    ImageError,
>)
    ensures
        icc_profile is None ==> r == Ok::<Vec<u8>, ImageError>(compressed),
        icc_profile matches Some(icc) ==> {
            &&& !has_soi(compressed@) ==> r == Err::<Vec<u8>, ImageError>(
                ImageError::MissingJpegSoi,
            )
            &&& has_soi(compressed@) && icc_insert_position(compressed@) > compressed@.len() ==> r
                == Err::<Vec<u8>, ImageError>(ImageError::MalformedJpeg)
            &&& has_soi(compressed@) && icc_insert_position(compressed@) <= compressed@.len() ==> (r matches Ok(
                out,
            ) && out@ == jpeg_with_icc(compressed@, icc@))
        },
{
    match icc_profile {
        Some(icc) => inject_icc_profile(compressed.as_slice(), icc),
        None => Ok(compressed),
    }
}

/// JPEG encoder using mozjpeg.
pub struct JpegEncoder;

impl Encoder for JpegEncoder {
    type Config = JpegConfig;

    open spec fn accepts(config: Self::Config, width: u32, height: u32, rgba_len: nat) -> bool {
        &&& 1 <= width <= JPEG_MAX_DIMENSION
        &&& 1 <= height <= JPEG_MAX_DIMENSION
        &&& rgba_len == width as int * height as int * 4
    }

    /// Encodes RGBA pixels as JPEG (alpha dropped); when a profile is given,
    /// the output is the compressed stream with the profile's APP2 segments
    /// spliced in after SOI/APP0.
    fn encode(
        rgba: &[u8],
        width: u32,
        height: u32,
        config: &Self::Config,
        icc_profile: Option<&[u8]>,
    ) -> (r: Result<Vec<u8>, ImageError>)
        ensures
            r is Ok,
            icc_profile is None ==> (r matches Ok(out) ==> jfif_stream(out@) && jpeg_icc_profile(
                out@,
            ) is None),
            icc_profile is None ==> (r matches Ok(out) ==> jpeg_compressed_for(
                rgba@,
                width,
                height,
                *config,
                out@,
            )),
            icc_profile matches Some(icc) ==> (r matches Ok(out) ==> exists|c: Seq<u8>|
                #![trigger jpeg_with_icc(c, icc@)]
                jfif_stream(c) && jpeg_compressed_for(rgba@, width, height, *config, c) && out@
                    == jpeg_with_icc(c, icc@)),
            icc_profile matches Some(icc) ==> (128 <= icc@.len() <= 255 * 65519 ==> (r matches Ok(out)
                ==> jpeg_icc_profile(out@) == Some(icc@))),
    {
        let rgb = rgba_to_rgb(rgba);
        let (quality, subsampling) = jpeg_encode_settings(config);
        let sizes = chroma_sampling_sizes(subsampling);
        proof {
            vstd::arithmetic::div_mod::lemma_div_multiples_vanish(width as int * height as int, 4);
            assert(rgba@.len() == (width as int * height as int) * 4);
        }
        let compressed = match mozjpeg_compress(
            rgb.as_slice(),
            width as usize,
            height as usize,
            quality,
            sizes,
            config.progressive,
        ) {
            Some(c) => c,
            None => {
                return Err(ImageError::Encode);
            },
        };
        proof {
            crate::formats::jpeg_icc_law::lemma_jfif_stream_layout(compressed@);
            if let Some(icc) = icc_profile {
                if 128 <= icc@.len() <= 255 * 65519 {
                    crate::formats::jpeg_icc_law::lemma_encoder_profile_reads_back(compressed@, icc@);
                }
            }
        }
        finish_jpeg_stream(compressed, icc_profile)
    }

    fn extension() -> (r: &'static str)
        ensures
            r@ == "jpg"@,
    {
        "jpg"
    }

    fn mime_type() -> (r: &'static str)
        ensures
            r@ == "image/jpeg"@,
    {
        "image/jpeg"
    }
}

// ---------------------------------------------------------------------------
// mozjpeg
// ---------------------------------------------------------------------------

/// Whether `out` is a stream mozjpeg writes (see `mozjpeg_compress`) for RGB
/// rows of the given size at the given quality, chroma pixel sizes and
/// progressive mode. A relation rather than a function: libjpeg picks its
/// SIMD code at run time, so the bytes may differ from machine to machine.
pub uninterp spec fn mozjpeg_output(
    rgb: Seq<u8>,
    width: usize,
    height: usize,
    quality: u8,
    chroma: (u8, u8),
    progressive: bool,
    out: Seq<u8>,
) -> bool;

/// Whether `c` is a stream mozjpeg writes for these RGBA pixels under a
/// configuration: alpha dropped, with the effective quality and chroma
/// subsampling and the configured progressive mode.
pub open spec fn jpeg_compressed_for(rgba: Seq<u8>, width: u32, height: u32, config: JpegConfig, c: Seq<u8>) -> bool {
    mozjpeg_output(
        rgb_of_rgba(rgba),
        width as usize,
        height as usize,
        effective_jpeg_quality(config),
        chroma_pixel_size(effective_subsampling(config)),
        config.progressive,
        c,
    )
}

/// mozjpeg is run with the configured settings: in lossy mode the configured
/// quality and chroma subsampling (4:4:4 as chroma pixel sizes (1, 1), 4:2:2
/// as (2, 1), 4:2:0 as (2, 2)), in lossless mode quality 100 at 4:4:4; the
/// progressive flag as configured; and the pixels with alpha dropped.
pub proof fn lemma_jpeg_settings_reach_mozjpeg(
    rgba: Seq<u8>,
    width: u32,
    height: u32,
    config: JpegConfig,
    c: Seq<u8>,
)
    ensures
        jpeg_compressed_for(rgba, width, height, config, c) == mozjpeg_output(
            rgb_of_rgba(rgba),
            width as usize,
            height as usize,
            if config.lossless {
                100u8
            } else {
                config.quality
            },
            if config.lossless {
                (1u8, 1u8)
            } else {
                match config.chroma_subsampling {
                    ChromaSubsampling::Yuv444 => (1u8, 1u8),
                    ChromaSubsampling::Yuv422 => (2u8, 1u8),
                    ChromaSubsampling::Yuv420 => (2u8, 2u8),
                }
            },
            config.progressive,
            c,
        ),
{
}

/// One mozjpeg compression of RGB rows into memory: `Compress::new(JCS_RGB)`,
/// `set_size`, `set_quality` (the quality passed on as the float the API
/// takes), `set_chroma_sampling_pixel_sizes(chroma, chroma)`,
/// `set_progressive_mode` when asked for, `start_compress` into a `Vec`,
/// `write_scanlines` and `finish`. libjpeg keeps the image size and the count
/// of rows written in the compressor's own state, out of the caller's reach,
/// and aborts (mozjpeg panics) on an empty image, a side above 65500 or too
/// few rows; the calls therefore stand in this one item, whose `requires`
/// leaves those inputs out. With these settings none of the calls fails:
/// `start_compress` fails only when no component has sampling factor 1 (the
/// component with the largest chroma pixel size has factor 1),
/// `write_scanlines` only for a raw-data or zero-width compressor or when
/// libjpeg takes no row, and `finish` always returns the writer. libjpeg's
/// `write_file_header` starts the stream with SOI and, the JPEG color space
/// being YCbCr, a JFIF APP0 segment of length 16 and no second APP0; no APP2
/// segment is written before the first SOS. Which compressed bytes follow is
/// not stated (libjpeg chooses SIMD code at run time).
#[verifier::external_body]
fn mozjpeg_compress(
    rgb: &[u8],
    width: usize,
    height: usize,
    quality: u8,
    chroma: (u8, u8),
    progressive: bool,
) -> (r: Option<Vec<u8>>)
    requires
        1 <= width <= 65500,
        1 <= height <= 65500,
        rgb@.len() == width as int * height as int * 3,
        1 <= chroma.0 <= 2,
        1 <= chroma.1 <= 2,
    ensures
        r is Some,
        r matches Some(out) ==> jfif_stream(out@),
        r matches Some(out) ==> mozjpeg_output(rgb@, width, height, quality, chroma, progressive, out@),
{
    let mut comp = mozjpeg::Compress::new(mozjpeg::ColorSpace::JCS_RGB);
    comp.set_size(width, height);
    comp.set_quality(quality.into());
    comp.set_chroma_sampling_pixel_sizes(chroma, chroma);
    if progressive {
        comp.set_progressive_mode();
    }
    let mut started = comp.start_compress(Vec::new()).ok()?;
    started.write_scanlines(rgb).ok()?;
    started.finish().ok()
}

} // verus!
