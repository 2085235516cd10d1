//! WebP encoding using libwebp, with ICC profile embedding through the
//! extended (VP8X) container layout.
use vstd::prelude::*;
use crate::bytes::{append_bytes, le24, le32, push_le24, push_le32};
use crate::error::ImageError;

verus! {

/// The libwebp compression method used for lossy output: 6, the slowest
/// and most thorough.
pub const WEBP_LOSSY_METHOD: i32 = 6;

/// Largest width or height libwebp encodes.
pub const WEBP_MAX_DIMENSION: u32 = 16383;

/// WebP encoding configuration.
#[derive(Debug, Clone, Copy, PartialEq, Eq, Structural)]
pub struct WebpConfig {
    /// Enable lossless mode (VP8L)
    pub lossless: bool,
    /// Quality level 0-100 (ignored if lossless)
    pub quality: u8,
}

impl Default for WebpConfig {
    fn default() -> (r: Self)
        ensures
            r == (WebpConfig { lossless: false, quality: 80 }),
    {
        WebpConfig { lossless: false, quality: 80 }
    }
}

impl WebpConfig {
    pub fn new() -> (r: Self)
        ensures
            r == (WebpConfig { lossless: false, quality: 80 }),
    {
        Self::default()
    }

    pub fn with_quality(self, quality: u8) -> (r: Self)
        ensures
            r == (WebpConfig { quality: crate::formats::jpeg::clamp_u8(quality, 0, 100), ..self }),
    {
        WebpConfig { quality: crate::formats::jpeg::clamp_byte(quality, 0, 100), ..self }
    }

    pub fn with_lossless(self, lossless: bool) -> (r: Self)
        ensures
            r == (WebpConfig { lossless, ..self }),
    {
        WebpConfig { lossless, ..self }
    }
}

/// Whether `e` is a stream libwebp writes for the pixels under the
/// configuration: lossless, or lossy at the configured quality with the
/// compression method the library uses.
pub open spec fn webp_encoded_by(rgba: Seq<u8>, width: u32, height: u32, config: WebpConfig, e: Seq<u8>) -> bool {
    if config.lossless {
        lossless_outline(e) && webp_lossless_output(rgba, width, height, e)
    } else {
        lossy_outline(e) && webp_lossy_output(rgba, width, height, config.quality, WEBP_LOSSY_METHOD, e)
    }
}

pub open spec fn tag_riff() -> Seq<u8> {
    seq![0x52u8, 0x49, 0x46, 0x46]
}

pub open spec fn tag_webp() -> Seq<u8> {
    seq![0x57u8, 0x45, 0x42, 0x50]
}

pub open spec fn tag_vp8() -> Seq<u8> {
    seq![0x56u8, 0x50, 0x38, 0x20]
}

pub open spec fn tag_vp8l() -> Seq<u8> {
    seq![0x56u8, 0x50, 0x38, 0x4C]
}

pub open spec fn tag_vp8x() -> Seq<u8> {
    seq![0x56u8, 0x50, 0x38, 0x58]
}

pub open spec fn tag_iccp() -> Seq<u8> {
    seq![0x49u8, 0x43, 0x43, 0x50]
}

/// `v` reduced modulo 2^32, as RIFF size fields store it.
pub open spec fn mod_u32(v: int) -> u32 {
    (v % 4294967296) as u32
}

/// The VP8X chunk: tag, size 10, flags with only the ICCP bit (0x20), and
/// the 24-bit canvas width and height minus one.
pub open spec fn vp8x_chunk(width: u32, height: u32) -> Seq<u8> {
    tag_vp8x() + le32(10) + le32(0x20) + le24((width - 1) as u32) + le24((height - 1) as u32)
}

/// The ICCP chunk: tag, profile size, profile, and a pad byte for odd sizes.
pub open spec fn iccp_chunk(icc: Seq<u8>) -> Seq<u8> {
    tag_iccp() + le32(mod_u32(icc.len() as int)) + icc + if icc.len() % 2 == 1 {
        seq![0u8]
    } else {
        Seq::empty()
    }
}

/// The simple-format WebP stream rewritten to the extended layout with the
/// profile: RIFF header with the new size, `WEBP`, VP8X, ICCP, then the
/// original image chunk.
pub open spec fn webp_with_icc(webp: Seq<u8>, icc: Seq<u8>, width: u32, height: u32) -> Seq<u8> {
    let image_chunk = webp.subrange(12, webp.len() as int);
    let riff_size = 4 + vp8x_chunk(width, height).len() + iccp_chunk(icc).len()
        + image_chunk.len();
    tag_riff() + le32(mod_u32(riff_size as int)) + tag_webp() + vp8x_chunk(width, height) + iccp_chunk(
        icc,
    ) + image_chunk
}

/// Whether `data[start..start + 4]` equals the given tag.
fn has_tag(data: &[u8], start: usize, tag: [u8; 4]) -> (r: bool)
    requires
        start + 4 <= data@.len(),
    ensures
        r == (data@.subrange(start as int, start + 4) == tag@),
{
    let r = data[start] == tag[0] && data[start + 1] == tag[1] && data[start + 2] == tag[2]
        && data[start + 3] == tag[3];
    proof {
        let s = data@.subrange(start as int, start + 4);
        if r {
            assert(s =~= tag@);
        } else if s == tag@ {
            assert(s[0] == tag@[0] && s[1] == tag@[1] && s[2] == tag@[2] && s[3] == tag@[3]);
        }
    }
    r
}

proof fn lemma_mod_sum3(f: int, a: int, b: int, m: int)
    requires
        0 <= f < m,
        0 <= a,
        0 <= b,
        m > 0,
    ensures
        (f + a % m + b % m) % m == (f + a + b) % m,
{
    vstd::arithmetic::div_mod::lemma_add_mod_noop_right(f + a % m, b, m);
    vstd::arithmetic::div_mod::lemma_add_mod_noop_right(f + b, a, m);
    assert(f + a % m + b == (f + b) + a % m);
    assert(f + b + a == f + a + b);
}

/// The RIFF size of the rewritten stream, reduced modulo 2^32:
/// `WEBP` + VP8X chunk + ICCP chunk + the original image chunk.
fn riff_size_field(webp_len: usize, icc_len: usize) -> (r: u32)
    requires
        webp_len >= 12,
    ensures
        r == mod_u32(4 + 18 + 8 + icc_len + (if icc_len % 2 == 1 { 1int } else { 0int }) + (webp_len - 12)),
{
    let fixed: u64 = if icc_len % 2 == 1 {
        31
    } else {
        30
    };
    let a: u64 = icc_len as u64 % 4294967296u64;
    let b: u64 = (webp_len - 12) as u64 % 4294967296u64;
    let r = ((fixed + a + b) % 4294967296u64) as u32;
    proof {
        lemma_mod_sum3(fixed as int, icc_len as int, webp_len - 12, 4294967296);
    }
    r
}

/// Appends a four-byte chunk tag.
fn push_tag(out: &mut Vec<u8>, tag: [u8; 4])
    ensures
        final(out)@ == old(out)@ + tag@,
{
    let ghost prev = out@;
    out.push(tag[0]);
    out.push(tag[1]);
    out.push(tag[2]);
    out.push(tag[3]);
    assert(out@ =~= prev + tag@);
}

/// Appends the VP8X chunk announcing an ICC profile.
fn push_vp8x_chunk(out: &mut Vec<u8>, width: u32, height: u32)
    requires
        width >= 1,
        height >= 1,
    ensures
        final(out)@ == old(out)@ + vp8x_chunk(width, height),
{
    let ghost prev = out@;
    push_tag(out, [0x56, 0x50, 0x38, 0x58]);
    push_le32(out, 10);
    push_le32(out, 0x20);
    push_le24(out, width - 1);
    push_le24(out, height - 1);
    assert([0x56u8, 0x50, 0x38, 0x58]@ =~= tag_vp8x());
    assert(out@ =~= prev + vp8x_chunk(width, height));
}

/// Appends the ICCP chunk holding the profile, padded to an even size.
fn push_iccp_chunk(out: &mut Vec<u8>, icc: &[u8])
    ensures
        final(out)@ == old(out)@ + iccp_chunk(icc@),
{
    let ghost prev = out@;
    let icc_len = icc.len();
    let icc_size: u32 = (icc_len as u64 % 4294967296u64) as u32;
    push_tag(out, [0x49, 0x43, 0x43, 0x50]);
    push_le32(out, icc_size);
    append_bytes(out, icc);
    if icc_len % 2 == 1 {
        out.push(0);
    }
    assert([0x49u8, 0x43, 0x43, 0x50]@ =~= tag_iccp());
    assert(out@ =~= prev + iccp_chunk(icc@));
}

/// Injects an ICC profile into a simple-format (VP8/VP8L) WebP stream by
/// converting it to the extended VP8X layout.
fn inject_icc_profile(webp: &[u8], icc_profile: &[u8], width: u32, height: u32) -> (r: Result<
    Vec<u8>,
    ImageError,
>)
    requires
        width >= 1,
        height >= 1,
    ensures
        webp@.len() < 16 ==> r == Err::<Vec<u8>, ImageError>(ImageError::WebpTooShort),
        webp@.len() >= 16 && webp@.subrange(0, 4) != tag_riff() ==> r == Err::<Vec<u8>, ImageError>(
            ImageError::WebpMissingRiff,
        ),
        webp@.len() >= 16 && webp@.subrange(0, 4) == tag_riff() && webp@.subrange(8, 12)
            != tag_webp() ==> r == Err::<Vec<u8>, ImageError>(ImageError::WebpMissingWebp),
        webp@.len() >= 16 && webp@.subrange(0, 4) == tag_riff() && webp@.subrange(8, 12)
            == tag_webp() && webp@.subrange(12, 16) != tag_vp8() && webp@.subrange(12, 16)
            != tag_vp8l() ==> r == Err::<Vec<u8>, ImageError>(ImageError::WebpAlreadyExtended),
        webp@.len() >= 16 && webp@.subrange(0, 4) == tag_riff() && webp@.subrange(8, 12)
            == tag_webp() && (webp@.subrange(12, 16) == tag_vp8() || webp@.subrange(12, 16)
            == tag_vp8l()) ==> (r matches Ok(out) && out@ == webp_with_icc(
            webp@,
            icc_profile@,
            width,
            height,
        )),
{
    let len = webp.len();
    if len < 16 {
        return Err(ImageError::WebpTooShort);
    }
    if !has_tag(webp, 0, [0x52, 0x49, 0x46, 0x46]) {
        return Err(ImageError::WebpMissingRiff);
    }
    if !has_tag(webp, 8, [0x57, 0x45, 0x42, 0x50]) {
        return Err(ImageError::WebpMissingWebp);
    }
    if !(has_tag(webp, 12, [0x56, 0x50, 0x38, 0x20]) || has_tag(webp, 12, [0x56, 0x50, 0x38, 0x4C])) {
        return Err(ImageError::WebpAlreadyExtended);
    }
    let riff_size = riff_size_field(len, icc_profile.len());
    let mut output: Vec<u8> = Vec::new();
    push_tag(&mut output, [0x52, 0x49, 0x46, 0x46]);
    push_le32(&mut output, riff_size);
    push_tag(&mut output, [0x57, 0x45, 0x42, 0x50]);
    push_vp8x_chunk(&mut output, width, height);
    push_iccp_chunk(&mut output, icc_profile);
    append_bytes(&mut output, vstd::slice::slice_subrange(webp, 12, len));
    proof {
        assert(output@ =~= webp_with_icc(webp@, icc_profile@, width, height));
    }
    Ok(output)
}


/// Attaches the ICC profile (if any) to an encoded WebP stream.
pub fn finish_webp_stream(encoded: Vec<u8>, icc_profile: Option<&[u8]>, width: u32, height: u32) -> (r:
    Result<Vec<u8>, ImageError>)
    requires
        width >= 1,
        height >= 1,
    ensures
        icc_profile is None ==> r == Ok::<Vec<u8>, ImageError>(encoded),
        icc_profile matches Some(icc) ==> (r matches Ok(out) ==> out@ == webp_with_icc(
            encoded@,
            icc@,
            width,
            height,
        )),
        icc_profile matches Some(icc) ==> (r is Ok <==> (encoded@.len() >= 16 && encoded@.subrange(
            0,
            4,
        ) == tag_riff() && encoded@.subrange(8, 12) == tag_webp() && (encoded@.subrange(12, 16)
            == tag_vp8() || encoded@.subrange(12, 16) == tag_vp8l()))),
        r matches Err(e) ==> e == ImageError::WebpTooShort || e == ImageError::WebpMissingRiff || e
            == ImageError::WebpMissingWebp || e == ImageError::WebpAlreadyExtended,
{
    match icc_profile {
        Some(icc) => inject_icc_profile(encoded.as_slice(), icc, width, height),
        None => Ok(encoded),
    }
}

/// WebP encoder using libwebp.
pub struct WebpEncoder;

impl super::Encoder for WebpEncoder {
    type Config = WebpConfig;

    open spec fn accepts(config: Self::Config, width: u32, height: u32, rgba_len: nat) -> bool {
        &&& config.lossless ==> 1 <= width <= WEBP_MAX_DIMENSION && 1 <= height
            <= WEBP_MAX_DIMENSION
        &&& rgba_len == width as int * height as int * 4
    }

    /// Encodes lossless (VP8L) or lossy (method 6 at the configured quality);
    /// with a profile, the stream is rewritten to the extended layout.
    fn encode(
        rgba: &[u8],
        width: u32,
        height: u32,
        config: &Self::Config,
        icc_profile: Option<&[u8]>,
    ) -> (r: Result<Vec<u8>, ImageError>)
        ensures
            icc_profile matches Some(icc) ==> (r matches Ok(out) ==> exists|e: Seq<u8>|
                out@ == webp_with_icc(e, icc@, width, height)),
            config.lossless ==> r is Ok,
            icc_profile is None ==> (r matches Ok(out) ==> webp_encoded_by(
                rgba@,
                width,
                height,
                *config,
                out@,
            )),
            icc_profile matches Some(icc) ==> (r matches Ok(out) ==> exists|e: Seq<u8>|
                #![trigger webp_with_icc(e, icc@, width, height)]
                webp_encoded_by(rgba@, width, height, *config, e) && out@ == webp_with_icc(
                    e,
                    icc@,
                    width,
                    height,
                )),
            !config.lossless && !(1 <= width <= WEBP_MAX_DIMENSION && 1 <= height
                <= WEBP_MAX_DIMENSION) ==> r == Err::<Vec<u8>, ImageError>(ImageError::Encode),
            r matches Err(e) ==> e == ImageError::Encode || e == ImageError::WebpTooShort || e
                == ImageError::WebpMissingRiff || e == ImageError::WebpMissingWebp || e
                == ImageError::WebpAlreadyExtended,
            icc_profile is None ==> (r matches Err(e) ==> e == ImageError::Encode),
    {
        let encoded = if config.lossless {
            webp_encode_lossless(rgba, width, height)
        } else {
            if width == 0 || height == 0 || width > WEBP_MAX_DIMENSION || height > WEBP_MAX_DIMENSION {
                return Err(ImageError::Encode);
            }
            match webp_encode_lossy(rgba, width, height, config.quality, WEBP_LOSSY_METHOD) {
                Some(e) => e,
                None => {
                    return Err(ImageError::Encode);
                },
            }
        };
        finish_webp_stream(encoded, icc_profile, width, height)
    }

    fn extension() -> (r: &'static str)
        ensures
            r@ == "webp"@,
    {
        "webp"
    }

    fn mime_type() -> (r: &'static str)
        ensures
            r@ == "image/webp"@,
    {
        "image/webp"
    }
}

// ---------------------------------------------------------------------------
// webp / libwebp
// ---------------------------------------------------------------------------

/// Whether a stream begins as libwebp writes a lossless one: the RIFF header
/// (`RIFF`, a size, `WEBP`) and the `VP8L` chunk tag.
pub open spec fn lossless_outline(b: Seq<u8>) -> bool {
    &&& b.len() >= 21
    &&& b.subrange(0, 4) == tag_riff()
    &&& b.subrange(8, 12) == tag_webp()
    &&& b.subrange(12, 16) == tag_vp8l()
}

/// Whether a stream begins as libwebp writes a lossy one: the RIFF header,
/// then the `VP8 ` chunk, or the `VP8X` chunk when the image has alpha.
pub open spec fn lossy_outline(b: Seq<u8>) -> bool {
    &&& b.len() >= 20
    &&& b.subrange(0, 4) == tag_riff()
    &&& b.subrange(8, 12) == tag_webp()
    &&& (b.subrange(12, 16) == tag_vp8() || b.subrange(12, 16) == tag_vp8x())
}

/// Whether `out` is a lossless stream libwebp writes for the RGBA pixels (see
/// `webp_encode_lossless`). A relation rather than a function: libwebp picks
/// its SIMD code at run time.
pub uninterp spec fn webp_lossless_output(rgba: Seq<u8>, width: u32, height: u32, out: Seq<u8>) -> bool;

/// Whether `out` is a lossy stream libwebp writes for the RGBA pixels at the
/// quality and compression method (see `webp_encode_lossy`). A relation
/// rather than a function, for the same reason.
pub uninterp spec fn webp_lossy_output(
    rgba: Seq<u8>,
    width: u32,
    height: u32,
    quality: u8,
    method: i32,
    out: Seq<u8>,
) -> bool;

/// `webp::Encoder::encode_lossless` on an encoder made by
/// `webp::Encoder::from_rgba`: the stream, copied out of libwebp's buffer.
/// The crate's `Encoder` type shares its name with this library's encoder
/// trait and so cannot be declared here; both calls stand in this one item.
/// `from_rgba` panics on a buffer shorter than `width * height * 4`, and
/// `encode_lossless` unwraps libwebp's result, so it panics where libwebp
/// fails (an empty image or a side above 16383); those inputs are left out.
/// libwebp's lossless writer (`WriteRiffHeader` in `vp8l_enc.c`) starts the
/// stream with `RIFF`, the size, `WEBP`, `VP8L`, the chunk size and the
/// signature byte.
#[verifier::external_body]
fn webp_encode_lossless(rgba: &[u8], width: u32, height: u32) -> (r: Vec<u8>)
    requires
        rgba@.len() >= width as int * height as int * 4,
        1 <= width <= 16383,
        1 <= height <= 16383,
    ensures
        lossless_outline(r@),
        webp_lossless_output(rgba@, width, height, r@),
{
    webp::Encoder::from_rgba(rgba, width, height).encode_lossless().to_vec()
}

/// `webp::WebPConfig::new` with `quality` (passed as the float libwebp takes)
/// and the compression `method`, then `webp::Encoder::encode_advanced` on an
/// encoder made by `webp::Encoder::from_rgba` (the calls stand here for the
/// reason given at `webp_encode_lossless`): the encoded stream, or `None`
/// where libwebp reports an error (an invalid setting, a partition that
/// overflows its size limit, a failed allocation). `from_rgba` panics on a
/// buffer shorter than `width * height * 4`, and the crate computes the row
/// stride as `width as i32 * 4`, which overflows for very wide images; both
/// are left out by bounding the sides to libwebp's own limit of 16383.
/// libwebp's lossy writer (`PutWebPHeaders` in `syntax_enc.c`) starts the
/// stream with `RIFF`, the size and `WEBP`, then the eight-byte `VP8 ` chunk
/// header, or the eighteen-byte `VP8X` chunk when the image has alpha.
#[verifier::external_body]
fn webp_encode_lossy(rgba: &[u8], width: u32, height: u32, quality: u8, method: i32) -> (r: Option<
    Vec<u8>,
>)
    requires
        rgba@.len() >= width as int * height as int * 4,
        1 <= width <= 16383,
        1 <= height <= 16383,
    ensures
        r matches Some(out) ==> lossy_outline(out@),
        r matches Some(out) ==> webp_lossy_output(rgba@, width, height, quality, method, out@),
{
    let mut config = webp::WebPConfig::new().ok()?;
    config.quality = quality.into();
    config.method = method;
    let encoded = webp::Encoder::from_rgba(rgba, width, height).encode_advanced(&config).ok()?;
    Some(encoded.to_vec())
}

} // verus!
