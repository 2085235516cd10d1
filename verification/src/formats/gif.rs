//! GIF encoding: alpha thresholding, palette quantization with imagequant,
//! and a single-frame GIF written with the gif crate.
use vstd::prelude::*;
use imagequant::{Attributes, RGBA};
use crate::error::ImageError;

verus! {

/// The loop count written into the GIF: 0 extra repetitions, a still image
/// shown once.
pub const GIF_REPEAT_COUNT: u16 = 0;

/// The imagequant speed the GIF encoder quantizes at.
pub const GIF_QUANTIZER_SPEED: i32 = 3;

/// GIF encoding configuration.
#[derive(Debug, Clone, Copy, PartialEq, Eq, Structural)]
pub struct GifConfig {
    /// Quality level 0-100 (controls color quantization)
    pub quality: u8,
    /// Pixels with alpha below this become fully transparent
    pub alpha_threshold: u8,
}

impl Default for GifConfig {
    fn default() -> (r: Self)
        ensures
            r == (GifConfig { quality: 80, alpha_threshold: 128 }),
    {
        GifConfig { quality: 80, alpha_threshold: 128 }
    }
}

impl GifConfig {
    pub fn new() -> (r: Self)
        ensures
            r == (GifConfig { quality: 80, alpha_threshold: 128 }),
    {
        Self::default()
    }

    pub fn with_quality(self, quality: u8) -> (r: Self)
        ensures
            r == (GifConfig { quality: crate::formats::jpeg::clamp_u8(quality, 0, 100), ..self }),
    {
        GifConfig { quality: crate::formats::jpeg::clamp_byte(quality, 0, 100), ..self }
    }

    pub fn with_alpha_threshold(self, threshold: u8) -> (r: Self)
        ensures
            r == (GifConfig { alpha_threshold: threshold, ..self }),
    {
        GifConfig { alpha_threshold: threshold, ..self }
    }
}

/// Byte `i` of the thresholded buffer: a pixel whose alpha is below the
/// threshold becomes transparent black `(0, 0, 0, 0)`, any other pixel keeps
/// its color and becomes opaque (alpha 255).
pub open spec fn thresholded_byte(rgba: Seq<u8>, threshold: u8, i: int) -> u8 {
    let p = i / 4;
    let c = i % 4;
    if rgba[p * 4 + 3] < threshold {
        0
    } else if c == 3 {
        255
    } else {
        rgba[p * 4 + c]
    }
}

/// The whole-pixel part of an RGBA buffer with binary alpha.
pub open spec fn thresholded_pixels(rgba: Seq<u8>, threshold: u8) -> Seq<u8> {
    Seq::new(((rgba.len() / 4) * 4) as nat, |i: int| thresholded_byte(rgba, threshold, i))
}

/// After thresholding, transparency is binary as GIF needs it: every alpha
/// byte is 0 or 255, a pixel is transparent exactly where its alpha was
/// below the threshold, transparent pixels are all zero, and opaque ones
/// keep their color.
pub proof fn lemma_thresholded_alpha_is_binary(rgba: Seq<u8>, threshold: u8, p: int)
    requires
        0 <= p < rgba.len() / 4,
    ensures
        ({
            let out = thresholded_pixels(rgba, threshold);
            &&& out[p * 4 + 3] == 0 || out[p * 4 + 3] == 255
            &&& out[p * 4 + 3] == 0 <==> rgba[p * 4 + 3] < threshold
            &&& out[p * 4 + 3] == 0 ==> out[p * 4] == 0 && out[p * 4 + 1] == 0 && out[p * 4 + 2]
                == 0
            &&& out[p * 4 + 3] == 255 ==> out[p * 4] == rgba[p * 4] && out[p * 4 + 1] == rgba[p * 4
                + 1] && out[p * 4 + 2] == rgba[p * 4 + 2]
        }),
{
    vstd::arithmetic::div_mod::lemma_fundamental_div_mod_converse(p * 4, 4, p, 0);
    vstd::arithmetic::div_mod::lemma_fundamental_div_mod_converse(p * 4 + 1, 4, p, 1);
    vstd::arithmetic::div_mod::lemma_fundamental_div_mod_converse(p * 4 + 2, 4, p, 2);
    vstd::arithmetic::div_mod::lemma_fundamental_div_mod_converse(p * 4 + 3, 4, p, 3);
    assert(p * 4 + 3 < (rgba.len() / 4) * 4);
}

/// Applies the alpha threshold to every whole pixel.
pub fn threshold_alpha(rgba: &[u8], threshold: u8) -> (r: Vec<u8>)
    ensures
        r@ == thresholded_pixels(rgba@, threshold),
{
    let len = rgba.len();
    let n = len / 4;
    proof {
        vstd::arithmetic::div_mod::lemma_fundamental_div_mod(rgba@.len() as int, 4);
    }
    let mut out: Vec<u8> = Vec::new();
    let mut p: usize = 0;
    while p < n
        invariant
            len == rgba@.len(),
            n == rgba@.len() / 4,
            n * 4 <= rgba@.len(),
            p <= n,
            out@.len() == p * 4,
            forall|i: int| 0 <= i < p * 4 ==> out@[i] == thresholded_byte(rgba@, threshold, i),
        decreases n - p,
    {
        let base = p * 4;
        if rgba[base + 3] < threshold {
            out.push(0);
            out.push(0);
            out.push(0);
            out.push(0);
        } else {
            out.push(rgba[base]);
            out.push(rgba[base + 1]);
            out.push(rgba[base + 2]);
            out.push(255);
        }
        proof {
            assert forall|i: int| 0 <= i < (p + 1) * 4 implies out@[i] == thresholded_byte(
                rgba@,
                threshold,
                i,
            ) by {
                if i >= p * 4 {
                    vstd::arithmetic::div_mod::lemma_fundamental_div_mod_converse(
                        i,
                        4,
                        p as int,
                        i - p * 4,
                    );
                }
            }
        }
        p = p + 1;
    }
    proof {
        assert(out@ =~= thresholded_pixels(rgba@, threshold));
    }
    out
}

/// The quality range handed to imagequant: `quality - 20` (saturating) to
/// `quality`.
pub fn gif_quality_range(quality: u8) -> (r: (u8, u8))
    ensures
        r.0 == (if quality >= 20 { quality - 20 } else { 0 }),
        r.1 == quality,
{
    let min_quality = if quality >= 20 {
        quality - 20
    } else {
        0
    };
    (min_quality, quality)
}

/// The palette as GIF stores it: `r, g, b` per entry.
pub open spec fn rgb_palette_of(palette: Seq<(u8, u8, u8, u8)>) -> Seq<u8> {
    Seq::new(
        (palette.len() * 3) as nat,
        |i: int|
            {
                let e = palette[i / 3];
                if i % 3 == 0 {
                    e.0
                } else if i % 3 == 1 {
                    e.1
                } else {
                    e.2
                }
            },
    )
}

/// Index of the first fully transparent entry at or after `from`.
pub open spec fn first_transparent_from(palette: Seq<(u8, u8, u8, u8)>, from: int) -> Option<int>
    decreases palette.len() - from,
{
    if from < 0 || from >= palette.len() {
        None
    } else if palette[from].3 == 0 {
        Some(from)
    } else {
        first_transparent_from(palette, from + 1)
    }
}

/// The transparent color index of a palette: its first fully transparent
/// entry, as a byte.
pub open spec fn transparent_index_of(palette: Seq<(u8, u8, u8, u8)>) -> Option<u8> {
    match first_transparent_from(palette, 0) {
        Some(i) => Some(i as u8),
        None => None,
    }
}

/// Converts a quantized palette to GIF's RGB palette and finds the
/// transparent index (the first entry with alpha 0).
pub fn palette_to_gif(palette: &Vec<(u8, u8, u8, u8)>) -> (r: (Vec<u8>, Option<u8>))
    requires
        palette@.len() <= 256,
    ensures
        r.0@ == rgb_palette_of(palette@),
        r.1 == transparent_index_of(palette@),
{
    let n = palette.len();
    let mut rgb: Vec<u8> = Vec::new();
    let mut transparent: Option<u8> = None;
    let mut i: usize = 0;
    while i < n
        invariant
            n == palette@.len(),
            n <= 256,
            i <= n,
            rgb@.len() == i * 3,
            forall|k: int| 0 <= k < i * 3 ==> rgb@[k] == rgb_palette_of(palette@)[k],
            transparent is None ==> first_transparent_from(palette@, 0)
                == first_transparent_from(palette@, i as int),
            transparent is Some ==> transparent == transparent_index_of(palette@),
        decreases n - i,
    {
        let (r, g, b, a) = palette[i];
        rgb.push(r);
        rgb.push(g);
        rgb.push(b);
        if a == 0 && transparent.is_none() {
            transparent = Some(i as u8);
        }
        proof {
            assert forall|k: int| 0 <= k < (i + 1) * 3 implies rgb@[k] == rgb_palette_of(palette@)[k] by {
                if k >= i * 3 {
                    vstd::arithmetic::div_mod::lemma_fundamental_div_mod_converse(
                        k,
                        3,
                        i as int,
                        k - i * 3,
                    );
                }
            }
        }
        i = i + 1;
    }
    proof {
        assert(rgb@ =~= rgb_palette_of(palette@));
    }
    (rgb, transparent)
}

/// The bytes `GIF89a`.
pub open spec fn gif_signature() -> Seq<u8> {
    seq![0x47u8, 0x49, 0x46, 0x38, 0x39, 0x61]
}

/// The outline of a GIF file: the `GIF89a` signature, the logical screen
/// width and height as little-endian 16-bit values, and the trailer byte
/// 0x3B at the end.
pub open spec fn gif_file_frame(gif: Seq<u8>, width: int, height: int) -> bool {
    &&& gif.len() >= 11
    &&& gif.subrange(0, 6) == gif_signature()
    &&& gif[6] as int + gif[7] as int * 256 == width
    &&& gif[8] as int + gif[9] as int * 256 == height
    &&& gif[gif.len() - 1] == 0x3B
}

/// Whether every index is below `n`.
fn indices_below(indices: &Vec<u8>, n: usize) -> (r: bool)
    ensures
        r == (forall|i: int| 0 <= i < indices@.len() ==> indices@[i] < n),
{
    let len = indices.len();
    let mut i: usize = 0;
    while i < len
        invariant
            len == indices@.len(),
            i <= len,
            forall|j: int| 0 <= j < i ==> indices@[j] < n,
        decreases len - i,
    {
        if indices[i] as usize >= n {
            return false;
        }
        i = i + 1;
    }
    true
}

/// A palette with no fully transparent entry has no transparent index.
proof fn lemma_no_transparent_entry(palette: Seq<(u8, u8, u8, u8)>, from: int)
    requires
        forall|j: int| 0 <= j < palette.len() ==> #[trigger] palette[j].3 != 0,
    ensures
        first_transparent_from(palette, from) is None,
    decreases palette.len() - from,
{
    if from < 0 || from >= palette.len() {
    } else {
        lemma_no_transparent_entry(palette, from + 1);
    }
}

/// The first transparent entry found from `from` lies inside the palette.
proof fn lemma_first_transparent_in_range(palette: Seq<(u8, u8, u8, u8)>, from: int)
    ensures
        first_transparent_from(palette, from) matches Some(k) ==> 0 <= from <= k < palette.len(),
    decreases palette.len() - from,
{
    if from < 0 || from >= palette.len() {
    } else if palette[from].3 == 0 {
    } else {
        lemma_first_transparent_in_range(palette, from + 1);
    }
}

/// Whether a quantizer's palette and indices make a GIF frame of the given
/// size: 1 to 256 palette entries, one index per pixel, every index inside
/// the palette.
pub open spec fn gif_parts_valid(
    palette: Seq<(u8, u8, u8, u8)>,
    indices: Seq<u8>,
    width: u32,
    height: u32,
) -> bool {
    &&& 1 <= palette.len() <= 256
    &&& indices.len() == width as int * height as int
    &&& forall|i: int| 0 <= i < indices.len() ==> indices[i] < palette.len()
}

/// Turns a quantizer's palette and indices into the parts of a GIF frame:
/// the indices, the RGB palette and the transparent index (the first fully
/// transparent entry); fails where they do not make a frame of the size.
pub fn gif_frame_parts(
    palette: Vec<(u8, u8, u8, u8)>,
    indices: Vec<u8>,
    width: u32,
    height: u32,
) -> (r: Result<(Vec<u8>, Vec<u8>, Option<u8>), ImageError>)
    ensures
        gif_parts_valid(palette@, indices@, width, height) ==> (r matches Ok((idx, rgb, t))
            && idx@ == indices@ && rgb@ == rgb_palette_of(palette@) && t == transparent_index_of(
            palette@,
        )),
        !gif_parts_valid(palette@, indices@, width, height) ==> r == Err::<
            (Vec<u8>, Vec<u8>, Option<u8>),
            ImageError,
        >(ImageError::Encode),
{
    proof {
        assert(width as int * height as int <= 0xffff_ffff_ffff_ffff) by (nonlinear_arith)
            requires
                width <= 0xffff_ffff,
                height <= 0xffff_ffff,
        ;
    }
    if palette.len() == 0 || palette.len() > 256 || indices.len() as u64 != width as u64
        * height as u64 {
        return Err(ImageError::Encode);
    }
    if !indices_below(&indices, palette.len()) {
        return Err(ImageError::Encode);
    }
    let (rgb_palette, transparent) = palette_to_gif(&palette);
    Ok((indices, rgb_palette, transparent))
}

/// The lowest quality imagequant is allowed to settle for.
pub open spec fn gif_min_quality(quality: u8) -> u8 {
    if quality >= 20 {
        (quality - 20) as u8
    } else {
        0
    }
}

/// Whether `palette` and `indices` are what imagequant gives for the pixels
/// after alpha thresholding, at the quality range and speed the encoder
/// uses, and make a frame of the size.
pub open spec fn gif_quantized_for(
    rgba: Seq<u8>,
    width: u32,
    height: u32,
    quality: u8,
    alpha_threshold: u8,
    palette: Seq<(u8, u8, u8, u8)>,
    indices: Seq<u8>,
) -> bool {
    &&& iq_quantized(
        thresholded_pixels(rgba, alpha_threshold),
        width as usize,
        height as usize,
        gif_min_quality(quality),
        quality,
        GIF_QUANTIZER_SPEED,
        palette,
        indices,
    )
    &&& gif_parts_valid(palette, indices, width, height)
}

/// GIF encoder using imagequant for quantization.
pub struct GifEncoderImpl;

impl GifEncoderImpl {
    /// Quantizes RGBA pixels (alpha thresholded to binary) to a palette of at
    /// most 256 colors with dithering; returns the indices, the RGB palette
    /// and the transparent index.
    pub fn quantize_with_transparency(
        rgba: &[u8],
        width: u32,
        height: u32,
        quality: u8,
        alpha_threshold: u8,
    ) -> (r: Result<(Vec<u8>, Vec<u8>, Option<u8>), ImageError>)
        ensures
            r matches Ok((indices, rgb, transparent)) ==> {
                &&& indices@.len() == width as int * height as int
                &&& exists|palette: Seq<(u8, u8, u8, u8)>|
                    1 <= palette.len() <= 256 && rgb@ == rgb_palette_of(palette) && transparent
                        == transparent_index_of(palette)
                &&& 3 <= rgb@.len() <= 768 && rgb@.len() % 3 == 0
                &&& forall|i: int| 0 <= i < indices@.len() ==> 3 * indices@[i] < rgb@.len()
                &&& transparent matches Some(k) ==> 3 * k < rgb@.len()
            },
            r matches Ok((indices, rgb, transparent)) ==> exists|
                palette: Seq<(u8, u8, u8, u8)>,
                ind: Seq<u8>,
            |
                #![trigger gif_quantized_for(rgba@, width, height, quality, alpha_threshold, palette, ind)]
                gif_quantized_for(rgba@, width, height, quality, alpha_threshold, palette, ind)
                    && indices@ == ind && rgb@ == rgb_palette_of(palette) && transparent
                    == transparent_index_of(palette),
            quality > 100 ==> r is Err,
            (forall|k: int| 0 <= k < rgba@.len() / 4 ==> #[trigger] rgba@[4 * k + 3] >= alpha_threshold)
                ==> (r matches Ok((indices, rgb, transparent)) ==> transparent is None),
            r matches Err(e) ==> e == ImageError::Encode,
    {
        let pixels = threshold_alpha(rgba, alpha_threshold);
        proof {
            if forall|k: int| 0 <= k < rgba@.len() / 4 ==> #[trigger] rgba@[4 * k + 3] >= alpha_threshold {
                assert forall|k: int| 0 <= k < pixels@.len() / 4 implies #[trigger] pixels@[4 * k + 3]
                    == 255 by {
                    assert(pixels@.len() == (rgba@.len() / 4) * 4);
                    assert(pixels@.len() / 4 == rgba@.len() / 4) by {
                        vstd::arithmetic::div_mod::lemma_div_multiples_vanish(rgba@.len() as int / 4, 4);
                    }
                    lemma_thresholded_alpha_is_binary(rgba@, alpha_threshold, k);
                    assert(rgba@[4 * k + 3] >= alpha_threshold);
                    assert(4 * k + 3 == k * 4 + 3);
                }
            }
        }
        let (min_quality, max_quality) = gif_quality_range(quality);
        if max_quality > 100 {
            return Err(ImageError::Encode);
        }
        let (palette, indices) = match iq_quantize_rgba(
            pixels,
            width as usize,
            height as usize,
            min_quality,
            max_quality,
            GIF_QUANTIZER_SPEED,
        ) {
            Some(p) => p,
            None => {
                return Err(ImageError::Encode);
            },
        };
        let ghost pv = palette@;
        let ghost iv = indices@;
        let parts = gif_frame_parts(palette, indices, width, height);
        proof {
            lemma_first_transparent_in_range(pv, 0);
            if forall|j: int| 0 <= j < pv.len() ==> #[trigger] pv[j].3 != 0 {
                lemma_no_transparent_entry(pv, 0);
            }
            if parts is Ok {
                assert(gif_quantized_for(rgba@, width, height, quality, alpha_threshold, pv, iv));
            }
            if parts is Ok {
                assert(parts->Ok_0.1@ == rgb_palette_of(pv));
                assert(parts->Ok_0.1@.len() == pv.len() * 3);
            }
        }
        parts
    }
}

impl super::Encoder for GifEncoderImpl {
    type Config = GifConfig;

    open spec fn accepts(config: Self::Config, width: u32, height: u32, rgba_len: nat) -> bool {
        &&& width <= 65535
        &&& height <= 65535
        &&& rgba_len == width as int * height as int * 4
    }

    /// Quantizes and writes a single-frame GIF; GIF carries no ICC profile.
    fn encode(
        rgba: &[u8],
        width: u32,
        height: u32,
        config: &Self::Config,
        icc_profile: Option<&[u8]>,
    ) -> (r: Result<Vec<u8>, ImageError>)
        ensures
            config.quality > 100 ==> r is Err,
            r matches Ok(out) ==> gif_file_frame(out@, width as int, height as int),
            r matches Ok(out) ==> exists|indices: Seq<u8>, rgb: Seq<u8>, transparent: Option<u8>|
                #![trigger gif_file_bytes(width as u16, height as u16, rgb, indices, transparent, GIF_REPEAT_COUNT)]
                {
                    &&& indices.len() == width as int * height as int
                    &&& 3 <= rgb.len() <= 768 && rgb.len() % 3 == 0
                    &&& forall|i: int| 0 <= i < indices.len() ==> 3 * indices[i] < rgb.len()
                    &&& transparent matches Some(k) ==> 3 * k < rgb.len()
                    &&& out@ == gif_file_bytes(
                        width as u16,
                        height as u16,
                        rgb,
                        indices,
                        transparent,
                        GIF_REPEAT_COUNT,
                    )
                },
            r matches Ok(out) ==> exists|palette: Seq<(u8, u8, u8, u8)>, ind: Seq<u8>|
                #![trigger gif_quantized_for(rgba@, width, height, config.quality, config.alpha_threshold, palette, ind)]
                gif_quantized_for(
                    rgba@,
                    width,
                    height,
                    config.quality,
                    config.alpha_threshold,
                    palette,
                    ind,
                ) && out@ == gif_file_bytes(
                    width as u16,
                    height as u16,
                    rgb_palette_of(palette),
                    ind,
                    transparent_index_of(palette),
                    GIF_REPEAT_COUNT,
                ),
            r matches Err(e) ==> e == ImageError::Encode,
    {
        let w: u16 = if width < 65535 {
            width as u16
        } else {
            65535
        };
        let h: u16 = if height < 65535 {
            height as u16
        } else {
            65535
        };
        let (indices, palette, transparent) = match Self::quantize_with_transparency(
            rgba,
            width,
            height,
            config.quality,
            config.alpha_threshold,
        ) {
            Ok(q) => q,
            Err(e) => {
                return Err(e);
            },
        };
        let ghost rgb_view = palette@;
        let ghost indices_view = indices@;
        match gif_write_single_frame(w, h, palette, indices, transparent, GIF_REPEAT_COUNT) {
            Some(out) => {
                assert(out@ == gif_file_bytes(
                    width as u16,
                    height as u16,
                    rgb_view,
                    indices_view,
                    transparent,
                    GIF_REPEAT_COUNT,
                ));
                Ok(out)
            },
            None => Err(ImageError::Encode),
        }
    }

    fn extension() -> (r: &'static str)
        ensures
            r@ == "gif"@,
    {
        "gif"
    }

    fn mime_type() -> (r: &'static str)
        ensures
            r@ == "image/gif"@,
    {
        "image/gif"
    }
}

// ---------------------------------------------------------------------------
// imagequant and gif
// ---------------------------------------------------------------------------

/// Whether `palette` (entries `(r, g, b, a)`) and `indices` (one per
/// pixel) are what imagequant gives (see `iq_quantize_rgba`) for the RGBA
/// pixels of the given size, quality range and speed. A relation rather than
/// a function: imagequant's color distance is compiled differently per
/// target (NEON adds the channels in another order than x86_64 and the
/// scalar code), so the palette may differ from machine to machine.
pub uninterp spec fn iq_quantized(
    rgba: Seq<u8>,
    width: usize,
    height: usize,
    min_quality: u8,
    max_quality: u8,
    speed: i32,
    palette: Seq<(u8, u8, u8, u8)>,
    indices: Seq<u8>,
) -> bool;

/// One quantization with imagequant: `Attributes::new` (up to 256 colors),
/// `set_quality(min_quality, max_quality)`, `set_speed(speed)`, `new_image`
/// over the RGBA bytes grouped four by four into imagequant's pixel type
/// with gamma 0 (read as sRGB), `quantize` and `remapped` (with the
/// result's dithering level left at its initial 1.0, full Floyd-Steinberg): the palette, each entry
/// as `(r, g, b, a)`, and one palette index per pixel. The attributes, image
/// and result are imagequant's own types, so the calls stand in this one
/// item. The quality setter accepts exactly a target of at most 100 not below
/// the minimum, and the speed setter speeds 1 to 10; other values are left
/// out. `None` where imagequant fails (it rejects the dimensions, the quality
/// target cannot be met, an allocation fails). Where every pixel is opaque,
/// each palette entry is an average of opaque colors (alpha 1.0 in
/// imagequant's float pixels), which `f_pixel::to_rgb` writes with alpha 255
/// (only an entry with alpha below 1/256 is written as transparent), so no
/// entry has alpha 0. Nothing else is stated of the colors or indices beyond
/// `iq_quantized`.
#[verifier::external_body]
fn iq_quantize_rgba(
    rgba: Vec<u8>,
    width: usize,
    height: usize,
    min_quality: u8,
    max_quality: u8,
    speed: i32,
) -> (r: Option<(Vec<(u8, u8, u8, u8)>, Vec<u8>)>)
    requires
        min_quality <= max_quality <= 100,
        1 <= speed <= 10,
    ensures
        r matches Some((p, i)) ==> iq_quantized(rgba@, width, height, min_quality, max_quality, speed, p@, i@),
        r matches Some((p, i)) ==> ((forall|k: int| 0 <= k < rgba@.len() / 4 ==> #[trigger] rgba@[4 * k + 3] == 255)
            ==> forall|j: int| 0 <= j < p@.len() ==> #[trigger] p@[j].3 != 0),
{
    let mut attr = Attributes::new();
    attr.set_quality(min_quality, max_quality).ok()?;
    attr.set_speed(speed).ok()?;
    let pixels = rgba.chunks_exact(4).map(|c| RGBA::new(c[0], c[1], c[2], c[3]));
    let mut img = attr.new_image(pixels.collect::<Vec<_>>(), width, height, 0u8.into()).ok()?;
    let mut result = attr.quantize(&mut img).ok()?;
    let (palette, indices) = result.remapped(&mut img).ok()?;
    Some((palette.iter().map(|c| (c.r, c.g, c.b, c.a)).collect(), indices))
}

/// The GIF file the gif crate writes for one frame of `width` x `height`
/// palette indices with a global RGB palette, a transparent index and a
/// repeat count (see `gif_write_single_frame`); a function of these values
/// alone (the crate's LZW coder is plain Rust with no time, chance or
/// machine dependence).
pub uninterp spec fn gif_file_bytes(
    width: u16,
    height: u16,
    palette: Seq<u8>,
    indices: Seq<u8>,
    transparent: Option<u8>,
    repeat: u16,
) -> Seq<u8>;

/// Writes one GIF frame with the gif crate into memory: `gif::Encoder::new`
/// with the global palette, `set_repeat(Repeat::Finite(repeat))`, one
/// `Frame::from_palette_pixels` frame with the transparent index, then the
/// trailer (`into_inner`). The crate's `Encoder` type shares its name with
/// this library's encoder trait and so cannot be declared here; the calls on
/// it stand in this one item. `from_palette_pixels` panics unless there are
/// `width * height` indices and at most 256 palette entries, so other inputs
/// are left out. `None` where the crate reports an error (such as a failed
/// allocation); the bytes are named by `gif_file_bytes`. `Encoder::new`
/// writes the logical screen descriptor first (`GIF89a`, then the width and
/// height as little-endian 16-bit values) and `into_inner` ends the file
/// with the trailer byte 0x3B; nothing more is stated of the bytes.
#[verifier::external_body]
fn gif_write_single_frame(
    width: u16,
    height: u16,
    palette: Vec<u8>,
    indices: Vec<u8>,
    transparent: Option<u8>,
    repeat: u16,
) -> (r: Option<Vec<u8>>)
    requires
        indices@.len() == width as int * height as int,
        palette@.len() <= 768,
    ensures
        r matches Some(out) ==> gif_file_frame(out@, width as int, height as int),
        r matches Some(out) ==> out@ == gif_file_bytes(
            width,
            height,
            palette@,
            indices@,
            transparent,
            repeat,
        ),
{
    let mut encoder = gif::Encoder::new(Vec::new(), width, height, &palette).ok()?;
    encoder.set_repeat(gif::Repeat::Finite(repeat)).ok()?;
    let frame = gif::Frame::from_palette_pixels(width, height, indices, palette, transparent);
    encoder.write_frame(&frame).ok()?;
    encoder.into_inner().ok()
}

} // verus!
