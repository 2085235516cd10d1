//! AVIF encoding using ravif (rav1e).
use vstd::prelude::*;
use crate::error::ImageError;

verus! {

/// AVIF encoding configuration.
#[derive(Debug, Clone, Copy, PartialEq, Eq, Structural)]
pub struct AvifConfig {
    /// Quality level (ravif takes 1-100; higher = better quality, larger file)
    pub quality: u8,
    /// Encoding speed 1-10 (1 = slowest/best, 10 = fastest/worst)
    pub speed: u8,
}

impl Default for AvifConfig {
    fn default() -> (r: Self)
        ensures
            r == (AvifConfig { quality: 80, speed: 4 }),
    {
        AvifConfig { quality: 80, speed: 4 }
    }
}

impl AvifConfig {
    pub fn new() -> (r: Self)
        ensures
            r == (AvifConfig { quality: 80, speed: 4 }),
    {
        Self::default()
    }

    pub fn with_quality(self, quality: u8) -> (r: Self)
        ensures
            r == (AvifConfig { quality: crate::formats::jpeg::clamp_u8(quality, 0, 100), ..self }),
    {
        AvifConfig { quality: crate::formats::jpeg::clamp_byte(quality, 0, 100), ..self }
    }

    pub fn with_speed(self, speed: u8) -> (r: Self)
        ensures
            r == (AvifConfig { speed: crate::formats::jpeg::clamp_u8(speed, 1, 10), ..self }),
    {
        AvifConfig { speed: crate::formats::jpeg::clamp_byte(speed, 1, 10), ..self }
    }
}

/// The box type `ftyp` that opens an AVIF (ISO-BMFF) file.
pub open spec fn ftyp_box_type() -> Seq<u8> {
    seq![0x66u8, 0x74, 0x79, 0x70]
}

/// The four big-endian bytes of a 32-bit value.
pub open spec fn be32_bytes(v: u32) -> Seq<u8> {
    seq![(v / 0x100_0000) as u8, (v / 0x1_0000 % 256) as u8, (v / 256 % 256) as u8, (v % 256) as u8]
}

/// The image spatial extents property box (`ispe`, a full box of 20 bytes)
/// that gives the picture's width and height.
pub open spec fn ispe_box(width: u32, height: u32) -> Seq<u8> {
    seq![0x00u8, 0x00, 0x00, 0x14, 0x69, 0x73, 0x70, 0x65, 0x00, 0x00, 0x00, 0x00] + be32_bytes(
        width,
    ) + be32_bytes(height)
}

/// Whether a file holds the `ispe` box of a picture of the given size.
pub open spec fn declares_extent(file: Seq<u8>, width: u32, height: u32) -> bool {
    exists|i: int| 0 <= i && i + 20 <= file.len() && #[trigger] file.subrange(i, i + 20) == ispe_box(width, height)
}

/// The file-type box an AVIF file starts with: 24 bytes long, major brand
/// `avif`, minor version 0, compatible brands `mif1` and `miaf`.
pub open spec fn avif_ftyp_box() -> Seq<u8> {
    seq![0x00u8, 0x00, 0x00, 0x18] + ftyp_box_type() + seq![0x61u8, 0x76, 0x69, 0x66] + seq![
        0x00u8,
        0x00,
        0x00,
        0x00,
    ] + seq![0x6du8, 0x69, 0x66, 0x31] + seq![0x6du8, 0x69, 0x61, 0x66]
}

/// AVIF encoder using ravif.
pub struct AvifEncoder;

impl super::Encoder for AvifEncoder {
    type Config = AvifConfig;

    /// ravif panics on a quality outside 1-100 or a speed outside 1-10.
    open spec fn accepts(config: Self::Config, width: u32, height: u32, rgba_len: nat) -> bool {
        &&& 1 <= width
        &&& 1 <= height
        &&& rgba_len == width as int * height as int * 4
        &&& 1 <= config.quality <= 100
        &&& 1 <= config.speed <= 10
    }

    /// Encodes the RGBA pixels with ravif at the configured quality and
    /// speed; the file is sRGB-tagged by ravif, so no ICC profile is embedded.
    fn encode(
        rgba: &[u8],
        width: u32,
        height: u32,
        config: &Self::Config,
        icc_profile: Option<&[u8]>,
    ) -> (r: Result<Vec<u8>, ImageError>)
        ensures
            width <= 65535 && height <= 65535 ==> r is Ok,
            r matches Ok(out) ==> out@.len() >= 8 && out@.subrange(4, 8) == ftyp_box_type(),
            r matches Ok(out) ==> out@.len() > 24 && out@.subrange(0, 24) == avif_ftyp_box(),
            r matches Ok(out) ==> declares_extent(out@, width, height),
            r matches Err(e) ==> e == ImageError::Encode,
    {
        match ravif_encode_rgba(rgba, width as usize, height as usize, config.quality, config.speed) {
            Some(out) => {
                assert(out@.subrange(4, 8) == out@.subrange(0, 24).subrange(4, 8));
                assert(avif_ftyp_box().subrange(4, 8) == ftyp_box_type());
                Ok(out)
            },
            None => Err(ImageError::Encode),
        }
    }

    fn extension() -> (r: &'static str)
        ensures
            r@ == "avif"@,
    {
        "avif"
    }

    fn mime_type() -> (r: &'static str)
        ensures
            r@ == "image/avif"@,
    {
        "image/avif"
    }
}

/// `ravif::Encoder::new().with_quality(q).with_speed(s).encode_rgba(img)`
/// on the RGBA bytes grouped into ravif's pixel type (a copy, no unsafe
/// cast), returning the AVIF file; `None` where ravif reports an error.
/// ravif's `Encoder` type shares its name with this library's encoder trait
/// and so cannot be declared here; the builder calls and the encoding stand
/// in this one item.
/// ravif panics on a quality outside 1-100 (passed as the float it takes) or a
/// speed outside 1-10, and reading the pixels panics on a buffer shorter than
/// `width * height` pixels, and `Img::new` panics on a zero width (a zero
/// stride), so those inputs are left out. rav1e's configuration check
/// accepts a still picture with sides from 1 to 65535, and with ravif's
/// settings nothing else fails, so such sizes are encoded. The file is
/// written by avif-serialize (`Aviffy::to_vec`), which puts the `ftyp` box
/// first (24 bytes: size, `ftyp`, major brand `avif`, minor version 0,
/// compatible brands `mif1` and `miaf`) and the `meta` box after it.
/// The picture's size goes through ravif (`encode_rgba` passes the buffer's
/// `width()` and `height()` on, `as u32`) to avif-serialize, whose `ipco`
/// box holds an `IspeBox { width, height }`, written as a full box of 20
/// bytes: size, `ispe`, version and flags 0, the width and the height as
/// big-endian 32-bit values.
/// Allocation failure, which avif-serialize reports as an error rather than
/// aborting (`try_reserve_exact`), is left out of this contract. Nothing
/// more is stated of the bytes.
#[verifier::external_body]
fn ravif_encode_rgba(rgba: &[u8], width: usize, height: usize, quality: u8, speed: u8) -> (r: Option<
    Vec<u8>,
>)
    requires
        rgba@.len() == width as int * height as int * 4,
        1 <= width,
        1 <= height,
        1 <= quality <= 100,
        1 <= speed <= 10,
    ensures
        width <= 65535 && height <= 65535 ==> r is Some,
        r matches Some(out) ==> out@.len() > 24 && out@.subrange(0, 24) == avif_ftyp_box(),
        r matches Some(out) ==> declares_extent(out@, width as u32, height as u32),
{
    let pixels: Vec<ravif::RGBA8> = rgba.chunks_exact(4).map(|c| ravif::RGBA8::new(c[0], c[1], c[2], c[3])).collect();
    let encoder = ravif::Encoder::new().with_quality(quality.into()).with_speed(speed);
    encoder.encode_rgba(ravif::Img::new(pixels.as_slice(), width, height)).ok().map(|e| e.avif_file)
}

} // verus!
