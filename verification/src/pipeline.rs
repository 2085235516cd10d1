//! The pipeline's decisions and stages: decoding, orientation baking, the
//! color normalization plan, output profile selection, resampling and the
//! dispatch to format encoders. Choosing the target size (a floating-point
//! computation) is left to the caller.
use vstd::prelude::*;
use fast_image_resize::images::Image;
use fast_image_resize::{create_srgb_mapper, PixelType, ResizeAlg, ResizeOptions, Resizer};
use fast_image_resize::FilterType as FirFilter;
use crate::color::{
    cms_transformed, dest_profile_for, source_profile_for, PixelLayout, SourceProfileView,
    ColorTransformer, SourceColorSpace, color_space_of_icc, exif_color_space, extract_color_info,
    get_display_p3_icc, get_srgb_icc, icc_parses, icc_without_date, standard_icc_without_date,
    StandardProfile, jpeg_icc_profile, opt_bytes_view,
    transform_needed,
};
use crate::config::{FilterType, OutputFormat, PipelineConfig};
use crate::error::ImageError;
use crate::formats::avif::{avif_ftyp_box, ftyp_box_type, AvifEncoder};
use crate::formats::gif::{
    gif_file_bytes, gif_file_frame, gif_quantized_for, rgb_palette_of, transparent_index_of,
    GifEncoderImpl, GIF_REPEAT_COUNT,
};
use crate::formats::jpeg::{jfif_stream, jpeg_compressed_for, jpeg_with_icc, JpegEncoder};
use crate::formats::png::{icc_arg_view, png_encoded, png_plan_of, png_signature, PngEncoder};
use crate::formats::webp::{webp_encoded_by, webp_with_icc, WebpEncoder};
use crate::formats::Encoder;
use crate::orientation::{
    apply_orientation, baked_pixels, exif_orientation, extract_orientation, oriented_dims,
};

verus! {

/// How colors are handled: keep the source's profile untouched, convert to
/// Display P3, or (neither) convert to sRGB.
#[derive(Debug, Clone, Copy, PartialEq, Eq, Structural)]
pub struct ColorPlan {
    pub apply_p3: bool,
    pub preserve_original: bool,
}

/// Whether an output format needs sRGB pixels: lossy (quantized) PNG, AVIF,
/// JPEG XL and GIF.
pub open spec fn format_requires_srgb(format: OutputFormat, png_lossless: bool) -> bool {
    (format == OutputFormat::Png && !png_lossless) || format == OutputFormat::Avif || format
        == OutputFormat::Jxl || format == OutputFormat::Gif
}

/// The color plan: preserving the profile wins; formats that need sRGB get
/// sRGB; otherwise a source with a profile is normalized to Display P3 and
/// one without stays sRGB.
pub open spec fn color_plan_of(
    format: OutputFormat,
    png_lossless: bool,
    preserve_icc: bool,
    has_source_profile: bool,
) -> ColorPlan {
    if preserve_icc {
        ColorPlan { apply_p3: false, preserve_original: true }
    } else if format_requires_srgb(format, png_lossless) {
        ColorPlan { apply_p3: false, preserve_original: false }
    } else if has_source_profile {
        ColorPlan { apply_p3: true, preserve_original: false }
    } else {
        ColorPlan { apply_p3: false, preserve_original: false }
    }
}

/// Decides how colors are handled for a configuration and source.
pub fn plan_color(config: &PipelineConfig, has_source_profile: bool) -> (r: ColorPlan)
    ensures
        r == color_plan_of(
            config.output_format,
            config.png.lossless,
            config.preserve_icc,
            has_source_profile,
        ),
{
    let uses_quantization = config.output_format == OutputFormat::Png && !config.png.lossless;
    let requires_srgb = uses_quantization || config.output_format == OutputFormat::Avif
        || config.output_format == OutputFormat::Jxl || config.output_format == OutputFormat::Gif;
    if config.preserve_icc {
        ColorPlan { apply_p3: false, preserve_original: true }
    } else if requires_srgb {
        ColorPlan { apply_p3: false, preserve_original: false }
    } else if has_source_profile {
        ColorPlan { apply_p3: true, preserve_original: false }
    } else {
        ColorPlan { apply_p3: false, preserve_original: false }
    }
}

/// Which ICC profile goes with the output.
#[derive(Debug, Clone, Copy, PartialEq, Eq, Structural)]
pub enum IccChoice {
    /// No profile
    NoProfile,
    /// The source's own profile
    Source,
    /// moxcms's Display P3 profile
    DisplayP3,
    /// moxcms's sRGB profile
    Srgb,
}

/// The profile that matches the pixels: the source's when preserving it;
/// when normalizing to P3, the source's if no transform happened and there
/// is one (P3 profiles differ in tone curves), else Display P3; otherwise
/// sRGB only if a transform happened.
pub open spec fn icc_choice_of(plan: ColorPlan, has_source_profile: bool, did_transform: bool) -> IccChoice {
    if plan.preserve_original {
        if has_source_profile {
            IccChoice::Source
        } else {
            IccChoice::NoProfile
        }
    } else if plan.apply_p3 {
        if !did_transform && has_source_profile {
            IccChoice::Source
        } else {
            IccChoice::DisplayP3
        }
    } else if did_transform {
        IccChoice::Srgb
    } else {
        IccChoice::NoProfile
    }
}

/// Chooses the output profile.
pub fn choose_output_icc(plan: ColorPlan, has_source_profile: bool, did_transform: bool) -> (r: IccChoice)
    ensures
        r == icc_choice_of(plan, has_source_profile, did_transform),
{
    if plan.preserve_original {
        if has_source_profile {
            IccChoice::Source
        } else {
            IccChoice::NoProfile
        }
    } else if plan.apply_p3 {
        if !did_transform && has_source_profile {
            IccChoice::Source
        } else {
            IccChoice::DisplayP3
        }
    } else if did_transform {
        IccChoice::Srgb
    } else {
        IccChoice::NoProfile
    }
}

/// The color space the pipeline reads from an input: the one its embedded
/// ICC profile describes, else the one its EXIF ColorSpace tag names, else
/// sRGB.
pub open spec fn input_color_space(input: Seq<u8>) -> SourceColorSpace {
    match jpeg_icc_profile(input) {
        Some(icc) => color_space_of_icc(icc),
        None => match exif_color_space(input) {
            Some(space) => space,
            None => SourceColorSpace::Srgb,
        },
    }
}

/// The color plan for an input under a configuration.
pub open spec fn input_color_plan(input: Seq<u8>, config: PipelineConfig) -> ColorPlan {
    color_plan_of(
        config.output_format,
        config.png.lossless,
        config.preserve_icc,
        jpeg_icc_profile(input) is Some,
    )
}

/// Whether the pipeline converts the input's colors: when it does not keep
/// the source profile and the source is not already in the target space.
pub open spec fn input_color_converted(input: Seq<u8>, config: PipelineConfig) -> bool {
    let plan = input_color_plan(input, config);
    !plan.preserve_original && transform_needed(plan.apply_p3, input_color_space(input))
}

/// The source profile the pipeline converts an input's colors from: its
/// embedded ICC profile, else the built-in profile of the space its EXIF
/// data names, else sRGB.
pub open spec fn input_source_profile(input: Seq<u8>) -> SourceProfileView {
    match jpeg_icc_profile(input) {
        Some(icc) => SourceProfileView::Icc(icc),
        None => match exif_color_space(input) {
            Some(SourceColorSpace::AdobeRgb) => SourceProfileView::AdobeRgb,
            Some(SourceColorSpace::DisplayP3) => SourceProfileView::DisplayP3,
            _ => SourceProfileView::Srgb,
        },
    }
}

/// Whether the input's embedded profile, if it has one, parses.
pub open spec fn source_profile_parses(input: Seq<u8>) -> bool {
    match jpeg_icc_profile(input) {
        Some(icc) => icc_parses(icc),
        None => true,
    }
}

/// The profile the prepared image carries.
pub open spec fn input_icc_choice(input: Seq<u8>, config: PipelineConfig) -> IccChoice {
    icc_choice_of(
        input_color_plan(input, config),
        jpeg_icc_profile(input) is Some,
        input_color_converted(input, config),
    )
}

/// Formats that need sRGB (lossy PNG, AVIF, JPEG XL, GIF) never get Display
/// P3: neither are the pixels converted to it nor is its profile attached.
pub proof fn lemma_srgb_formats_never_get_p3(input: Seq<u8>, config: PipelineConfig)
    requires
        format_requires_srgb(config.output_format, config.png.lossless),
    ensures
        !input_color_plan(input, config).apply_p3,
        input_icc_choice(input, config) != IccChoice::DisplayP3,
{
}

/// With `preserve_icc` the colors are left as they are and the source's
/// own profile, if it has one, goes with the output.
pub proof fn lemma_preserve_icc_passes_profile_through(input: Seq<u8>, config: PipelineConfig)
    requires
        config.preserve_icc,
    ensures
        !input_color_converted(input, config),
        input_icc_choice(input, config) == if jpeg_icc_profile(input) is Some {
            IccChoice::Source
        } else {
            IccChoice::NoProfile
        },
{
}

/// Without `preserve_icc`, a source with a profile is normalized to Display
/// P3 for every format that does not need sRGB, and the output then carries
/// a Display P3 profile: the standard one after a conversion, the source's
/// own where the source already was Display P3.
pub proof fn lemma_profiled_sources_normalize_to_p3(input: Seq<u8>, config: PipelineConfig)
    requires
        !config.preserve_icc,
        !format_requires_srgb(config.output_format, config.png.lossless),
        jpeg_icc_profile(input) is Some,
    ensures
        input_color_plan(input, config).apply_p3,
        input_color_converted(input, config) <==> input_color_space(input)
            != SourceColorSpace::DisplayP3,
        input_icc_choice(input, config) == if input_color_space(input)
            == SourceColorSpace::DisplayP3 {
            IccChoice::Source
        } else {
            IccChoice::DisplayP3
        },
{
}

/// The profile that goes with the output describes its pixels: converted
/// pixels carry the target space's standard profile; pixels left as they
/// are carry the source's profile where one is kept, and none where the
/// source had none (they then are sRGB) or is sRGB already.
pub proof fn lemma_output_profile_matches_pixels(input: Seq<u8>, config: PipelineConfig)
    ensures
        input_color_converted(input, config) ==> input_icc_choice(input, config) == if input_color_plan(
            input,
            config,
        ).apply_p3 {
            IccChoice::DisplayP3
        } else {
            IccChoice::Srgb
        },
        !input_color_converted(input, config) && input_icc_choice(input, config)
            == IccChoice::Source ==> jpeg_icc_profile(input) is Some,
        !input_color_converted(input, config) && !input_color_plan(input, config).preserve_original
            ==> input_icc_choice(input, config) == if input_color_plan(input, config).apply_p3 {
            IccChoice::Source
        } else {
            IccChoice::NoProfile
        },
        !input_color_converted(input, config) && !input_color_plan(input, config).preserve_original
            && !input_color_plan(input, config).apply_p3 ==> input_color_space(input)
            == SourceColorSpace::Srgb,
{
}

/// An image ready for resampling and encoding: RGBA8 pixels in the output
/// color space, with the profile that belongs to them.
#[derive(Debug, Clone)]
pub struct PreparedImage {
    pub rgba: Vec<u8>,
    pub width: u32,
    pub height: u32,
    pub icc_profile: Option<Vec<u8>>,
}

/// Decodes an image of any supported format to RGBA8.
pub fn decode_image(input: &[u8]) -> (r: Result<(Vec<u8>, u32, u32), ImageError>)
    ensures
        r matches Ok((rgba, w, h)) ==> rgba@.len() == w as int * h as int * 4,
        !image_format_recognized(input@) ==> r == Err::<(Vec<u8>, u32, u32), ImageError>(
            ImageError::UnknownInputFormat,
        ),
        image_format_recognized(input@) ==> match image_decoded_rgba8(input@) {
            Some((pixels, w, h)) => r matches Ok((rgba, rw, rh)) && rgba@ == pixels && rw == w
                && rh == h,
            None => r == Err::<(Vec<u8>, u32, u32), ImageError>(ImageError::Decode),
        },
        r is Ok ==> input@.len() >= 1,
{
    match image_guess_format(input) {
        Some(_) => {},
        None => {
            return Err(ImageError::UnknownInputFormat);
        },
    }
    match image_decode_rgba8(input) {
        Some(d) => Ok(d),
        None => Err(ImageError::Decode),
    }
}

/// Decodes, bakes the EXIF orientation into the pixels, normalizes colors
/// per the plan, and picks the profile that matches the resulting pixels.
pub fn prepare_image(input: &[u8], config: &PipelineConfig) -> (r: Result<PreparedImage, ImageError>)
    ensures
        r matches Ok(p) ==> p.rgba@.len() == p.width as int * p.height as int * 4,
        r matches Ok(p) ==> (image_decoded_rgba8(input@) matches Some((decoded, w, h)) && {
            &&& (p.width as int, p.height as int) == oriented_dims(
                exif_orientation(input@),
                w as int,
                h as int,
            )
            &&& !input_color_converted(input@, *config) ==> p.rgba@ == baked_pixels(
                decoded,
                w as int,
                h as int,
                exif_orientation(input@),
            )
            &&& input_color_converted(input@, *config) && p.width >= 1 && p.height >= 1
                ==> cms_transformed(
                input_source_profile(input@),
                dest_profile_for(input_color_plan(input@, *config).apply_p3),
                PixelLayout::Rgba,
                baked_pixels(decoded, w as int, h as int, exif_orientation(input@)),
                p.rgba@,
            )
        }),
        image_format_recognized(input@) && image_decoded_rgba8(input@) is None ==> r
            == Err::<PreparedImage, ImageError>(ImageError::Decode),
        image_format_recognized(input@) && image_decoded_rgba8(input@) is Some
            && !input_color_converted(input@, *config) && (input_color_plan(input@, *config).preserve_original
            || source_profile_parses(input@)) ==> r is Ok,
        r matches Ok(p) ==> match input_icc_choice(input@, *config) {
            IccChoice::NoProfile => p.icc_profile is None,
            IccChoice::Source => opt_bytes_view(p.icc_profile) == jpeg_icc_profile(input@),
            IccChoice::DisplayP3 => p.icc_profile matches Some(b) && icc_without_date(b@)
                == standard_icc_without_date(StandardProfile::DisplayP3) && 132 <= b@.len() <= 65519,
            IccChoice::Srgb => p.icc_profile matches Some(b) && icc_without_date(b@)
                == standard_icc_without_date(StandardProfile::Srgb) && 132 <= b@.len() <= 65519,
        },
        (!input_color_plan(input@, *config).preserve_original && (jpeg_icc_profile(input@) matches Some(
            icc,
        ) && !icc_parses(icc))) ==> r is Err,
        r matches Err(e) ==> e == ImageError::UnknownInputFormat || e == ImageError::Decode || e
            == ImageError::IccProfileParse || e == ImageError::ColorTransform,
        !image_format_recognized(input@) ==> (r matches Err(e) && e == ImageError::UnknownInputFormat),
{
    let (decoded, src_width, src_height) = match decode_image(input) {
        Ok(d) => d,
        Err(e) => {
            return Err(e);
        },
    };
    let orientation = extract_orientation(input);
    let color_info = extract_color_info(input);
    let ghost decoded_view = decoded@;
    let (mut rgba, width, height) = if orientation.needs_transform() {
        match apply_orientation(decoded.as_slice(), src_width, src_height, orientation) {
            Ok(t) => t,
            Err(e) => {
                return Err(e);
            },
        }
    } else {
        (decoded, src_width, src_height)
    };
    proof {
        assert(width as int * height as int == src_width as int * src_height as int) by (nonlinear_arith)
            requires
                (width == src_width && height == src_height) || (width == src_height && height == src_width),
        ;
    }
    assert(rgba@ == baked_pixels(decoded_view, src_width as int, src_height as int, orientation));
    assert((width as int, height as int) == oriented_dims(orientation, src_width as int, src_height as int));
    let has_source_profile = color_info.icc_profile.is_some();
    let plan = plan_color(config, has_source_profile);
    let mut did_transform = false;
    let ghost baked = rgba@;
    if !plan.preserve_original {
        let transformer = match ColorTransformer::new(&color_info, plan.apply_p3) {
            Ok(t) => t,
            Err(e) => {
                return Err(e);
            },
        };
        let pixel_bytes = rgba.len();
        if transformer.needs_transform() && width >= 1 && height >= 1 {
            proof {
                assert(width as int * 4 <= width as int * height as int * 4) by (nonlinear_arith)
                    requires
                        height >= 1,
                ;
            }
            match transformer.transform_rgba8(rgba.as_mut_slice(), width as usize) {
                Ok(()) => {},
                Err(e) => {
                    return Err(e);
                },
            }
            proof {
                let rb = width as int * 4;
                vstd::arithmetic::div_mod::lemma_div_multiples_vanish(height as int, rb);
                assert(baked.len() == width as int * height as int * 4);
                assert(rb * height == width as int * height as int * 4) by (nonlinear_arith)
                    requires
                        rb == width as int * 4,
                ;
                assert(baked.len() as int / rb == height as int);
                assert((baked.len() as int / rb) * rb == baked.len()) by (nonlinear_arith)
                    requires
                        baked.len() as int / rb == height as int,
                        rb * height == baked.len(),
                ;
                assert(baked.subrange(0, baked.len() as int) =~= baked);
                assert(rgba@.subrange(0, baked.len() as int) =~= rgba@);
                assert(source_profile_for(color_info) == input_source_profile(input@));
                assert(cms_transformed(
                    input_source_profile(input@),
                    dest_profile_for(plan.apply_p3),
                    PixelLayout::Rgba,
                    baked,
                    rgba@,
                ));
            }
        }
        did_transform = transformer.needs_transform();
    }
    assert(did_transform == input_color_converted(input@, *config));
    assert(!did_transform ==> rgba@ == baked_pixels(decoded_view, src_width as int, src_height as int, orientation));
    let icc_profile = match choose_output_icc(plan, has_source_profile, did_transform) {
        IccChoice::NoProfile => None,
        IccChoice::Source => color_info.icc_profile,
        IccChoice::DisplayP3 => Some(get_display_p3_icc()),
        IccChoice::Srgb => Some(get_srgb_icc()),
    };
    Ok(PreparedImage { rgba, width, height, icc_profile })
}

/// Resamples RGBA8 pixels with fast_image_resize, optionally in linear light.
pub fn resize_image(
    rgba: &[u8],
    src_width: u32,
    src_height: u32,
    dst_width: u32,
    dst_height: u32,
    filter: FilterType,
    linear_resampling: bool,
) -> (r: Result<Vec<u8>, ImageError>)
    requires
        src_width as int * src_height as int * 4 <= usize::MAX,
        dst_width as int * dst_height as int * 4 <= usize::MAX,
    ensures
        (src_width == 0 || src_height == 0 || dst_width == 0 || dst_height == 0) ==> r
            == Err::<Vec<u8>, ImageError>(ImageError::InvalidDimensions),
        (src_width >= 1 && src_height >= 1 && dst_width >= 1 && dst_height >= 1 && rgba@.len()
            < src_width as int * src_height as int * 4) ==> r == Err::<Vec<u8>, ImageError>(
            ImageError::PixelBufferSize,
        ),
        (src_width >= 1 && src_height >= 1 && dst_width >= 1 && dst_height >= 1 && rgba@.len()
            >= src_width as int * src_height as int * 4) ==> r is Ok,
        r matches Ok(out) ==> out@.len() == dst_width as int * dst_height as int * 4,
        r matches Ok(out) ==> fir_resampled(
            rgba@,
            src_width,
            src_height,
            dst_width,
            dst_height,
            filter,
            linear_resampling,
            out@,
        ),
        r matches Err(e) ==> e == ImageError::InvalidDimensions || e == ImageError::PixelBufferSize,
        filter == FilterType::Nearest && !linear_resampling ==> (r matches Ok(out) ==> pixels_drawn_from(
            out@,
            rgba@,
        )),
{
    if src_width == 0 || src_height == 0 {
        return Err(ImageError::InvalidDimensions);
    }
    if dst_width == 0 || dst_height == 0 {
        return Err(ImageError::InvalidDimensions);
    }
    proof {
        assert(src_width as int * src_height as int <= src_width as int * src_height as int * 4)
            by (nonlinear_arith);
    }
    let needed: usize = (src_width as usize) * (src_height as usize) * 4;
    if rgba.len() < needed {
        return Err(ImageError::PixelBufferSize);
    }
    let pixels = vstd::slice::slice_to_vec(rgba);
    let resized = if linear_resampling {
        fir_resize_rgba_linear(pixels, src_width, src_height, dst_width, dst_height, filter)
    } else {
        fir_resize_rgba(pixels, src_width, src_height, dst_width, dst_height, filter)
    };
    match resized {
        Some(out) => Ok(out),
        None => Err(ImageError::Resize),
    }
}

/// Resamples the prepared pixels to the target size with the
/// configured filter, or hands them on unchanged when the size is the same.
pub fn resize_to_target(
    prepared: PreparedImage,
    config: &PipelineConfig,
    dst_width: u32,
    dst_height: u32,
) -> (r: Result<Vec<u8>, ImageError>)
    requires
        prepared.width as int * prepared.height as int * 4 <= usize::MAX,
        dst_width as int * dst_height as int * 4 <= usize::MAX,
    ensures
        dst_width == prepared.width && dst_height == prepared.height ==> r == Ok::<
            Vec<u8>,
            ImageError,
        >(prepared.rgba),
        (dst_width != prepared.width || dst_height != prepared.height) && (prepared.width == 0
            || prepared.height == 0 || dst_width == 0 || dst_height == 0) ==> r == Err::<
            Vec<u8>,
            ImageError,
        >(ImageError::InvalidDimensions),
        dst_width != prepared.width || dst_height != prepared.height ==> (r matches Ok(out)
            ==> out@.len() == dst_width as int * dst_height as int * 4),
        r matches Ok(out) ==> target_pixels(
            prepared.rgba@,
            prepared.width,
            prepared.height,
            *config,
            dst_width,
            dst_height,
            out@,
        ),
        (dst_width == prepared.width && dst_height == prepared.height) || (prepared.width >= 1
            && prepared.height >= 1 && dst_width >= 1 && dst_height >= 1 && prepared.rgba@.len()
            >= prepared.width as int * prepared.height as int * 4) ==> r is Ok,
        r matches Err(e) ==> e == ImageError::InvalidDimensions || e == ImageError::PixelBufferSize,
        (dst_width != prepared.width || dst_height != prepared.height) && config.filter_type
            == FilterType::Nearest && !config.linear_resampling ==> (r matches Ok(out)
            ==> pixels_drawn_from(out@, prepared.rgba@)),
{
    if dst_width != prepared.width || dst_height != prepared.height {
        resize_image(
            prepared.rgba.as_slice(),
            prepared.width,
            prepared.height,
            dst_width,
            dst_height,
            config.filter_type,
            config.linear_resampling,
        )
    } else {
        Ok(prepared.rgba)
    }
}

/// The pixels at the target size: the prepared ones where the size is the
/// same, else a resampling of them with the configured filter, in linear
/// light where the configuration asks for it.
pub open spec fn target_pixels(
    rgba: Seq<u8>,
    width: u32,
    height: u32,
    config: PipelineConfig,
    dst_width: u32,
    dst_height: u32,
    out: Seq<u8>,
) -> bool {
    if dst_width == width && dst_height == height {
        out == rgba
    } else {
        &&& out.len() == dst_width as int * dst_height as int * 4
        &&& fir_resampled(
            rgba,
            width,
            height,
            dst_width,
            dst_height,
            config.filter_type,
            config.linear_resampling,
            out,
        )
    }
}

/// What the configured format's encoder gives for the pixels and profile:
/// JPEG always succeeds with a mozjpeg stream (the profile spliced in);
/// PNG gives the named oxipng result; WebP a libwebp stream (always for
/// lossless), with the profile spliced in; AVIF succeeds within its size
/// limit with an `ftyp`-first file; GIF the gif crate's file of an
/// imagequant result; JPEG XL is left to the caller.
pub open spec fn encoded_as(
    config: PipelineConfig,
    rgba: Seq<u8>,
    width: u32,
    height: u32,
    icc: Option<Seq<u8>>,
    r: Result<Vec<u8>, ImageError>,
) -> bool {
    match config.output_format {
        OutputFormat::Jpeg => jpeg_encoded_as(config, rgba, width, height, icc, r),
        OutputFormat::Png => png_encoded_as(config, rgba, width, height, icc, r),
        OutputFormat::WebP => webp_encoded_as(config, rgba, width, height, icc, r),
        OutputFormat::Avif => avif_encoded_as(width, height, r),
        OutputFormat::Gif => gif_encoded_as(config, rgba, width, height, r),
        OutputFormat::Jxl => r == Err::<Vec<u8>, ImageError>(ImageError::Encode),
    }
}

/// JPEG: always a mozjpeg stream for the pixels, with the profile spliced in.
pub open spec fn jpeg_encoded_as(
    config: PipelineConfig,
    rgba: Seq<u8>,
    width: u32,
    height: u32,
    icc: Option<Seq<u8>>,
    r: Result<Vec<u8>, ImageError>,
) -> bool {
    &&& r is Ok
    &&& icc is None ==> (r matches Ok(out) ==> jfif_stream(out@) && jpeg_compressed_for(
        rgba,
        width,
        height,
        config.jpeg,
        out@,
    ))
    &&& icc matches Some(i) ==> (r matches Ok(out) ==> exists|c: Seq<u8>|
        #![trigger jpeg_with_icc(c, i)]
        jfif_stream(c) && jpeg_compressed_for(rgba, width, height, config.jpeg, c) && out@
            == jpeg_with_icc(c, i))
}

/// PNG: the named oxipng result for a buffer of the right size.
pub open spec fn png_encoded_as(
    config: PipelineConfig,
    rgba: Seq<u8>,
    width: u32,
    height: u32,
    icc: Option<Seq<u8>>,
    r: Result<Vec<u8>, ImageError>,
) -> bool {
    if rgba.len() == width as int * height as int * 4 {
        match png_encoded(width, height, rgba, icc, png_plan_of(config.png)) {
            Some(file) => r matches Ok(out) && out@ == file,
            None => r == Err::<Vec<u8>, ImageError>(ImageError::Encode),
        }
    } else {
        r == Err::<Vec<u8>, ImageError>(ImageError::PixelBufferSize)
    }
}

/// WebP: a libwebp stream for the pixels (always for lossless), with the
/// profile spliced in.
pub open spec fn webp_encoded_as(
    config: PipelineConfig,
    rgba: Seq<u8>,
    width: u32,
    height: u32,
    icc: Option<Seq<u8>>,
    r: Result<Vec<u8>, ImageError>,
) -> bool {
    &&& config.webp.lossless ==> r is Ok
    &&& icc is None ==> (r matches Ok(out) ==> webp_encoded_by(rgba, width, height, config.webp, out@))
    &&& icc matches Some(i) ==> (r matches Ok(out) ==> exists|e: Seq<u8>|
        #![trigger webp_with_icc(e, i, width, height)]
        webp_encoded_by(rgba, width, height, config.webp, e) && out@ == webp_with_icc(
            e,
            i,
            width,
            height,
        ))
}

/// AVIF: success within the size limit, an `ftyp`-first file.
pub open spec fn avif_encoded_as(width: u32, height: u32, r: Result<Vec<u8>, ImageError>) -> bool {
    &&& width <= 65535 && height <= 65535 ==> r is Ok
    &&& r matches Ok(out) ==> out@.len() > 24 && out@.subrange(0, 24) == avif_ftyp_box()
}

/// GIF: the gif crate's file of an imagequant result for the pixels.
pub open spec fn gif_encoded_as(
    config: PipelineConfig,
    rgba: Seq<u8>,
    width: u32,
    height: u32,
    r: Result<Vec<u8>, ImageError>,
) -> bool {
    r matches Ok(out) ==> exists|palette: Seq<(u8, u8, u8, u8)>, ind: Seq<u8>|
        #![trigger gif_quantized_for(rgba, width, height, config.gif.quality, config.gif.alpha_threshold, palette, ind)]
        gif_quantized_for(
            rgba,
            width,
            height,
            config.gif.quality,
            config.gif.alpha_threshold,
            palette,
            ind,
        ) && out@ == gif_file_bytes(
            width as u16,
            height as u16,
            rgb_palette_of(palette),
            ind,
            transparent_index_of(palette),
            GIF_REPEAT_COUNT,
        )
}

/// Resamples the prepared pixels to the target size
/// and encodes them with the configured format, attaching the prepared
/// profile (GIF takes none; JPEG XL is encoded by the caller).
pub fn finish_pipeline(
    prepared: PreparedImage,
    config: &PipelineConfig,
    dst_width: u32,
    dst_height: u32,
) -> (r: Result<Vec<u8>, ImageError>)
    requires
        prepared.rgba@.len() == prepared.width as int * prepared.height as int * 4,
        dst_width as int * dst_height as int * 4 <= usize::MAX,
        output_accepts(*config, dst_width, dst_height, (dst_width as int * dst_height as int * 4) as nat),
    ensures
        config.output_format == OutputFormat::Jxl ==> r is Err,
        config.output_format == OutputFormat::Jpeg && ((dst_width == prepared.width && dst_height
            == prepared.height) || (prepared.width >= 1 && prepared.height >= 1)) ==> r is Ok,
        (dst_width == prepared.width && dst_height == prepared.height) || (prepared.width >= 1
            && prepared.height >= 1 && dst_width >= 1 && dst_height >= 1) ==> exists|px: Seq<u8>|
            #![trigger target_pixels(prepared.rgba@, prepared.width, prepared.height, *config, dst_width, dst_height, px)]
            target_pixels(
                prepared.rgba@,
                prepared.width,
                prepared.height,
                *config,
                dst_width,
                dst_height,
                px,
            ) && encoded_as(*config, px, dst_width, dst_height, opt_bytes_view(prepared.icc_profile), r),
        r matches Err(e) ==> e == ImageError::InvalidDimensions || e == ImageError::PixelBufferSize
            || e == ImageError::Encode || e == ImageError::WebpTooShort || e
            == ImageError::WebpMissingRiff || e == ImageError::WebpMissingWebp || e
            == ImageError::WebpAlreadyExtended,
        config.output_format == OutputFormat::Jpeg && prepared.icc_profile is None ==> (r matches Ok(
            out,
        ) ==> jpeg_icc_profile(out@) is None),
        config.output_format == OutputFormat::Jpeg ==> (prepared.icc_profile matches Some(icc) ==> (
        128 <= icc@.len() <= 255 * 65519 ==> (r matches Ok(out) ==> jpeg_icc_profile(out@) == Some(
            icc@,
        )))),
{
    let PreparedImage { rgba, width, height, icc_profile } = prepared;
    let n = rgba.len();
    assert(n as int == width as int * height as int * 4);
    let pixels = match resize_to_target(
        PreparedImage { rgba, width, height, icc_profile: None },
        config,
        dst_width,
        dst_height,
    ) {
        Ok(p) => p,
        Err(e) => {
            return Err(e);
        },
    };
    let icc: Option<&[u8]> = match &icc_profile {
        Some(v) => Some(v.as_slice()),
        None => None,
    };
    encode_output(config, pixels.as_slice(), dst_width, dst_height, icc)
}

/// When the profile is preserved and the output is JPEG, the source's own
/// profile is what the output carries, and it reads back unchanged from any
/// stream the JPEG encoder writes it into.
pub proof fn lemma_preserved_profile_reads_back(input: Seq<u8>, config: PipelineConfig, c: Seq<u8>)
    requires
        config.preserve_icc,
        jpeg_icc_profile(input) is Some,
        jpeg_icc_profile(input)->0.len() <= 255 * 65519,
        jfif_stream(c),
    ensures
        input_icc_choice(input, config) == IccChoice::Source,
        jpeg_icc_profile(jpeg_with_icc(c, jpeg_icc_profile(input)->0)) == jpeg_icc_profile(input),
{
    let p = jpeg_icc_profile(input)->0;
    crate::formats::jpeg_icc_law::lemma_encoder_profile_reads_back(c, p);
}

/// Whether profile bytes are what the prepared image carries for a choice
/// (as `prepare_image` states it): the source's own profile, or the
/// standard Display P3 or sRGB profile (its creation date aside).
pub open spec fn prepared_profile_for(input: Seq<u8>, choice: IccChoice, b: Seq<u8>) -> bool {
    match choice {
        IccChoice::Source => jpeg_icc_profile(input) == Some(b),
        IccChoice::DisplayP3 => icc_without_date(b) == standard_icc_without_date(
            StandardProfile::DisplayP3,
        ) && 132 <= b.len() <= 65519,
        IccChoice::Srgb => icc_without_date(b) == standard_icc_without_date(StandardProfile::Srgb)
            && 132 <= b.len() <= 65519,
        IccChoice::NoProfile => false,
    }
}

/// Without `preserve_icc`, a JPEG output carries Display P3 exactly when the
/// source has a profile (the source's own where it already is Display P3,
/// else the standard one) and sRGB for a source without one that is not
/// sRGB already (none for an sRGB source); and the profile the prepared image
/// carries reads back unchanged from the encoded stream.
pub proof fn lemma_jpeg_output_profile(input: Seq<u8>, config: PipelineConfig, b: Seq<u8>, c: Seq<u8>)
    requires
        !config.preserve_icc,
        config.output_format == OutputFormat::Jpeg,
        jfif_stream(c),
        jpeg_icc_profile(input) matches Some(p) ==> p.len() <= 255 * 65519,
        prepared_profile_for(input, input_icc_choice(input, config), b),
    ensures
        input_icc_choice(input, config) == match jpeg_icc_profile(input) {
            Some(_) => if input_color_space(input) == SourceColorSpace::DisplayP3 {
                IccChoice::Source
            } else {
                IccChoice::DisplayP3
            },
            None => if input_color_space(input) == SourceColorSpace::Srgb {
                IccChoice::NoProfile
            } else {
                IccChoice::Srgb
            },
        },
        jpeg_icc_profile(jpeg_with_icc(c, b)) == Some(b),
{
    crate::formats::jpeg_icc_law::lemma_encoder_profile_reads_back(c, b);
}

/// Whether `encode_output` takes the pixels for the configured format.
pub open spec fn output_accepts(config: PipelineConfig, width: u32, height: u32, rgba_len: nat) -> bool {
    match config.output_format {
        OutputFormat::Jpeg => JpegEncoder::accepts(config.jpeg, width, height, rgba_len),
        OutputFormat::Png => PngEncoder::accepts(config.png, width, height, rgba_len),
        OutputFormat::WebP => WebpEncoder::accepts(config.webp, width, height, rgba_len),
        OutputFormat::Avif => AvifEncoder::accepts(config.avif, width, height, rgba_len),
        OutputFormat::Gif => GifEncoderImpl::accepts(config.gif, width, height, rgba_len),
        OutputFormat::Jxl => false,
    }
}

/// Encodes with the configured format's encoder (JPEG XL is
/// encoded by the caller); GIF gets no profile.
/// The JPEG arm of `encode_output`: `JpegEncoder::encode` with the
/// configured settings.
fn encode_jpeg_output(
    config: &PipelineConfig,
    rgba: &[u8],
    width: u32,
    height: u32,
    icc_profile: Option<&[u8]>,
) -> (r: Result<Vec<u8>, ImageError>)
    requires
        JpegEncoder::accepts(config.jpeg, width, height, rgba@.len()),
    ensures
        jpeg_encoded_as(*config, rgba@, width, height, icc_arg_view(icc_profile), r),
        icc_profile is None ==> (r matches Ok(out) ==> jpeg_icc_profile(out@) is None),
        icc_profile matches Some(icc) ==> (r matches Ok(out) ==> exists|c: Seq<u8>|
            jfif_stream(c) && out@ == jpeg_with_icc(c, icc@)),
        icc_profile matches Some(icc) ==> (128 <= icc@.len() <= 255 * 65519 ==> (r matches Ok(
            out,
        ) ==> jpeg_icc_profile(out@) == Some(icc@))),
{
    let r = JpegEncoder::encode(rgba, width, height, &config.jpeg, icc_profile);
    proof {
        if icc_profile is Some && r is Ok {
            let icc = icc_profile->0;
            let out = r->Ok_0;
            let c = choose|c: Seq<u8>|
                jfif_stream(c) && jpeg_compressed_for(rgba@, width, height, config.jpeg, c) && out@
                    == jpeg_with_icc(c, icc@);
            let i = icc_arg_view(icc_profile)->0;
            assert(i == icc@);
            assert(out@ == jpeg_with_icc(c, i));
        }
    }
    r
}

pub fn encode_output(
    config: &PipelineConfig,
    rgba: &[u8],
    width: u32,
    height: u32,
    icc_profile: Option<&[u8]>,
) -> (r: Result<Vec<u8>, ImageError>)
    requires
        output_accepts(*config, width, height, rgba@.len()),
    ensures
        config.output_format == OutputFormat::Jpeg ==> r is Ok,
        config.output_format == OutputFormat::Jpeg && icc_profile is None ==> (r matches Ok(out)
            ==> jpeg_icc_profile(out@) is None),
        config.output_format == OutputFormat::Jpeg ==> (icc_profile matches Some(icc) ==> (r matches Ok(
            out,
        ) ==> exists|c: Seq<u8>| jfif_stream(c) && out@ == jpeg_with_icc(c, icc@))),
        config.output_format == OutputFormat::Jpeg ==> (icc_profile matches Some(icc) ==> (128
            <= icc@.len() <= 255 * 65519 ==> (r matches Ok(out) ==> jpeg_icc_profile(out@) == Some(
            icc@,
        )))),
        config.output_format == OutputFormat::WebP ==> (icc_profile matches Some(icc) ==> (r matches Ok(
            out,
        ) ==> exists|e: Seq<u8>| out@ == webp_with_icc(e, icc@, width, height))),
        config.output_format == OutputFormat::Png ==> (r matches Ok(out) ==> out@.len() >= 8
            && out@.subrange(0, 8) == png_signature()),
        config.output_format == OutputFormat::Gif ==> (r matches Ok(out) ==> gif_file_frame(
            out@,
            width as int,
            height as int,
        )),
        config.output_format == OutputFormat::Jxl ==> r == Err::<Vec<u8>, ImageError>(
            ImageError::Encode,
        ),
        config.output_format == OutputFormat::Png && rgba@.len() != width as int * height as int
            * 4 ==> r == Err::<Vec<u8>, ImageError>(ImageError::PixelBufferSize),
        config.output_format == OutputFormat::Png && rgba@.len() == width as int * height as int * 4
            ==> match png_encoded(width, height, rgba@, icc_arg_view(icc_profile), png_plan_of(config.png)) {
            Some(file) => r matches Ok(out) && out@ == file,
            None => r == Err::<Vec<u8>, ImageError>(ImageError::Encode),
        },
        config.output_format == OutputFormat::Png ==> (r matches Err(e) ==> e == ImageError::Encode
            || e == ImageError::PixelBufferSize),
        config.output_format == OutputFormat::WebP && config.webp.lossless && icc_profile is None
            ==> r is Ok,
        config.output_format == OutputFormat::Avif ==> (r matches Ok(out) ==> out@.len() >= 8
            && out@.subrange(4, 8) == ftyp_box_type()),
        config.output_format == OutputFormat::Avif || config.output_format == OutputFormat::Gif
            ==> (r matches Err(e) ==> e == ImageError::Encode),
        encoded_as(*config, rgba@, width, height, icc_arg_view(icc_profile), r),
        r matches Err(e) ==> e == ImageError::PixelBufferSize || e == ImageError::Encode || e
            == ImageError::WebpTooShort || e == ImageError::WebpMissingRiff || e
            == ImageError::WebpMissingWebp || e == ImageError::WebpAlreadyExtended,
{
    match config.output_format {
        OutputFormat::Jpeg => encode_jpeg_output(config, rgba, width, height, icc_profile),
        OutputFormat::Png => PngEncoder::encode(rgba, width, height, &config.png, icc_profile),
        OutputFormat::WebP => {
            let r = WebpEncoder::encode(rgba, width, height, &config.webp, icc_profile);
            proof {
                if icc_profile is Some && r is Ok {
                    let icc = icc_profile->0;
                    let out = r->Ok_0;
                    let e = choose|e: Seq<u8>|
                        webp_encoded_by(rgba@, width, height, config.webp, e) && out@ == webp_with_icc(
                            e,
                            icc@,
                            width,
                            height,
                        );
                    let i = icc_arg_view(icc_profile)->0;
                    assert(i == icc@);
                    assert(out@ == webp_with_icc(e, i, width, height));
                }
            }
            r
        },
        OutputFormat::Avif => AvifEncoder::encode(rgba, width, height, &config.avif, icc_profile),
        OutputFormat::Gif => GifEncoderImpl::encode(rgba, width, height, &config.gif, None),
        OutputFormat::Jxl => Err(ImageError::Encode),
    }
}

// ---------------------------------------------------------------------------
// image and fast_image_resize
// ---------------------------------------------------------------------------

#[verifier::external_type_specification]
#[verifier::external_body]
pub struct ExImageFormat(image::ImageFormat);

/// Whether `bytes` begin with `magic`.
pub open spec fn begins_with(bytes: Seq<u8>, magic: Seq<u8>) -> bool {
    magic.len() <= bytes.len() && bytes.subrange(0, magic.len() as int) == magic
}

/// Whether the bytes at `at..at + part.len()` are `part`.
pub open spec fn holds_at(bytes: Seq<u8>, at: int, part: Seq<u8>) -> bool {
    at + part.len() <= bytes.len() && bytes.subrange(at, at + part.len()) == part
}

/// Whether `image::guess_format` recognizes the bytes: its table of magic
/// numbers, tried in order (PNG, JPEG, GIF, WebP, TIFF, DDS, BMP, ICO,
/// Radiance HDR, AVIF, OpenEXR, QOI, the seven PNM variants, farbfeld).
/// The WebP entry masks out the RIFF size (bytes 4..8) and the AVIF entry
/// bytes 2..4 of the box size; both need the whole 12 bytes.
pub open spec fn image_format_recognized(b: Seq<u8>) -> bool {
    ||| begins_with(b, seq![0x89u8, 0x50, 0x4e, 0x47, 0x0d, 0x0a, 0x1a, 0x0a])
    ||| begins_with(b, seq![0xffu8, 0xd8, 0xff])
    ||| begins_with(b, seq![0x47u8, 0x49, 0x46, 0x38, 0x39, 0x61])
    ||| begins_with(b, seq![0x47u8, 0x49, 0x46, 0x38, 0x37, 0x61])
    ||| (b.len() >= 12 && begins_with(b, seq![0x52u8, 0x49, 0x46, 0x46]) && holds_at(
        b,
        8,
        seq![0x57u8, 0x45, 0x42, 0x50],
    ))
    ||| begins_with(b, seq![0x4du8, 0x4d, 0x00, 0x2a])
    ||| begins_with(b, seq![0x49u8, 0x49, 0x2a, 0x00])
    ||| begins_with(b, seq![0x44u8, 0x44, 0x53, 0x20])
    ||| begins_with(b, seq![0x42u8, 0x4d])
    ||| begins_with(b, seq![0x00u8, 0x00, 0x01, 0x00])
    ||| begins_with(b, seq![0x23u8, 0x3f, 0x52, 0x41, 0x44, 0x49, 0x41, 0x4e, 0x43, 0x45])
    ||| (b.len() >= 12 && begins_with(b, seq![0x00u8, 0x00]) && holds_at(
        b,
        4,
        seq![0x66u8, 0x74, 0x79, 0x70, 0x61, 0x76, 0x69, 0x66],
    ))
    ||| begins_with(b, seq![0x76u8, 0x2f, 0x31, 0x01])
    ||| begins_with(b, seq![0x71u8, 0x6f, 0x69, 0x66])
    ||| begins_with(b, seq![0x50u8, 0x31])
    ||| begins_with(b, seq![0x50u8, 0x32])
    ||| begins_with(b, seq![0x50u8, 0x33])
    ||| begins_with(b, seq![0x50u8, 0x34])
    ||| begins_with(b, seq![0x50u8, 0x35])
    ||| begins_with(b, seq![0x50u8, 0x36])
    ||| begins_with(b, seq![0x50u8, 0x37])
    ||| begins_with(b, seq![0x66u8, 0x61, 0x72, 0x62, 0x66, 0x65, 0x6c, 0x64])
}

/// `image::guess_format`: the format its table of magic numbers gives the
/// bytes, and an error exactly when no entry matches.
#[verifier::external_body]
fn image_guess_format(input: &[u8]) -> (r: Option<image::ImageFormat>)
    ensures
        r is Some <==> image_format_recognized(input@),
{
    image::guess_format(input).ok()
}

/// What `image::load_from_memory` followed by `DynamicImage::to_rgba8` and
/// `into_raw` gives for the bytes: the RGBA8 pixels with the width and the
/// height, or `None` where decoding fails.
pub uninterp spec fn image_decoded_rgba8(input: Seq<u8>) -> Option<(Seq<u8>, u32, u32)>;

/// Decodes with `image::load_from_memory` and converts with `to_rgba8`
/// (`into_raw` of the result, with its `width()` and `height()`). The result
/// is named by `image_decoded_rgba8`; the decoders allocate exactly
/// `width * height` pixels, so the buffer holds four bytes per pixel.
#[verifier::external_body]
fn image_decode_rgba8(input: &[u8]) -> (r: Option<(Vec<u8>, u32, u32)>)
    ensures
        image_decoded_rgba8(input@) == match r {
            Some((v, w, h)) => Some((v@, w, h)),
            None => None::<(Seq<u8>, u32, u32)>,
        },
        r matches Some((v, w, h)) ==> v@.len() == w as int * h as int * 4,
{
    let img = image::load_from_memory(input).ok()?.to_rgba8();
    let (w, h) = (img.width(), img.height());
    Some((img.into_raw(), w, h))
}

/// Pixel `k` of an RGBA buffer, its four channels.
pub open spec fn pixel_at(s: Seq<u8>, k: int) -> (u8, u8, u8, u8) {
    (s[4 * k], s[4 * k + 1], s[4 * k + 2], s[4 * k + 3])
}

/// Whether every pixel of `out` is, all four channels, a copy of some whole
/// pixel of `src`: what a nearest-neighbour resampling gives.
pub open spec fn pixels_drawn_from(out: Seq<u8>, src: Seq<u8>) -> bool {
    forall|i: int|
        0 <= i < out.len() / 4 ==> exists|j: int|
            0 <= j && 4 * j + 4 <= src.len() && #[trigger] pixel_at(out, i) == #[trigger] pixel_at(src, j)
}

/// Whether `out` is a resampling fast_image_resize gives (see
/// `fir_resize_rgba`) of the RGBA8 pixels `rgba`, `src_width` by
/// `src_height`, to `dst_width` by `dst_height` with the filter, in linear
/// light or not. A relation rather than a function: the crate picks its SIMD
/// code at run time, so the pixels may differ from machine to machine.
pub uninterp spec fn fir_resampled(
    rgba: Seq<u8>,
    src_width: u32,
    src_height: u32,
    dst_width: u32,
    dst_height: u32,
    filter: FilterType,
    linear: bool,
    out: Seq<u8>,
) -> bool;

/// One resampling with fast_image_resize in the pixels' own encoding, the
/// filter given as `ResizeAlg::Nearest` or `ResizeAlg::Convolution` with
/// `Bilinear`, `CatmullRom` (bicubic) or `Lanczos3`:
/// `images::Image::from_vec_u8` (the source, `PixelType::U8x4`),
/// `images::Image::new` (the destination, same pixel type), `Resizer::resize`
/// with `ResizeOptions::new().resize_alg(..)`, and `Image::into_vec` of the
/// destination. The images' pixel types live inside opaque values, so the
/// calls stand in this one item, where both images are `U8x4`. Then none of
/// the calls fails: `from_vec_u8` fails only on a buffer shorter than
/// `width * height * 4` bytes (byte pixels are always aligned), `resize` only
/// on different or unsupported pixel types or a bad crop (none is given). The
/// destination buffer that `Image::new` allocates is `width * height * 4`
/// bytes. Sizes whose buffer length overflows `usize` are left out. Which
/// pixels come out is not stated (the crate picks SIMD code at run time),
/// except for the nearest-neighbour filter: `resample_nearest` (and
/// `copy_image`, taken when the sizes are equal) copies whole source pixels,
/// each from the source image's first `width * height` pixels, which are the
/// first bytes of the buffer, into every destination pixel.
#[verifier::external_body]
fn fir_resize_rgba(
    rgba: Vec<u8>,
    src_width: u32,
    src_height: u32,
    dst_width: u32,
    dst_height: u32,
    filter: FilterType,
) -> (r: Option<Vec<u8>>)
    requires
        1 <= src_width && 1 <= src_height && 1 <= dst_width && 1 <= dst_height,
        src_width as int * src_height as int * 4 <= usize::MAX,
        dst_width as int * dst_height as int * 4 <= usize::MAX,
        rgba@.len() >= src_width as int * src_height as int * 4,
    ensures
        r is Some,
        r matches Some(out) ==> out@.len() == dst_width as int * dst_height as int * 4,
        r matches Some(out) ==> fir_resampled(rgba@, src_width, src_height, dst_width, dst_height, filter, false, out@),
        r matches Some(out) ==> (filter == FilterType::Nearest ==> pixels_drawn_from(out@, rgba@)),
{
    let alg = match filter {
        FilterType::Nearest => ResizeAlg::Nearest,
        FilterType::Bilinear => ResizeAlg::Convolution(FirFilter::Bilinear),
        FilterType::Bicubic => ResizeAlg::Convolution(FirFilter::CatmullRom),
        FilterType::Lanczos3 => ResizeAlg::Convolution(FirFilter::Lanczos3),
    };
    let src = Image::from_vec_u8(src_width, src_height, rgba, PixelType::U8x4).ok()?;
    let mut dst = Image::new(dst_width, dst_height, PixelType::U8x4);
    Resizer::new().resize(&src, &mut dst, Some(&ResizeOptions::new().resize_alg(alg))).ok()?;
    Some(dst.into_vec())
}

/// The same resampling in linear light: as `fir_resize_rgba`, with
/// `create_srgb_mapper()` applied by `forward_map_inplace` to the source
/// before `Resizer::resize` and by `backward_map_inplace` to the destination
/// after it. The mapper fails only on pixel types it does not support, and it
/// supports `U8x4`; it keeps each image's size. The same is stated and left
/// unstated as for `fir_resize_rgba`, but for the nearest-neighbour copies:
/// the mapping to linear light and back need not give the same bytes.
#[verifier::external_body]
fn fir_resize_rgba_linear(
    rgba: Vec<u8>,
    src_width: u32,
    src_height: u32,
    dst_width: u32,
    dst_height: u32,
    filter: FilterType,
) -> (r: Option<Vec<u8>>)
    requires
        1 <= src_width && 1 <= src_height && 1 <= dst_width && 1 <= dst_height,
        src_width as int * src_height as int * 4 <= usize::MAX,
        dst_width as int * dst_height as int * 4 <= usize::MAX,
        rgba@.len() >= src_width as int * src_height as int * 4,
    ensures
        r is Some,
        r matches Some(out) ==> out@.len() == dst_width as int * dst_height as int * 4,
        r matches Some(out) ==> fir_resampled(rgba@, src_width, src_height, dst_width, dst_height, filter, true, out@),
{
    let alg = match filter {
        FilterType::Nearest => ResizeAlg::Nearest,
        FilterType::Bilinear => ResizeAlg::Convolution(FirFilter::Bilinear),
        FilterType::Bicubic => ResizeAlg::Convolution(FirFilter::CatmullRom),
        FilterType::Lanczos3 => ResizeAlg::Convolution(FirFilter::Lanczos3),
    };
    let mut src = Image::from_vec_u8(src_width, src_height, rgba, PixelType::U8x4).ok()?;
    let mut dst = Image::new(dst_width, dst_height, PixelType::U8x4);
    let mapper = create_srgb_mapper();
    mapper.forward_map_inplace(&mut src).ok()?;
    Resizer::new().resize(&src, &mut dst, Some(&ResizeOptions::new().resize_alg(alg))).ok()?;
    mapper.backward_map_inplace(&mut dst).ok()?;
    Some(dst.into_vec())
}

} // verus!
