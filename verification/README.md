# imgcrsh

A color-accurate image transformation pipeline: decode, bake the EXIF
orientation into the pixels, normalize colors (to Display P3 where the source
carries a profile, to sRGB where the output format needs it), resample, and
encode to JPEG, PNG, WebP, AVIF, GIF or JPEG XL with the matching ICC profile.

The library under `src/` is written in Verus. Its byte-level logic is proved
against specifications:

- `color` - ICC chunk scanning and reassembly from JPEG APP2 segments,
  classification of profiles and EXIF color spaces, the transform decision;
- `orientation` - EXIF orientation parsing and baking, with the round-trip
  law for each orientation and its inverse;
- `formats` - per-format encoders; ICC injection into JPEG (APP2 chunks) and
  WebP (VP8X + ICCP) with the laws that the profile reads back; GIF alpha
  thresholding and palette conversion; encoder settings;
- `config` - pipeline configuration and its builders;
- `pipeline` - the color plan, the output profile choice and their laws, and
  the decode / prepare / resize / encode stages;
- `diagnostics` - byte-level inspection of ICC data and APP2 segments.

The codecs and color engines (image, mozjpeg, oxipng, libwebp, ravif,
imagequant, gif, moxcms, kamadak-exif, fast_image_resize) are reached through
small trusted wrappers. Their contracts state what the outside sources
show for the inputs they admit; where a result depends on the machine (SIMD
code chosen at run time) or on the time, only what holds of every outcome is
stated.

`app/` is the command-line front end: argument handling, file I/O, the
target-size computation (floating point) and JPEG XL encoding through libjxl.
