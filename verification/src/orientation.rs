//! EXIF orientation: parsing the tag and baking the orientation into RGBA
//! pixel data.
use vstd::prelude::*;
use crate::error::ImageError;
use crate::color::{exif_read_primary_shorts, exif_shorts, ExifTag};

verus! {

/// EXIF Orientation values (1-8).
#[derive(Debug, Clone, Copy, PartialEq, Eq, Structural)]
pub enum Orientation {
    /// Normal (no transform needed)
    Normal,
    /// Flip horizontal
    FlipHorizontal,
    /// Rotate 180°
    Rotate180,
    /// Flip vertical
    FlipVertical,
    /// Rotate 90° CW then flip horizontal (transpose)
    Rotate90CwFlipH,
    /// Rotate 90° CW (270° CCW)
    Rotate90Cw,
    /// Rotate 90° CCW then flip horizontal (transverse)
    Rotate90CcwFlipH,
    /// Rotate 90° CCW (270° CW)
    Rotate90Ccw,
}

impl Default for Orientation {
    fn default() -> (r: Self)
        ensures
            r == Orientation::Normal,
    {
        Orientation::Normal
    }
}

/// The orientation that an EXIF tag value denotes; unknown values mean Normal.
pub open spec fn orientation_of_exif_value(value: u16) -> Orientation {
    if value == 2 {
        Orientation::FlipHorizontal
    } else if value == 3 {
        Orientation::Rotate180
    } else if value == 4 {
        Orientation::FlipVertical
    } else if value == 5 {
        Orientation::Rotate90CwFlipH
    } else if value == 6 {
        Orientation::Rotate90Cw
    } else if value == 7 {
        Orientation::Rotate90CcwFlipH
    } else if value == 8 {
        Orientation::Rotate90Ccw
    } else {
        Orientation::Normal
    }
}

/// The EXIF tag value of an orientation.
pub open spec fn exif_value_of(o: Orientation) -> u16 {
    match o {
        Orientation::Normal => 1,
        Orientation::FlipHorizontal => 2,
        Orientation::Rotate180 => 3,
        Orientation::FlipVertical => 4,
        Orientation::Rotate90CwFlipH => 5,
        Orientation::Rotate90Cw => 6,
        Orientation::Rotate90CcwFlipH => 7,
        Orientation::Rotate90Ccw => 8,
    }
}

/// The EXIF values 1-8 and the orientations correspond one to one: each
/// orientation reads back from its own value, and each of those values from
/// the orientation it names.
pub proof fn lemma_exif_value_round_trip(o: Orientation, value: u16)
    ensures
        orientation_of_exif_value(exif_value_of(o)) == o,
        1 <= value <= 8 ==> exif_value_of(orientation_of_exif_value(value)) == value,
{
}

/// Whether the orientation exchanges width and height.
pub open spec fn spec_swaps_dimensions(o: Orientation) -> bool {
    o == Orientation::Rotate90Cw || o == Orientation::Rotate90Ccw || o
        == Orientation::Rotate90CwFlipH || o == Orientation::Rotate90CcwFlipH
}

impl Orientation {
    /// Parse from an EXIF orientation value.
    pub fn from_exif_value(value: u16) -> (r: Self)
        ensures
            r == orientation_of_exif_value(value),
    {
        match value {
            1 => Orientation::Normal,
            2 => Orientation::FlipHorizontal,
            3 => Orientation::Rotate180,
            4 => Orientation::FlipVertical,
            5 => Orientation::Rotate90CwFlipH,
            6 => Orientation::Rotate90Cw,
            7 => Orientation::Rotate90CcwFlipH,
            8 => Orientation::Rotate90Ccw,
            _ => Orientation::Normal,
        }
    }

    /// Whether this orientation requires any transform.
    pub fn needs_transform(&self) -> (r: bool)
        ensures
            r == (*self != Orientation::Normal),
    {
        *self != Orientation::Normal
    }

    /// Whether this orientation swaps width and height.
    pub fn swaps_dimensions(&self) -> (r: bool)
        ensures
            r == spec_swaps_dimensions(*self),
    {
        match self {
            Orientation::Rotate90Cw | Orientation::Rotate90Ccw | Orientation::Rotate90CwFlipH
            | Orientation::Rotate90CcwFlipH => true,
            _ => false,
        }
    }
}

/// The orientation named by the first value of an EXIF Orientation field
/// (given as the field's SHORT values, if it has that type); Normal when
/// there is none.
pub fn orientation_from_exif_values(values: Option<Vec<u16>>) -> (r: Orientation)
    ensures
        r == match values {
            Some(v) => if v@.len() > 0 {
                orientation_of_exif_value(v@[0])
            } else {
                Orientation::Normal
            },
            None => Orientation::Normal,
        },
{
    match values {
        Some(v) => {
            if v.len() > 0 {
                Orientation::from_exif_value(v[0])
            } else {
                Orientation::Normal
            }
        },
        None => Orientation::Normal,
    }
}

/// The orientation the first SHORT value of the image's EXIF Orientation
/// field names; Normal where there is none.
pub open spec fn exif_orientation(data: Seq<u8>) -> Orientation {
    match exif_shorts(data, ExifTag::Orientation) {
        Some(v) => if v.len() > 0 {
            orientation_of_exif_value(v[0])
        } else {
            Orientation::Normal
        },
        None => Orientation::Normal,
    }
}

/// Extracts the EXIF Orientation tag from image data; Normal when the data
/// has no readable EXIF or no SHORT Orientation field.
pub fn extract_orientation(data: &[u8]) -> (r: Orientation)
    ensures
        r == exif_orientation(data@),
{
    match exif_read_primary_shorts(data, ExifTag::Orientation) {
        Some(values) => orientation_from_exif_values(values),
        None => Orientation::Normal,
    }
}

/// Output dimensions `(width, height)` after applying `o` to a `w` x `h` image.
pub open spec fn oriented_dims(o: Orientation, w: int, h: int) -> (int, int) {
    if spec_swaps_dimensions(o) {
        (h, w)
    } else {
        (w, h)
    }
}

/// Where source pixel `(x, y)` of a `w` x `h` image lands.
pub open spec fn dest_pixel(o: Orientation, w: int, h: int, x: int, y: int) -> (int, int) {
    match o {
        Orientation::Normal => (x, y),
        Orientation::FlipHorizontal => (w - 1 - x, y),
        Orientation::Rotate180 => (w - 1 - x, h - 1 - y),
        Orientation::FlipVertical => (x, h - 1 - y),
        Orientation::Rotate90CwFlipH => (y, x),
        Orientation::Rotate90Cw => (h - 1 - y, x),
        Orientation::Rotate90CcwFlipH => (h - 1 - y, w - 1 - x),
        Orientation::Rotate90Ccw => (y, w - 1 - x),
    }
}

/// Which source pixel of a `w` x `h` image lands on output pixel `(dx, dy)`.
pub open spec fn source_pixel(o: Orientation, w: int, h: int, dx: int, dy: int) -> (int, int) {
    match o {
        Orientation::Normal => (dx, dy),
        Orientation::FlipHorizontal => (w - 1 - dx, dy),
        Orientation::Rotate180 => (w - 1 - dx, h - 1 - dy),
        Orientation::FlipVertical => (dx, h - 1 - dy),
        Orientation::Rotate90CwFlipH => (dy, dx),
        Orientation::Rotate90Cw => (dy, h - 1 - dx),
        Orientation::Rotate90CcwFlipH => (w - 1 - dy, h - 1 - dx),
        Orientation::Rotate90Ccw => (w - 1 - dy, dx),
    }
}

/// Byte offset of channel `c` of pixel `(x, y)` in a row-major RGBA buffer of
/// the given width.
pub open spec fn rgba_index(width: int, x: int, y: int, c: int) -> int {
    (y * width + x) * 4 + c
}

/// The pixels with the orientation baked in: unchanged for Normal, else
/// the oriented pixels.
pub open spec fn baked_pixels(rgba: Seq<u8>, w: int, h: int, o: Orientation) -> Seq<u8> {
    if o == Orientation::Normal {
        rgba
    } else {
        oriented_pixels(rgba, w, h, o)
    }
}

/// The RGBA buffer of a `w` x `h` image after applying `o`: output byte `i`
/// is channel `i % 4` of the source pixel that lands on output pixel
/// `(i / 4 % out_w, i / 4 / out_w)`.
pub open spec fn oriented_pixels(rgba: Seq<u8>, w: int, h: int, o: Orientation) -> Seq<u8> {
    let (ow, oh) = oriented_dims(o, w, h);
    Seq::new(
        (ow * oh * 4) as nat,
        |i: int|
            {
                let p = i / 4;
                let s = source_pixel(o, w, h, p % ow, p / ow);
                rgba[rgba_index(w, s.0, s.1, i % 4)]
            },
    )
}

/// Pixel index arithmetic: in-range coordinates give in-range, distinct offsets.
proof fn lemma_rgba_index_bounds(width: int, height: int, x: int, y: int, c: int)
    requires
        0 <= x < width,
        0 <= y < height,
        0 <= c < 4,
    ensures
        0 <= y * width + x < width * height,
        0 <= rgba_index(width, x, y, c) < width * height * 4,
        rgba_index(width, x, y, c) == (y * width + x) * 4 + c,
{
    assert(0 <= y * width) by (nonlinear_arith)
        requires
            0 <= y,
            0 <= x < width,
    ;
    assert(y * width + x < width * height) by (nonlinear_arith)
        requires
            0 <= x < width,
            0 <= y < height,
    ;
}

proof fn lemma_rgba_index_injective(
    width: int,
    x1: int,
    y1: int,
    c1: int,
    x2: int,
    y2: int,
    c2: int,
)
    requires
        0 <= x1 < width,
        0 <= x2 < width,
        0 <= y1,
        0 <= y2,
        0 <= c1 < 4,
        0 <= c2 < 4,
        rgba_index(width, x1, y1, c1) == rgba_index(width, x2, y2, c2),
    ensures
        x1 == x2 && y1 == y2 && c1 == c2,
{
    let p1 = y1 * width + x1;
    let p2 = y2 * width + x2;
    assert(p1 == p2 && c1 == c2);
    if y1 < y2 {
        assert(y1 * width + width <= y2 * width) by (nonlinear_arith)
            requires
                y1 < y2,
                0 <= width,
        ;
    } else if y2 < y1 {
        assert(y2 * width + width <= y1 * width) by (nonlinear_arith)
            requires
                y2 < y1,
                0 <= width,
        ;
    }
}

/// Decomposes an output byte offset into pixel coordinates and channel.
proof fn lemma_rgba_index_decompose(width: int, height: int, i: int)
    requires
        0 < width,
        0 <= i < width * height * 4,
    ensures
        0 <= (i / 4) % width < width,
        0 <= (i / 4) / width < height,
        0 <= i % 4 < 4,
        i == rgba_index(width, (i / 4) % width, (i / 4) / width, i % 4),
{
    let p = i / 4;
    vstd::arithmetic::div_mod::lemma_fundamental_div_mod(i, 4);
    vstd::arithmetic::div_mod::lemma_fundamental_div_mod(p, width);
    assert(0 <= p < width * height);
    let q = p / width;
    let r = p % width;
    assert(p == width * q + r);
    assert(0 <= r < width);
    assert(q >= 0 && q < height) by (nonlinear_arith)
        requires
            p == width * q + r,
            0 <= r < width,
            0 <= p < width * height,
            0 < width,
    {
        if q < 0 {
            assert(width * q <= -width);
        }
        if q >= height {
            assert(width * q >= width * height);
        }
    }
    assert(p == width * (p / width) + p % width);
    assert(width * (p / width) == (p / width) * width) by (nonlinear_arith);
}

/// The destination/source maps are mutually inverse on in-range pixels.
pub proof fn lemma_source_dest_inverse(o: Orientation, w: int, h: int, x: int, y: int)
    requires
        0 <= x < w,
        0 <= y < h,
    ensures
        ({
            let d = dest_pixel(o, w, h, x, y);
            let (ow, oh) = oriented_dims(o, w, h);
            &&& 0 <= d.0 < ow
            &&& 0 <= d.1 < oh
            &&& source_pixel(o, w, h, d.0, d.1) == (x, y)
        }),
{
}

/// Every destination pixel comes from an in-range source pixel that maps
/// back to it.
pub proof fn lemma_dest_source_inverse(o: Orientation, w: int, h: int, dx: int, dy: int)
    requires
        0 <= dx < oriented_dims(o, w, h).0,
        0 <= dy < oriented_dims(o, w, h).1,
    ensures
        ({
            let s = source_pixel(o, w, h, dx, dy);
            &&& 0 <= s.0 < w
            &&& 0 <= s.1 < h
            &&& dest_pixel(o, w, h, s.0, s.1) == (dx, dy)
        }),
{
}


/// The orientation that undoes `o`: the two quarter turns undo each other,
/// every other orientation is its own inverse.
pub open spec fn inverse_orientation(o: Orientation) -> Orientation {
    match o {
        Orientation::Rotate90Cw => Orientation::Rotate90Ccw,
        Orientation::Rotate90Ccw => Orientation::Rotate90Cw,
        _ => o,
    }
}

proof fn lemma_rgba_index_compose(width: int, a: int, b: int, c: int)
    requires
        0 <= a < width,
        0 <= b,
        0 <= c < 4,
    ensures
        rgba_index(width, a, b, c) / 4 == b * width + a,
        rgba_index(width, a, b, c) % 4 == c,
        (rgba_index(width, a, b, c) / 4) % width == a,
        (rgba_index(width, a, b, c) / 4) / width == b,
{
    let p = b * width + a;
    vstd::arithmetic::div_mod::lemma_fundamental_div_mod_converse(rgba_index(width, a, b, c), 4, p, c);
    vstd::arithmetic::div_mod::lemma_fundamental_div_mod_converse(p, width, b, a);
}

/// Applying an orientation and then its inverse gives back the
/// original pixels and dimensions.
pub proof fn lemma_orientation_round_trip(rgba: Seq<u8>, w: int, h: int, o: Orientation)
    requires
        0 <= w,
        0 <= h,
        rgba.len() == w * h * 4,
    ensures
        ({
            let (ow, oh) = oriented_dims(o, w, h);
            &&& oriented_dims(inverse_orientation(o), ow, oh) == (w, h)
            &&& oriented_pixels(oriented_pixels(rgba, w, h, o), ow, oh, inverse_orientation(o))
                == rgba
        }),
{
    let (ow, oh) = oriented_dims(o, w, h);
    let io = inverse_orientation(o);
    let once = oriented_pixels(rgba, w, h, o);
    let twice = oriented_pixels(once, ow, oh, io);
    assert(ow * oh == w * h) by (nonlinear_arith)
        requires
            (ow == w && oh == h) || (ow == h && oh == w),
    ;
    assert forall|i: int| 0 <= i < rgba.len() implies twice[i] == rgba[i] by {
        if w == 0 {
            assert(rgba.len() == 0);
        }
        lemma_rgba_index_decompose(w, h, i);
        let p = i / 4;
        let x = p % w;
        let y = p / w;
        let c = i % 4;
        let s1 = source_pixel(io, ow, oh, x, y);
        lemma_dest_source_inverse(io, ow, oh, x, y);
        lemma_rgba_index_bounds(ow, oh, s1.0, s1.1, c);
        let j = rgba_index(ow, s1.0, s1.1, c);
        lemma_rgba_index_compose(ow, s1.0, s1.1, c);
        let s2 = source_pixel(o, w, h, s1.0, s1.1);
        assert(s2 == (x, y));
        assert(once[j] == rgba[rgba_index(w, x, y, c)]);
    }
    assert(twice =~= rgba);
}

/// One byte of the oriented pixels, read back through the source map.
proof fn lemma_oriented_byte(rgba: Seq<u8>, w: int, h: int, o: Orientation, dx: int, dy: int, c: int)
    requires
        0 <= dx < oriented_dims(o, w, h).0,
        0 <= dy < oriented_dims(o, w, h).1,
        0 <= c < 4,
    ensures
        ({
            let (ow, oh) = oriented_dims(o, w, h);
            let s = source_pixel(o, w, h, dx, dy);
            &&& 0 <= rgba_index(ow, dx, dy, c) < oriented_pixels(rgba, w, h, o).len()
            &&& oriented_pixels(rgba, w, h, o)[rgba_index(ow, dx, dy, c)] == rgba[rgba_index(
                w,
                s.0,
                s.1,
                c,
            )]
        }),
{
    let (ow, oh) = oriented_dims(o, w, h);
    lemma_rgba_index_bounds(ow, oh, dx, dy, c);
    lemma_rgba_index_compose(ow, dx, dy, c);
}

/// Where each EXIF orientation puts source pixel `(x, y)` of a `w` x `h`
/// image, channel by channel: the flips and the half turn keep the size;
/// the other four give an `h` x `w` image, in which orientation 5
/// (`Rotate90CwFlipH`) is the transpose `(y, x)`, 6 (`Rotate90Cw`) the
/// clockwise quarter turn `(h - 1 - y, x)`, 7 (`Rotate90CcwFlipH`) the
/// transverse `(h - 1 - y, w - 1 - x)` and 8 (`Rotate90Ccw`) the
/// counter-clockwise quarter turn `(y, w - 1 - x)`.
pub proof fn lemma_orientation_pixel_positions(rgba: Seq<u8>, w: int, h: int, x: int, y: int, c: int)
    requires
        0 <= x < w,
        0 <= y < h,
        0 <= c < 4,
        rgba.len() == w * h * 4,
    ensures
        baked_pixels(rgba, w, h, Orientation::Normal)[(y * w + x) * 4 + c] == rgba[(y * w + x) * 4
            + c],
        baked_pixels(rgba, w, h, Orientation::FlipHorizontal)[(y * w + (w - 1 - x)) * 4 + c]
            == rgba[(y * w + x) * 4 + c],
        baked_pixels(rgba, w, h, Orientation::Rotate180)[((h - 1 - y) * w + (w - 1 - x)) * 4 + c]
            == rgba[(y * w + x) * 4 + c],
        baked_pixels(rgba, w, h, Orientation::FlipVertical)[((h - 1 - y) * w + x) * 4 + c]
            == rgba[(y * w + x) * 4 + c],
        baked_pixels(rgba, w, h, Orientation::Rotate90CwFlipH)[(x * h + y) * 4 + c] == rgba[(y * w
            + x) * 4 + c],
        baked_pixels(rgba, w, h, Orientation::Rotate90Cw)[(x * h + (h - 1 - y)) * 4 + c] == rgba[(y
            * w + x) * 4 + c],
        baked_pixels(rgba, w, h, Orientation::Rotate90CcwFlipH)[((w - 1 - x) * h + (h - 1 - y)) * 4
            + c] == rgba[(y * w + x) * 4 + c],
        baked_pixels(rgba, w, h, Orientation::Rotate90Ccw)[((w - 1 - x) * h + y) * 4 + c] == rgba[(
        y * w + x) * 4 + c],
{
    lemma_oriented_byte(rgba, w, h, Orientation::FlipHorizontal, w - 1 - x, y, c);
    lemma_oriented_byte(rgba, w, h, Orientation::Rotate180, w - 1 - x, h - 1 - y, c);
    lemma_oriented_byte(rgba, w, h, Orientation::FlipVertical, x, h - 1 - y, c);
    lemma_oriented_byte(rgba, w, h, Orientation::Rotate90CwFlipH, y, x, c);
    lemma_oriented_byte(rgba, w, h, Orientation::Rotate90Cw, h - 1 - y, x, c);
    lemma_oriented_byte(rgba, w, h, Orientation::Rotate90CcwFlipH, h - 1 - y, w - 1 - x, c);
    lemma_oriented_byte(rgba, w, h, Orientation::Rotate90Ccw, y, w - 1 - x, c);
}

/// The Normal orientation leaves a `w` x `h` RGBA buffer unchanged.
pub proof fn lemma_normal_orientation_identity(rgba: Seq<u8>, w: int, h: int)
    requires
        0 <= w,
        0 <= h,
        rgba.len() == w * h * 4,
    ensures
        oriented_pixels(rgba, w, h, Orientation::Normal) == rgba,
{
    let out = oriented_pixels(rgba, w, h, Orientation::Normal);
    assert forall|i: int| 0 <= i < rgba.len() implies out[i] == rgba[i] by {
        if w == 0 {
            assert(rgba.len() == 0);
        }
        lemma_rgba_index_decompose(w, h, i);
    }
    assert(out =~= rgba);
}

/// Whether pixel `(x, y)` comes before the scan position `(cx, cy)` in
/// row-major order.
pub open spec fn scanned_before(x: int, y: int, cx: int, cy: int) -> bool {
    y < cy || (y == cy && x < cx)
}

/// The output holds source pixel `(x, y)` at its destination, for every
/// pixel scanned before `(cx, cy)`.
pub open spec fn placed_before(
    out: Seq<u8>,
    rgba: Seq<u8>,
    w: int,
    h: int,
    o: Orientation,
    cx: int,
    cy: int,
) -> bool {
    let ow = oriented_dims(o, w, h).0;
    forall|x: int, y: int, c: int|
        #![trigger dest_pixel(o, w, h, x, y), rgba_index(w, x, y, c)]
        0 <= x < w && 0 <= y < h && 0 <= c < 4 && scanned_before(x, y, cx, cy) ==> out[rgba_index(
            ow,
            dest_pixel(o, w, h, x, y).0,
            dest_pixel(o, w, h, x, y).1,
            c,
        )] == rgba[rgba_index(w, x, y, c)]
}

fn dest_of(o: Orientation, w: usize, h: usize, x: usize, y: usize) -> (r: (usize, usize))
    requires
        x < w,
        y < h,
    ensures
        r.0 as int == dest_pixel(o, w as int, h as int, x as int, y as int).0,
        r.1 as int == dest_pixel(o, w as int, h as int, x as int, y as int).1,
{
    match o {
        Orientation::Normal => (x, y),
        Orientation::FlipHorizontal => (w - 1 - x, y),
        Orientation::Rotate180 => (w - 1 - x, h - 1 - y),
        Orientation::FlipVertical => (x, h - 1 - y),
        Orientation::Rotate90CwFlipH => (y, x),
        Orientation::Rotate90Cw => (h - 1 - y, x),
        Orientation::Rotate90CcwFlipH => (h - 1 - y, w - 1 - x),
        Orientation::Rotate90Ccw => (y, w - 1 - x),
    }
}

/// Applies an orientation transform to RGBA pixel data.
///
/// Returns the transformed pixels and the new dimensions (width, height).
pub fn apply_orientation(rgba: &[u8], width: u32, height: u32, orientation: Orientation) -> (r:
    Result<(Vec<u8>, u32, u32), ImageError>)
    requires
        orientation != Orientation::Normal ==> width as int * height as int * 4 <= rgba@.len(),
    ensures
        r matches Ok((out, ow, oh)) && {
            &&& (ow as int, oh as int) == oriented_dims(orientation, width as int, height as int)
            &&& orientation == Orientation::Normal ==> out@ == rgba@
            &&& orientation != Orientation::Normal ==> out@ == oriented_pixels(
                rgba@,
                width as int,
                height as int,
                orientation,
            )
        },
{
    if !orientation.needs_transform() {
        return Ok((vstd::slice::slice_to_vec(rgba), width, height));
    }
    let w = width as usize;
    let h = height as usize;
    let (out_w, out_h) = if orientation.swaps_dimensions() {
        (height, width)
    } else {
        (width, height)
    };
    let ow = out_w as usize;
    let oh = out_h as usize;
    let ghost wi = w as int;
    let ghost hi = h as int;
    let rlen = rgba.len();
    proof {
        if ow == w {
            assert(oh == h);
        } else {
            assert(ow == h && oh == w);
            assert(ow as int * oh as int == wi * hi) by (nonlinear_arith)
                requires
                    ow == h && oh == w, wi == w, hi == h,
            ;
        }
        assert(wi * hi * 4 <= rlen);
    }
    let total = w * h * 4;
    let mut output: Vec<u8> = vec![0u8; total];
    let mut y: usize = 0;
    while y < h
        invariant
            w == width as usize,
            h == height as usize,
            (ow as int, oh as int) == oriented_dims(orientation, wi, hi),
            wi == w,
            hi == h,
            total == ow * oh * 4,
            ow as int * oh as int == wi * hi,
            wi * hi * 4 <= rgba@.len(),
            y <= h,
            output@.len() == total,
            placed_before(output@, rgba@, wi, hi, orientation, 0, y as int),
        decreases h - y,
    {
        let mut x: usize = 0;
        while x < w
            invariant
                w == width as usize,
                h == height as usize,
                (ow as int, oh as int) == oriented_dims(orientation, wi, hi),
                wi == w,
                hi == h,
                total == ow * oh * 4,
                ow as int * oh as int == wi * hi,
                wi * hi * 4 <= rgba@.len(),
                y < h,
                x <= w,
                output@.len() == total,
                placed_before(output@, rgba@, wi, hi, orientation, x as int, y as int),
            decreases w - x,
        {
            let (dx, dy) = dest_of(orientation, w, h, x, y);
            proof {
                lemma_source_dest_inverse(orientation, wi, hi, x as int, y as int);
                lemma_rgba_index_bounds(wi, hi, x as int, y as int, 0);
                lemma_rgba_index_bounds(wi, hi, x as int, y as int, 3);
                lemma_rgba_index_bounds(ow as int, oh as int, dx as int, dy as int, 0);
                lemma_rgba_index_bounds(ow as int, oh as int, dx as int, dy as int, 3);
            }
            let src_idx = (y * w + x) * 4;
            let dst_idx = (dy * ow + dx) * 4;
            let ghost before = output@;
            output.set(dst_idx, rgba[src_idx]);
            output.set(dst_idx + 1, rgba[src_idx + 1]);
            output.set(dst_idx + 2, rgba[src_idx + 2]);
            output.set(dst_idx + 3, rgba[src_idx + 3]);
            proof {
                let o = orientation;
                assert forall|x2: int, y2: int, c: int|
                    #![trigger dest_pixel(o, wi, hi, x2, y2), rgba_index(wi, x2, y2, c)]
                    0 <= x2 < wi && 0 <= y2 < hi && 0 <= c < 4 && scanned_before(
                        x2,
                        y2,
                        x + 1,
                        y as int,
                    ) implies output@[rgba_index(
                    ow as int,
                    dest_pixel(o, wi, hi, x2, y2).0,
                    dest_pixel(o, wi, hi, x2, y2).1,
                    c,
                )] == rgba@[rgba_index(wi, x2, y2, c)] by {
                    let d2 = dest_pixel(o, wi, hi, x2, y2);
                    lemma_source_dest_inverse(o, wi, hi, x2, y2);
                    lemma_rgba_index_bounds(ow as int, oh as int, d2.0, d2.1, c);
                    lemma_rgba_index_bounds(wi, hi, x2, y2, c);
                    let k = rgba_index(ow as int, d2.0, d2.1, c);
                    if x2 == x && y2 == y {
                        assert(k == dst_idx + c);
                        assert(rgba_index(wi, x2, y2, c) == src_idx + c);
                    } else {
                        assert(scanned_before(x2, y2, x as int, y as int));
                        if d2.0 == dx && d2.1 == dy {
                            assert(source_pixel(o, wi, hi, d2.0, d2.1) == (x2, y2));
                        }
                        assert(d2 != (dx as int, dy as int));
                        if k == dst_idx || k == dst_idx + 1 || k == dst_idx + 2 || k == dst_idx + 3 {
                            let c0 = k - dst_idx;
                            lemma_rgba_index_injective(
                                ow as int,
                                d2.0,
                                d2.1,
                                c,
                                dx as int,
                                dy as int,
                                c0,
                            );
                        }
                        assert(output@[k] == before[k]);
                    }
                }
            }
            x = x + 1;
        }
        proof {
            let o = orientation;
            assert forall|x2: int, y2: int, c: int|
                #![trigger dest_pixel(o, wi, hi, x2, y2), rgba_index(wi, x2, y2, c)]
                0 <= x2 < wi && 0 <= y2 < hi && 0 <= c < 4 && scanned_before(
                    x2,
                    y2,
                    0,
                    y + 1,
                ) implies output@[rgba_index(
                ow as int,
                dest_pixel(o, wi, hi, x2, y2).0,
                dest_pixel(o, wi, hi, x2, y2).1,
                c,
            )] == rgba@[rgba_index(wi, x2, y2, c)] by {
                assert(scanned_before(x2, y2, w as int, y as int));
            }
        }
        y = y + 1;
    }
    proof {
        let o = orientation;
        let expected = oriented_pixels(rgba@, wi, hi, o);
        assert forall|i: int| 0 <= i < total implies output@[i] == expected[i] by {
            if ow > 0 {
                lemma_rgba_index_decompose(ow as int, oh as int, i);
                let p = i / 4;
                let dx2 = p % (ow as int);
                let dy2 = p / (ow as int);
                lemma_dest_source_inverse(o, wi, hi, dx2, dy2);
                let s = source_pixel(o, wi, hi, dx2, dy2);
                assert(scanned_before(s.0, s.1, 0, hi));
                assert(dest_pixel(o, wi, hi, s.0, s.1) == (dx2, dy2));
                lemma_rgba_index_bounds(wi, hi, s.0, s.1, i % 4);
            } else {
                assert(ow as int * oh as int == 0);
            }
        }
        assert(output@ =~= expected);
    }
    Ok((output, out_w, out_h))
}

} // verus!
