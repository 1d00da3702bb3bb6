//! An RGBA image stored row by row, with color inversion, brightness,
//! flipping, cropping, filling, pixel access and shape drawing.

use vstd::arithmetic::div_mod::{lemma_fundamental_div_mod, lemma_fundamental_div_mod_converse};
use vstd::prelude::*;

use crate::color::Color;
use crate::drawing::{
    line_exact, line_first_end, line_fits, line_pixels, line_segment, canvas_fits, circle_fits, ellipse_fits, exact_in_f32, fill_box, fill_circle, fill_ellipse,
    ellipse_outcome, filled_box_pixels, filled_circle_pixels, hollow_circle_pixels,
    keeps_blend_extremes, outline_box, outline_circle, outline_ellipse, outline_fits,
    outlined_box_pixels, overlaid, overlay_box, shape_box_fits,
};
use crate::geometry::{clamped_rect, point, size, Point, Rect, Size};
use crate::image_options::{DrawImageOptions, DrawingOptions};
use crate::numeric::{Si32, Su32};

verus! {

/// Where pixel `(x, y)` is stored in a row-major image of width `w`.
pub open spec fn cell(x: int, y: int, w: int) -> int {
    y * w + x
}

/// Cell `(x, y)` of a `w` by `h` grid lies inside it, and its column and row
/// can be read back from its position.
pub proof fn lemma_cell(x: int, y: int, w: int, h: int)
    requires
        0 <= x < w,
        0 <= y < h,
    ensures
        0 <= cell(x, y, w) < w * h,
        cell(x, y, w) % w == x,
        cell(x, y, w) / w == y,
{
    assert(0 <= y * w && y * w + x < w * h) by (nonlinear_arith)
        requires
            0 <= x < w,
            0 <= y < h,
    ;
    lemma_fundamental_div_mod_converse(y * w + x, w, y, x);
}

/// Position `i` of a `w` by `h` grid is the cell of its column and row.
pub proof fn lemma_position(i: int, w: int, h: int)
    requires
        0 <= w,
        0 <= h,
        0 <= i < w * h,
    ensures
        w > 0,
        0 <= i % w < w,
        0 <= i / w < h,
        cell(i % w, i / w, w) == i,
{
    assert(w > 0) by (nonlinear_arith)
        requires
            0 <= w,
            0 <= h,
            0 <= i < w * h,
    ;
    lemma_fundamental_div_mod(i, w);
    assert(0 <= i / w < h) by (nonlinear_arith)
        requires
            0 <= i < w * h,
            w > 0,
    ;
    assert((i / w) * w == w * (i / w)) by (nonlinear_arith);
}

/// Whether the RGBA bytes of a `w` by `h` image fit in one allocation:
/// four bytes per pixel, at most `isize::MAX` in all.
pub open spec fn buffer_fits(w: int, h: int) -> bool {
    4 * w * h <= isize::MAX
}

/// A region no larger than one whose buffer fits has a buffer that fits,
/// and no more pixels.
pub proof fn lemma_fits_smaller(w: int, h: int, w2: int, h2: int)
    requires
        0 <= w2 <= w,
        0 <= h2 <= h,
        buffer_fits(w, h),
    ensures
        buffer_fits(w2, h2),
        0 <= w2 * h2 <= w * h,
        w * h <= isize::MAX,
{
    assert(0 <= w2 * h2 <= w * h && w * h <= 4 * w * h && 4 * w2 * h2 <= 4 * w * h) by (nonlinear_arith)
        requires
            0 <= w2 <= w,
            0 <= h2 <= h,
    ;
}

/// The color with red, green and blue inverted and alpha kept.
pub open spec fn invert_color(c: Color) -> Color {
    Color { r: (255 - c.r) as u8, g: (255 - c.g) as u8, b: (255 - c.b) as u8, a: c.a }
}

/// A channel moved by `value`, clamped into `[0, 255]`.
pub open spec fn shift_channel(c: u8, value: i32) -> u8 {
    let v = c + value;
    if v < 0 {
        0
    } else if v > 255 {
        255
    } else {
        v as u8
    }
}

/// Whether adding `value` to every red, green and blue channel stays within
/// `i32`, where the channel sums are computed.
pub open spec fn brightening_fits(pixels: Seq<Color>, value: i32) -> bool {
    forall|i: int|
        0 <= i < pixels.len() ==> pixels[i].r + value <= i32::MAX && pixels[i].g + value <= i32::MAX
            && pixels[i].b + value <= i32::MAX
}

/// The color with red, green and blue moved by `value` and alpha kept.
pub open spec fn brighten_color(c: Color, value: i32) -> Color {
    Color {
        r: shift_channel(c.r, value),
        g: shift_channel(c.g, value),
        b: shift_channel(c.b, value),
        a: c.a,
    }
}

/// Direction to flip an image.
#[derive(Clone, Copy, Debug, PartialEq, Eq, Structural)]
pub enum FlipDirection {
    /// Mirror left to right.
    Horizontal,
    /// Mirror top to bottom.
    Vertical,
}

/// Why an image operation was refused.
#[derive(Clone, Copy, Debug, PartialEq, Eq, Structural)]
pub enum ImageError {
    /// The position lies outside the image.
    InvalidPosition,
    /// The region has a zero width or height.
    EmptyRegion,
    /// The region's right edge does not fit in a `u32`.
    RegionTooWide,
    /// The region's bottom edge does not fit in a `u32`.
    RegionTooTall,
    /// The region extends beyond the image.
    RegionOutOfBounds,
}

/// An image that is always stored as RGBA with 8-bit channels, row by row.
#[derive(Debug)]
pub struct Image {
    width: u32,
    height: u32,
    pixels: Vec<Color>,
}

/// The source position that horizontal flipping moves to position `i`.
pub open spec fn flip_horizontal_source(i: int, w: int) -> int {
    cell(w - 1 - i % w, i / w, w)
}

/// The source position that vertical flipping moves to position `i`.
pub open spec fn flip_vertical_source(i: int, w: int, h: int) -> int {
    cell(i % w, h - 1 - i / w, w)
}

/// The region that cropping at `(x, y)` with size `(w, h)` keeps of an image
/// of size `(iw, ih)`: the corner and the size are clamped to the image.
pub open spec fn crop_bounds(iw: int, ih: int, x: int, y: int, w: int, h: int) -> (int, int, int, int) {
    let cx = if x < iw { x } else { iw };
    let cy = if y < ih { y } else { ih };
    let cw = if w < iw - cx { w } else { iw - cx };
    let ch = if h < ih - cy { h } else { ih - cy };
    (cx, cy, cw, ch)
}

/// Whether `(x, y)` is covered by the plus-shaped cross centered on
/// `(cx, cy)`: the center and its four neighbours.
pub open spec fn in_cross(x: int, y: int, cx: int, cy: int) -> bool {
    (x == cx && cy - 1 <= y <= cy + 1) || (y == cy && cx - 1 <= x <= cx + 1)
}

impl Image {
    #[verifier::type_invariant]
    spec fn inv(&self) -> bool {
        &&& self.pixels.len() == self.width * self.height
        &&& buffer_fits(self.width as int, self.height as int)
    }

    /// Width in pixels.
    pub closed spec fn w(&self) -> int {
        self.width as int
    }

    /// Height in pixels.
    pub closed spec fn h(&self) -> int {
        self.height as int
    }

    /// The pixels, row by row.
    pub closed spec fn pixels(&self) -> Seq<Color> {
        self.pixels@
    }

    /// The color of pixel `(x, y)`.
    pub open spec fn pixel_at(&self, x: int, y: int) -> Color {
        self.pixels()[cell(x, y, self.w())]
    }

    /// The image holds one color per pixel.
    pub open spec fn sized(&self) -> bool {
        self.pixels().len() == self.w() * self.h()
    }

    /// A fully transparent black image.
    pub fn new(width: u32, height: u32) -> (img: Self)
        requires
            buffer_fits(width as int, height as int),
        ensures
            img.w() == width,
            img.h() == height,
            img.sized(),
            forall|i: int| 0 <= i < img.pixels().len() ==> img.pixels()[i] == (Color { r: 0, g: 0, b: 0, a: 0 }),
    {
        proof {
            lemma_fits_smaller(width as int, height as int, width as int, height as int);
        }
        let n: usize = (width as usize) * (height as usize);
        let mut pixels: Vec<Color> = Vec::new();
        let mut i: usize = 0;
        while i < n
            invariant
                i <= n,
                pixels.len() == i,
                forall|k: int| 0 <= k < i ==> pixels@[k] == (Color { r: 0, g: 0, b: 0, a: 0 }),
            decreases n - i,
        {
            pixels.push(Color { r: 0, g: 0, b: 0, a: 0 });
            i = i + 1;
        }
        Image { width, height, pixels }
    }

    /// Width in pixels.
    pub fn width(&self) -> (w: u32)
        ensures
            w == self.w(),
    {
        self.width
    }

    /// Height in pixels.
    pub fn height(&self) -> (h: u32)
        ensures
            h == self.h(),
    {
        self.height
    }

    /// Holds when the images have the same size and the same pixels.
    pub fn same_as(&self, other: &Image) -> (b: bool)
        ensures
            b == (self.w() == other.w() && self.h() == other.h() && self.pixels() == other.pixels()),
    {
        if self.width != other.width || self.height != other.height || self.pixels.len()
            != other.pixels.len() {
            return false;
        }
        let mut i: usize = 0;
        while i < self.pixels.len()
            invariant
                i <= self.pixels.len(),
                self.pixels.len() == other.pixels.len(),
                forall|k: int| 0 <= k < i ==> self.pixels@[k] == other.pixels@[k],
            decreases self.pixels.len() - i,
        {
            if self.pixels[i] != other.pixels[i] {
                return false;
            }
            i = i + 1;
        }
        assert(self.pixels@ =~= other.pixels@);
        true
    }

    /// A copy of this image.
    pub fn duplicate(&self) -> (img: Image)
        ensures
            img.w() == self.w(),
            img.h() == self.h(),
            img.pixels() == self.pixels(),
            img.sized(),
    {
        proof {
            use_type_invariant(self);
        }
        Image { width: self.width, height: self.height, pixels: self.pixels.clone() }
    }

    /// The image with its colors inverted; alpha is kept.
    pub fn inverted(&self) -> (img: Image)
        ensures
            img.w() == self.w(),
            img.h() == self.h(),
            img.sized(),
            img.pixels() == self.pixels().map_values(|c: Color| invert_color(c)),
    {
        proof {
            use_type_invariant(self);
        }
        let mut out: Vec<Color> = Vec::new();
        let mut i: usize = 0;
        while i < self.pixels.len()
            invariant
                i <= self.pixels.len(),
                out.len() == i,
                forall|k: int| 0 <= k < i ==> out@[k] == invert_color(self.pixels@[k]),
            decreases self.pixels.len() - i,
        {
            let c = self.pixels[i];
            out.push(Color { r: 255 - c.r, g: 255 - c.g, b: 255 - c.b, a: c.a });
            i = i + 1;
        }
        assert(out@ =~= self.pixels@.map_values(|c: Color| invert_color(c)));
        Image { width: self.width, height: self.height, pixels: out }
    }

    /// Inverts the colors of this image; alpha is kept.
    pub fn invert_mut(&mut self)
        ensures
            final(self).w() == old(self).w(),
            final(self).h() == old(self).h(),
            final(self).pixels() == old(self).pixels().map_values(|c: Color| invert_color(c)),
    {
        *self = self.inverted();
    }

    /// The image with red, green and blue moved by `value`, clamped into
    /// `[0, 255]`; alpha is kept.
    pub fn adjusted_brightness(&self, value: i32) -> (img: Image)
        requires
            brightening_fits(self.pixels(), value),
        ensures
            img.w() == self.w(),
            img.h() == self.h(),
            img.sized(),
            img.pixels() == self.pixels().map_values(|c: Color| brighten_color(c, value)),
    {
        proof {
            use_type_invariant(self);
        }
        let mut out: Vec<Color> = Vec::new();
        let mut i: usize = 0;
        while i < self.pixels.len()
            invariant
                i <= self.pixels.len(),
                out.len() == i,
                forall|k: int| 0 <= k < i ==> out@[k] == brighten_color(self.pixels@[k], value),
            decreases self.pixels.len() - i,
        {
            let c = self.pixels[i];
            out.push(
                Color {
                    r: shift(c.r, value),
                    g: shift(c.g, value),
                    b: shift(c.b, value),
                    a: c.a,
                },
            );
            i = i + 1;
        }
        assert(out@ =~= self.pixels@.map_values(|c: Color| brighten_color(c, value)));
        Image { width: self.width, height: self.height, pixels: out }
    }

    /// Moves red, green and blue by `value`, clamped into `[0, 255]`.
    pub fn adjust_brightness_mut(&mut self, value: i32)
        requires
            brightening_fits(old(self).pixels(), value),
        ensures
            final(self).w() == old(self).w(),
            final(self).h() == old(self).h(),
            final(self).pixels() == old(self).pixels().map_values(|c: Color| brighten_color(c, value)),
    {
        *self = self.adjusted_brightness(value);
    }

    /// An image of the same size filled with one color.
    pub fn filled(&self, color: Color) -> (img: Image)
        ensures
            img.w() == self.w(),
            img.h() == self.h(),
            img.sized(),
            img.pixels() == Seq::new(self.pixels().len(), |i: int| color),
    {
        proof {
            use_type_invariant(self);
        }
        let mut out: Vec<Color> = Vec::new();
        let mut i: usize = 0;
        while i < self.pixels.len()
            invariant
                i <= self.pixels.len(),
                out.len() == i,
                forall|k: int| 0 <= k < i ==> out@[k] == color,
            decreases self.pixels.len() - i,
        {
            out.push(color);
            i = i + 1;
        }
        assert(out@ =~= Seq::new(self.pixels@.len(), |i: int| color));
        Image { width: self.width, height: self.height, pixels: out }
    }

    /// Fills this image with one color.
    pub fn fill_mut(&mut self, color: Color)
        ensures
            final(self).w() == old(self).w(),
            final(self).h() == old(self).h(),
            final(self).pixels() == Seq::new(old(self).pixels().len(), |i: int| color),
    {
        *self = self.filled(color);
    }

    /// The image mirrored in the given direction.
    pub fn flipped(&self, direction: FlipDirection) -> (img: Image)
        ensures
            img.w() == self.w(),
            img.h() == self.h(),
            img.sized(),
            direction == FlipDirection::Horizontal ==> img.pixels() == Seq::new(
                self.pixels().len(),
                |i: int| self.pixels()[flip_horizontal_source(i, self.w())],
            ),
            direction == FlipDirection::Vertical ==> img.pixels() == Seq::new(
                self.pixels().len(),
                |i: int| self.pixels()[flip_vertical_source(i, self.w(), self.h())],
            ),
    {
        proof {
            use_type_invariant(self);
        }
        let w = self.width as usize;
        let h = self.height as usize;
        let n = self.pixels.len();
        let mut out: Vec<Color> = Vec::new();
        let mut i: usize = 0;
        while i < n
            invariant
                i <= n,
                n == self.pixels.len(),
                n == w * h,
                w == self.w(),
                h == self.h(),
                out.len() == i,
                forall|k: int|
                    0 <= k < i ==> out@[k] == if direction == FlipDirection::Horizontal {
                        self.pixels@[flip_horizontal_source(k, w as int)]
                    } else {
                        self.pixels@[flip_vertical_source(k, w as int, h as int)]
                    },
            decreases n - i,
        {
            proof {
                lemma_position(i as int, w as int, h as int);
            }
            let x = i % w;
            let y = i / w;
            let src = match direction {
                FlipDirection::Horizontal => {
                    proof {
                        lemma_cell((w - 1 - x) as int, y as int, w as int, h as int);
                    }
                    y * w + (w - 1 - x)
                },
                FlipDirection::Vertical => {
                    proof {
                        lemma_cell(x as int, (h - 1 - y) as int, w as int, h as int);
                    }
                    (h - 1 - y) * w + x
                },
            };
            out.push(self.pixels[src]);
            i = i + 1;
        }
        proof {
            if direction == FlipDirection::Horizontal {
                assert(out@ =~= Seq::new(n as nat, |i: int| self.pixels@[flip_horizontal_source(i, w as int)]));
            } else {
                assert(out@ =~= Seq::new(n as nat, |i: int| self.pixels@[flip_vertical_source(i, w as int, h as int)]));
            }
        }
        Image { width: self.width, height: self.height, pixels: out }
    }

    /// Mirrors this image in the given direction.
    pub fn flip_mut(&mut self, direction: FlipDirection)
        ensures
            final(self).w() == old(self).w(),
            final(self).h() == old(self).h(),
            direction == FlipDirection::Horizontal ==> final(self).pixels() == Seq::new(
                old(self).pixels().len(),
                |i: int| old(self).pixels()[flip_horizontal_source(i, old(self).w())],
            ),
            direction == FlipDirection::Vertical ==> final(self).pixels() == Seq::new(
                old(self).pixels().len(),
                |i: int| old(self).pixels()[flip_vertical_source(i, old(self).w(), old(self).h())],
            ),
    {
        *self = self.flipped(direction);
    }
}

/// A channel moved by `value`, clamped into `[0, 255]`.
fn shift(c: u8, value: i32) -> (r: u8)
    ensures
        r == shift_channel(c, value),
{
    let v = c as i64 + value as i64;
    if v < 0 {
        0
    } else if v > 255 {
        255
    } else {
        v as u8
    }
}


/// The pixels of the `w` by `h` region at `(x, y)` of an image of width
/// `iw`, row by row.
pub open spec fn region(pixels: Seq<Color>, iw: int, x: int, y: int, w: int, h: int) -> Seq<Color> {
    Seq::new((w * h) as nat, |k: int| pixels[cell(x + k % w, y + k / w, iw)])
}

/// The width, height and pixels that cropping `img` to `rect` gives.
pub open spec fn crop_result(img: Image, rect: Rect) -> (int, int, Seq<Color>) {
    let (x, y, w, h) = clamped_rect(rect);
    let (cx, cy, cw, ch) = crop_bounds(img.w(), img.h(), x, y, w, h);
    (cw, ch, region(img.pixels(), img.w(), cx, cy, cw, ch))
}

/// The error that placing a `rw` by `rh` region at `(sx, sy)` in a `width`
/// by `height` image meets, checked in this order: an empty region, a right
/// or bottom edge past `u32::MAX`, a region that leaves the image.
pub open spec fn region_error(width: int, height: int, sx: int, sy: int, rw: int, rh: int) -> Option<ImageError> {
    if rw == 0 || rh == 0 {
        Some(ImageError::EmptyRegion)
    } else if sx + rw > u32::MAX {
        Some(ImageError::RegionTooWide)
    } else if sy + rh > u32::MAX {
        Some(ImageError::RegionTooTall)
    } else if sx + rw > width || sy + rh > height {
        Some(ImageError::RegionOutOfBounds)
    } else {
        None
    }
}

/// The luma of a color: `(2126 r + 7152 g + 722 b) / 10000`.
pub open spec fn luma(c: Color) -> u8 {
    ((2126 * c.r + 7152 * c.g + 722 * c.b) / 10000) as u8
}

/// The gray color of the same luma, alpha kept.
pub open spec fn gray_color(c: Color) -> Color {
    Color { r: luma(c), g: luma(c), b: luma(c), a: c.a }
}

/// The pixels after drawing a cross of `color` centered on `(cx, cy)`:
/// the cells of the cross that lie inside the image take the color. Nothing
/// is drawn when a side of the image exceeds `i32::MAX`.
pub open spec fn cross_pixels(pixels: Seq<Color>, w: int, h: int, cx: int, cy: int, color: Color) -> Seq<Color> {
    Seq::new(
        pixels.len(),
        |i: int|
            if w <= i32::MAX && h <= i32::MAX && in_cross(i % w, i / w, cx, cy) {
                color
            } else {
                pixels[i]
            },
    )
}

/// `DynamicImage::grayscale` on an RGBA image, back in RGBA. Claims: each
/// pixel becomes the gray of its luma, alpha kept (the `image` crate
/// computes luma as `(2126 r + 7152 g + 722 b) / 10000`, keeps alpha, and
/// turns luma and alpha back into RGBA by copying luma to the three colors).
#[verifier::external_body]
fn grayscale_pixels(width: u32, height: u32, pixels: &Vec<Color>) -> (r: Vec<Color>)
    requires
        pixels.len() == width * height,
        buffer_fits(width as int, height as int),
    ensures
        r@ == pixels@.map_values(|c: Color| gray_color(c)),
{
    let raw: Vec<u8> = pixels.iter().flat_map(|c| [c.r, c.g, c.b, c.a]).collect();
    let img = ::image::RgbaImage::from_raw(width, height, raw).unwrap();
    let out = ::image::DynamicImage::ImageRgba8(img).grayscale().into_rgba8();
    out.pixels().map(|p| Color::from(*p)).collect()
}

/// `DynamicImage::huerotate` on an RGBA image by `value` degrees. Claims:
/// one pixel out per pixel in, each with its alpha kept; equal pixels in
/// give equal pixels out (the crate computes each pixel from its own
/// channels with one matrix); and a rotation by 0 degrees changes nothing
/// (the crate's color matrix is then exactly the identity). The colors of other angles come from floating-point sines and
/// cosines, whose precision may vary by platform, and are left unsaid.
#[verifier::external_body]
fn hue_rotated_pixels(width: u32, height: u32, pixels: &Vec<Color>, value: i32) -> (r: Vec<Color>)
    requires
        pixels.len() == width * height,
        buffer_fits(width as int, height as int),
    ensures
        r.len() == pixels.len(),
        forall|i: int| 0 <= i < r.len() ==> r@[i].a == pixels@[i].a,
        value == 0 ==> r@ == pixels@,
        forall|i: int, j: int|
            0 <= i < r.len() && 0 <= j < r.len() && pixels@[i] == pixels@[j] ==> r@[i] == r@[j],
{
    let raw: Vec<u8> = pixels.iter().flat_map(|c| [c.r, c.g, c.b, c.a]).collect();
    let img = ::image::RgbaImage::from_raw(width, height, raw).unwrap();
    let out = ::image::DynamicImage::ImageRgba8(img).huerotate(value).into_rgba8();
    out.pixels().map(|p| Color::from(*p)).collect()
}

/// Sets the pixel at `(x, y)` of a `w`-wide image to `color`, when that
/// position lies inside the `w` by `h` image.
fn put_if_inside(pixels: &mut Vec<Color>, w: u32, h: u32, x: i64, y: i64, color: Color)
    requires
        old(pixels).len() == w * h,
    ensures
        final(pixels)@ == Seq::new(
            old(pixels)@.len(),
            |i: int|
                if i % (w as int) == x && i / (w as int) == y {
                    color
                } else {
                    old(pixels)@[i]
                },
        ),
{
    let ghost before = pixels@;
    if 0 <= x && x < w as i64 && 0 <= y && y < h as i64 {
        proof {
            lemma_cell(x as int, y as int, w as int, h as int);
        }
        let idx = (y as usize) * (w as usize) + (x as usize);
        pixels.set(idx, color);
        assert forall|i: int| 0 <= i < before.len() implies pixels@[i] == (if i % (w as int) == x && i
            / (w as int) == y {
            color
        } else {
            before[i]
        }) by {
            lemma_position(i, w as int, h as int);
        }
        assert(pixels@ =~= Seq::new(
            before.len(),
            |i: int|
                if i % (w as int) == x && i / (w as int) == y {
                    color
                } else {
                    before[i]
                },
        ));
    } else {
        assert forall|i: int| 0 <= i < before.len() implies #[trigger] before[i] == (if i % (
            w as int) == x && i / (w as int) == y {
            color
        } else {
            before[i]
        }) by {
            lemma_position(i, w as int, h as int);
        }
        assert(pixels@ =~= Seq::new(
            before.len(),
            |i: int|
                if i % (w as int) == x && i / (w as int) == y {
                    color
                } else {
                    before[i]
                },
        ));
    }
}

/// Checks that a region of `region_width` by `region_height` at
/// `(start_x, start_y)` lies inside a `width` by `height` image.
fn ensure_region_fits(
    width: u32,
    height: u32,
    start_x: u32,
    start_y: u32,
    region_width: u32,
    region_height: u32,
) -> (r: Result<(), ImageError>)
    ensures
        r == match region_error(
            width as int,
            height as int,
            start_x as int,
            start_y as int,
            region_width as int,
            region_height as int,
        ) {
            Some(e) => Err(e),
            None => Ok(()),
        },
{
    if region_width == 0 || region_height == 0 {
        return Err(ImageError::EmptyRegion);
    }
    let end_x = match start_x.checked_add(region_width) {
        Some(v) => v,
        None => return Err(ImageError::RegionTooWide),
    };
    let end_y = match start_y.checked_add(region_height) {
        Some(v) => v,
        None => return Err(ImageError::RegionTooTall),
    };
    if end_x > width || end_y > height {
        return Err(ImageError::RegionOutOfBounds);
    }
    Ok(())
}

impl Image {
    /// Whether a position lies inside this image.
    pub open spec fn inside(&self, p: Point) -> bool {
        0 <= p.x@ < self.w() && 0 <= p.y@ < self.h()
    }

    /// The error that copying `rect` out of this image meets: a corner
    /// outside the image, or a region that does not fit.
    pub open spec fn rect_error(&self, rect: Rect) -> Option<ImageError> {
        if !self.inside(rect.top_left) {
            Some(ImageError::InvalidPosition)
        } else {
            region_error(
                self.w(),
                self.h(),
                rect.left(),
                rect.top(),
                rect.size.width@,
                rect.size.height@,
            )
        }
    }

    /// An image made of the given pixels, row by row; `None` unless there is
    /// one pixel per cell and the bytes fit in memory.
    pub fn from_pixels(width: u32, height: u32, pixels: Vec<Color>) -> (r: Option<Image>)
        ensures
            r is Some <==> pixels.len() == width * height && buffer_fits(width as int, height as int),
            r matches Some(img) ==> img.w() == width && img.h() == height && img.pixels() == pixels@,
    {
        let w = width as u64;
        let h = height as u64;
        assert(w * h <= 0xffff_ffff_ffff_ffff && 4 * w * h <= 4 * 0xffff_ffff * 0xffff_ffffu128) by (nonlinear_arith)
            requires
                w <= 0xffff_ffff,
                h <= 0xffff_ffff,
        ;
        let bytes: u128 = 4 * (w as u128) * (h as u128);
        if bytes > isize::MAX as u128 || pixels.len() as u128 != (w as u128) * (h as u128) {
            return None;
        }
        Some(Image { width, height, pixels })
    }

    /// Whether every red, green and blue channel plus `value` fits in an
    /// `i32`, which `adjusted_brightness` needs.
    pub fn fits_brightening(&self, value: i32) -> (b: bool)
        ensures
            b == brightening_fits(self.pixels(), value),
    {
        let mut i: usize = 0;
        while i < self.pixels.len()
            invariant
                i <= self.pixels.len(),
                forall|k: int|
                    0 <= k < i ==> self.pixels@[k].r + value <= i32::MAX && self.pixels@[k].g
                        + value <= i32::MAX && self.pixels@[k].b + value <= i32::MAX,
            decreases self.pixels.len() - i,
        {
            let c = self.pixels[i];
            let limit = i32::MAX as i64 - value as i64;
            if c.r as i64 > limit || c.g as i64 > limit || c.b as i64 > limit {
                return false;
            }
            i = i + 1;
        }
        true
    }

    /// The pixels, row by row.
    pub fn as_pixels(&self) -> (p: &Vec<Color>)
        ensures
            p@ == self.pixels(),
            self.sized(),
            buffer_fits(self.w(), self.h()),
    {
        proof {
            use_type_invariant(self);
        }
        &self.pixels
    }

    /// Copies the `w` by `h` region at `(x, y)`, which lies inside the image.
    fn crop_region(&self, x: u32, y: u32, w: u32, h: u32) -> (img: Image)
        requires
            x + w <= self.w(),
            y + h <= self.h(),
        ensures
            img.w() == w,
            img.h() == h,
            img.sized(),
            img.pixels() == region(self.pixels(), self.w(), x as int, y as int, w as int, h as int),
    {
        proof {
            use_type_invariant(self);
            lemma_fits_smaller(self.w(), self.h(), w as int, h as int);
        }
        let iw = self.width as usize;
        let n: usize = (w as usize) * (h as usize);
        let mut out: Vec<Color> = Vec::new();
        let mut k: usize = 0;
        while k < n
            invariant
                k <= n,
                n == w * h,
                out.len() == k,
                iw == self.w(),
                self.pixels.len() == self.w() * self.h(),
                x + w <= self.w(),
                y + h <= self.h(),
                forall|t: int|
                    0 <= t < k ==> out@[t] == self.pixels@[cell(
                        x + t % (w as int),
                        y + t / (w as int),
                        iw as int,
                    )],
            decreases n - k,
        {
            proof {
                lemma_position(k as int, w as int, h as int);
            }
            let col = k % (w as usize);
            let row = k / (w as usize);
            proof {
                lemma_cell(x + col, y + row, self.w(), self.h());
                assert((y + row) * iw <= cell(x + col, y + row, iw as int));
            }
            let idx = (y as usize + row) * iw + (x as usize + col);
            out.push(self.pixels[idx]);
            k = k + 1;
        }
        assert(out@ =~= region(self.pixels@, iw as int, x as int, y as int, w as int, h as int));
        Image { width: w, height: h, pixels: out }
    }

    /// The part of this image inside `rect`: the rectangle is first clamped to
    /// non-negative coordinates, then to the image.
    pub fn cropped(&self, rect: Rect) -> (img: Image)
        ensures
            ({
                let (x, y, w, h) = clamped_rect(rect);
                let (cx, cy, cw, ch) = crop_bounds(self.w(), self.h(), x, y, w, h);
                &&& img.w() == cw
                &&& img.h() == ch
                &&& img.pixels() == region(self.pixels(), self.w(), cx, cy, cw, ch)
            }),
            img.sized(),
    {
        let (x, y, w, h) = rect.clamped();
        let cx = if x < self.width { x } else { self.width };
        let cy = if y < self.height { y } else { self.height };
        let cw = if w < self.width - cx { w } else { self.width - cx };
        let ch = if h < self.height - cy { h } else { self.height - cy };
        self.crop_region(cx, cy, cw, ch)
    }

    /// Keeps only the part of this image inside `rect`, clamped as in
    /// `cropped`.
    pub fn crop_mut(&mut self, rect: Rect)
        ensures
            ({
                let (x, y, w, h) = clamped_rect(rect);
                let (cx, cy, cw, ch) = crop_bounds(old(self).w(), old(self).h(), x, y, w, h);
                &&& final(self).w() == cw
                &&& final(self).h() == ch
                &&& final(self).pixels() == region(old(self).pixels(), old(self).w(), cx, cy, cw, ch)
            }),
    {
        *self = self.cropped(rect);
    }

    /// The coordinates of a position inside this image.
    fn check_position(&self, position: Point) -> (r: Result<(u32, u32), ImageError>)
        ensures
            self.inside(position) <==> r is Ok,
            r matches Ok(p) ==> p.0 == position.x@ && p.1 == position.y@,
            r matches Err(e) ==> e == ImageError::InvalidPosition,
    {
        let x = position.x.value;
        let y = position.y.value;
        if x < 0 || y < 0 {
            return Err(ImageError::InvalidPosition);
        }
        let ux = x as u32;
        let uy = y as u32;
        if ux >= self.width || uy >= self.height {
            Err(ImageError::InvalidPosition)
        } else {
            Ok((ux, uy))
        }
    }

    /// The color of the pixel at `position`.
    pub fn get_pixel_color(&self, position: Point) -> (r: Result<Color, ImageError>)
        ensures
            self.inside(position) <==> r is Ok,
            r matches Ok(c) ==> c == self.pixel_at(position.x@, position.y@),
            r matches Err(e) ==> e == ImageError::InvalidPosition,
    {
        proof {
            use_type_invariant(self);
        }
        match self.check_position(position) {
            Ok((x, y)) => {
                proof {
                    lemma_cell(x as int, y as int, self.w(), self.h());
                }
                let idx = (y as usize) * (self.width as usize) + (x as usize);
                Ok(self.pixels[idx])
            },
            Err(e) => Err(e),
        }
    }

    /// Sets the color of the pixel at `position`.
    pub fn set_pixel_color(&mut self, position: Point, color: Color) -> (r: Result<(), ImageError>)
        ensures
            old(self).inside(position) <==> r is Ok,
            final(self).w() == old(self).w(),
            final(self).h() == old(self).h(),
            r is Ok ==> final(self).pixels() == old(self).pixels().update(
                cell(position.x@, position.y@, old(self).w()),
                color,
            ),
            r matches Err(e) ==> e == ImageError::InvalidPosition && final(self).pixels() == old(
                self,
            ).pixels(),
    {
        proof {
            use_type_invariant(&*self);
        }
        match self.check_position(position) {
            Ok((x, y)) => {
                proof {
                    lemma_cell(x as int, y as int, self.w(), self.h());
                }
                let idx = (y as usize) * (self.width as usize) + (x as usize);
                let mut pixels = self.pixels.clone();
                pixels.set(idx, color);
                *self = Image { width: self.width, height: self.height, pixels };
                Ok(())
            },
            Err(e) => Err(e),
        }
    }

    /// The corner and size of `rect` once checked against this image.
    fn check_rect(&self, rect: &Rect) -> (r: Result<(u32, u32, u32, u32), ImageError>)
        ensures
            match self.rect_error(*rect) {
                Some(e) => r == Err::<(u32, u32, u32, u32), ImageError>(e),
                None => r == Ok::<(u32, u32, u32, u32), ImageError>(
                    (
                        rect.left() as u32,
                        rect.top() as u32,
                        rect.size.width@ as u32,
                        rect.size.height@ as u32,
                    ),
                ),
            },
    {
        let (x, y) = match self.check_position(rect.top_left) {
            Ok(p) => p,
            Err(e) => return Err(e),
        };
        let rect_width = rect.size.width.value;
        let rect_height = rect.size.height.value;
        match ensure_region_fits(self.width, self.height, x, y, rect_width, rect_height) {
            Ok(()) => Ok((x, y, rect_width, rect_height)),
            Err(e) => Err(e),
        }
    }

    /// A new image made of the part of this image inside `rect`, which must
    /// start inside the image, be non-empty and fit in it.
    pub fn copy_region(&self, rect: Rect) -> (r: Result<Image, ImageError>)
        ensures
            match self.rect_error(rect) {
                Some(e) => r == Err::<Image, ImageError>(e),
                None => r matches Ok(img) && img.w() == rect.size.width@ && img.h()
                    == rect.size.height@ && img.pixels() == region(
                    self.pixels(),
                    self.w(),
                    rect.left(),
                    rect.top(),
                    rect.size.width@,
                    rect.size.height@,
                ),
            },
    {
        match self.check_rect(&rect) {
            Ok((x, y, w, h)) => Ok(self.crop_region(x, y, w, h)),
            Err(e) => Err(e),
        }
    }

    /// The rectangle covering this image, with its corner at the origin.
    pub fn bounds_rect(&self) -> (r: Rect)
        ensures
            r.left() == 0,
            r.top() == 0,
            r.size.width@ == self.w(),
            r.size.height@ == self.h(),
    {
        Rect::new(point(0, 0), size(self.width, self.height))
    }

    /// The size of this image.
    pub fn size(&self) -> (s: Size)
        ensures
            s.width@ == self.w(),
            s.height@ == self.h(),
    {
        size(self.width, self.height)
    }

    /// A copy of this image with a cross of `color` drawn centered on
    /// `position`: the center and its four neighbours, where they fall inside
    /// the image.
    pub fn with_cross(&self, position: Point, color: Color) -> (img: Image)
        ensures
            img.w() == self.w(),
            img.h() == self.h(),
            img.pixels() == cross_pixels(
                self.pixels(),
                self.w(),
                self.h(),
                position.x@,
                position.y@,
                color,
            ),
    {
        proof {
            use_type_invariant(self);
        }
        let w = self.width;
        let h = self.height;
        let mut pixels = self.pixels.clone();
        let ghost before = pixels@;
        if w <= 0x7fff_ffff && h <= 0x7fff_ffff {
            let cx = position.x.value as i64;
            let cy = position.y.value as i64;
            let ghost p0 = pixels@;
            put_if_inside(&mut pixels, w, h, cx, cy - 1, color);
            let ghost p1 = pixels@;
            put_if_inside(&mut pixels, w, h, cx - 1, cy, color);
            let ghost p2 = pixels@;
            put_if_inside(&mut pixels, w, h, cx, cy, color);
            let ghost p3 = pixels@;
            put_if_inside(&mut pixels, w, h, cx + 1, cy, color);
            let ghost p4 = pixels@;
            put_if_inside(&mut pixels, w, h, cx, cy + 1, color);
            assert forall|i: int| 0 <= i < before.len() implies pixels@[i] == (if in_cross(
                i % (w as int),
                i / (w as int),
                cx as int,
                cy as int,
            ) {
                color
            } else {
                before[i]
            }) by {
                assert(p1[i] == if i % (w as int) == cx && i / (w as int) == cy - 1 { color } else { p0[i] });
            }
            assert(pixels@ =~= cross_pixels(before, w as int, h as int, cx as int, cy as int, color));
        } else {
            assert(pixels@ =~= cross_pixels(
                before,
                w as int,
                h as int,
                position.x@,
                position.y@,
                color,
            ));
        }
        Image { width: w, height: h, pixels }
    }

    /// Draws a cross of `color` centered on `position`, as `with_cross` does.
    pub fn draw_cross_mut(&mut self, position: Point, color: Color)
        ensures
            final(self).w() == old(self).w(),
            final(self).h() == old(self).h(),
            final(self).pixels() == cross_pixels(
                old(self).pixels(),
                old(self).w(),
                old(self).h(),
                position.x@,
                position.y@,
                color,
            ),
    {
        *self = self.with_cross(position, color);
    }

    /// This image in gray: each pixel takes the gray of its luma, alpha kept.
    pub fn grayscaled(&self) -> (img: Image)
        ensures
            img.w() == self.w(),
            img.h() == self.h(),
            img.pixels() == self.pixels().map_values(|c: Color| gray_color(c)),
    {
        proof {
            use_type_invariant(self);
        }
        let pixels = grayscale_pixels(self.width, self.height, &self.pixels);
        Image { width: self.width, height: self.height, pixels }
    }

    /// Turns this image gray, as `grayscaled` does.
    pub fn grayscale_mut(&mut self)
        ensures
            final(self).w() == old(self).w(),
            final(self).h() == old(self).h(),
            final(self).pixels() == old(self).pixels().map_values(|c: Color| gray_color(c)),
    {
        *self = self.grayscaled();
    }

    /// This image with its hues rotated by `value` degrees, alpha kept; 0
    /// degrees keeps the image.
    pub fn hue_rotated(&self, value: i32) -> (img: Image)
        ensures
            img.w() == self.w(),
            img.h() == self.h(),
            img.pixels().len() == self.pixels().len(),
            forall|i: int| 0 <= i < img.pixels().len() ==> img.pixels()[i].a == self.pixels()[i].a,
            value == 0 ==> img.pixels() == self.pixels(),
            forall|i: int, j: int|
                0 <= i < img.pixels().len() && 0 <= j < img.pixels().len() && self.pixels()[i]
                    == self.pixels()[j] ==> img.pixels()[i] == img.pixels()[j],
    {
        proof {
            use_type_invariant(self);
        }
        let pixels = hue_rotated_pixels(self.width, self.height, &self.pixels, value);
        Image { width: self.width, height: self.height, pixels }
    }

    /// Rotates the hues of this image by `value` degrees, as `hue_rotated`
    /// does.
    pub fn hue_rotate_mut(&mut self, value: i32)
        ensures
            final(self).w() == old(self).w(),
            final(self).h() == old(self).h(),
            final(self).pixels().len() == old(self).pixels().len(),
            forall|i: int|
                0 <= i < final(self).pixels().len() ==> final(self).pixels()[i].a == old(
                    self,
                ).pixels()[i].a,
            value == 0 ==> final(self).pixels() == old(self).pixels(),
            forall|i: int, j: int|
                0 <= i < final(self).pixels().len() && 0 <= j < final(self).pixels().len()
                    && old(self).pixels()[i] == old(self).pixels()[j]
                    ==> final(self).pixels()[i] == final(self).pixels()[j],
    {
        *self = self.hue_rotated(value);
    }
}

/// Whether drawing a rectangle with these options onto a `w` by `h` image
/// stays within what `imageproc` handles: sides that fit an `i32`; a box
/// that fits `i32` coordinates (with room for the outline's line drawing);
/// and, for a filled box, a non-empty image.
pub open spec fn rectangle_drawable(w: int, h: int, rect: Rect, options: DrawingOptions) -> bool {
    &&& canvas_fits(w, h)
    &&& (rect.size.width@ > 0 && rect.size.height@ > 0) ==> if options.hollow {
        outline_fits(rect.left(), rect.top(), rect.size.width@, rect.size.height@)
    } else {
        shape_box_fits(rect.left(), rect.top(), rect.size.width@, rect.size.height@) && w > 0 && h
            > 0
    }
}

/// The pixels after drawing `rect` in `color`: its cells inside the image
/// when filled; when hollow, its outline, as long as its edges are held
/// exactly by an `f32` (otherwise only the number of pixels is known).
pub open spec fn rectangle_drawn(
    pixels: Seq<Color>,
    w: int,
    rect: Rect,
    color: Color,
    options: DrawingOptions,
    out: Seq<Color>,
) -> bool {
    let (l, t, rw, rh) = (rect.left(), rect.top(), rect.size.width@, rect.size.height@);
    if options.hollow {
        &&& out.len() == pixels.len()
        &&& exact_in_f32(l) && exact_in_f32(t) && exact_in_f32(l + rw - 1) && exact_in_f32(t + rh - 1)
            ==> out == outlined_box_pixels(pixels, w, l, t, rw, rh, color)
    } else {
        out == filled_box_pixels(pixels, w, l, t, rw, rh, color)
    }
}

/// The pixels drawn over an image, and their width and height: the part of
/// `image` inside the source rectangle, or the whole of it.
pub open spec fn draw_source(image: Image, options: DrawImageOptions) -> (Seq<Color>, int, int) {
    match options.source_rect {
        Some(rect) => (
            region(
                image.pixels(),
                image.w(),
                rect.left(),
                rect.top(),
                rect.size.width@,
                rect.size.height@,
            ),
            rect.size.width@,
            rect.size.height@,
        ),
        None => (image.pixels(), image.w(), image.h()),
    }
}

/// The pixels after drawing a circle, filled or hollow.
pub open spec fn circle_drawn(
    pixels: Seq<Color>,
    w: int,
    h: int,
    center: Point,
    radius: i32,
    color: Color,
    options: DrawingOptions,
) -> Seq<Color> {
    if options.hollow {
        hollow_circle_pixels(pixels, w as u32, h as u32, center.x.value, center.y.value, radius, color)
    } else {
        filled_circle_pixels(pixels, w as u32, h as u32, center.x.value, center.y.value, radius, color)
    }
}

/// What drawing a line of `color` from `start` to `end` leaves of the pixels
/// `before` of a `w` by `h` image: the pixels `imageproc` draws
/// (`line_pixels`), each kept or set to `color`; and, for ends held exactly
/// by an `f32`, the end the line starts from takes `color` when it lies in
/// the image.
pub open spec fn line_drawn(
    before: Seq<Color>,
    after: Seq<Color>,
    w: int,
    h: int,
    start: Point,
    end: Point,
    color: Color,
) -> bool {
    &&& after == line_pixels(before, w as u32, h as u32, start.x.value, start.y.value, end.x.value, end.y.value, color)
    &&& after.len() == before.len()
    &&& forall|i: int| 0 <= i < after.len() ==> after[i] == before[i] || after[i] == color
    &&& line_exact(start.x@, start.y@, end.x@, end.y@) ==> {
        let p = line_first_end(start.x@, start.y@, end.x@, end.y@);
        0 <= p.0 < w && 0 <= p.1 < h ==> after[p.1 * w + p.0] == color
    }
}

/// Whether `after` can be what drawing an ellipse, filled or hollow, leaves
/// of the pixels `before` of a `w` by `h` image (see `ellipse_outcome`).
pub open spec fn ellipse_drawn(
    before: Seq<Color>,
    after: Seq<Color>,
    w: int,
    h: int,
    center: Point,
    width_radius: i32,
    height_radius: i32,
    color: Color,
    options: DrawingOptions,
) -> bool {
    ellipse_outcome(
        before,
        after,
        w as u32,
        h as u32,
        center.x.value,
        center.y.value,
        width_radius,
        height_radius,
        color,
        options.hollow,
    )
}

impl Image {
    /// A copy of this image with `rect` drawn in `color`, filled or as an
    /// outline. A rectangle with no width or no height cannot be drawn.
    pub fn with_rectangle(&self, rect: Rect, color: Color, options: DrawingOptions) -> (r: Result<
        Image,
        ImageError,
    >)
        requires
            rectangle_drawable(self.w(), self.h(), rect, options),
        ensures
            r is Err <==> (rect.size.width@ == 0 || rect.size.height@ == 0),
            r matches Err(e) ==> e == ImageError::EmptyRegion,
            r matches Ok(img) ==> img.w() == self.w() && img.h() == self.h() && rectangle_drawn(
                self.pixels(),
                self.w(),
                rect,
                color,
                options,
                img.pixels(),
            ),
    {
        proof {
            use_type_invariant(self);
        }
        let w = rect.size.width.value;
        let h = rect.size.height.value;
        if w == 0 || h == 0 {
            return Err(ImageError::EmptyRegion);
        }
        let left = rect.top_left.x.value;
        let top = rect.top_left.y.value;
        let pixels = if options.hollow {
            outline_box(self.width, self.height, &self.pixels, left, top, w, h, color)
        } else {
            fill_box(self.width, self.height, &self.pixels, left, top, w, h, color)
        };
        Ok(Image { width: self.width, height: self.height, pixels })
    }

    /// Draws `rect` in `color`, filled or as an outline, as `with_rectangle`
    /// does; the image is left as it was when the rectangle is empty.
    pub fn draw_rectangle_mut(&mut self, rect: Rect, color: Color, options: DrawingOptions) -> (r:
        Result<(), ImageError>)
        requires
            rectangle_drawable(old(self).w(), old(self).h(), rect, options),
        ensures
            r is Err <==> (rect.size.width@ == 0 || rect.size.height@ == 0),
            r matches Err(e) ==> e == ImageError::EmptyRegion && final(self).w() == old(self).w()
                && final(self).h() == old(self).h() && final(self).pixels() == old(self).pixels(),
            r is Ok ==> final(self).w() == old(self).w() && final(self).h() == old(self).h()
                && rectangle_drawn(
                old(self).pixels(),
                old(self).w(),
                rect,
                color,
                options,
                final(self).pixels(),
            ),
    {
        match self.with_rectangle(rect, color, options) {
            Ok(img) => {
                *self = img;
                Ok(())
            },
            Err(e) => Err(e),
        }
    }

    /// A copy of this image with a circle of `color` centered on `center`,
    /// filled or as an outline.
    pub fn with_circle(&self, center: Point, radius: i32, color: Color, options: DrawingOptions) -> (img:
        Image)
        requires
            canvas_fits(self.w(), self.h()),
            circle_fits(center.x@, center.y@, radius as int),
        ensures
            img.w() == self.w(),
            img.h() == self.h(),
            img.pixels() == circle_drawn(self.pixels(), self.w(), self.h(), center, radius, color, options),
    {
        proof {
            use_type_invariant(self);
        }
        let cx = center.x.value;
        let cy = center.y.value;
        let pixels = if options.hollow {
            outline_circle(self.width, self.height, &self.pixels, cx, cy, radius, color)
        } else {
            fill_circle(self.width, self.height, &self.pixels, cx, cy, radius, color)
        };
        Image { width: self.width, height: self.height, pixels }
    }

    /// Draws a circle of `color` centered on `center`, as `with_circle` does.
    pub fn draw_circle_mut(&mut self, center: Point, radius: i32, color: Color, options: DrawingOptions)
        requires
            canvas_fits(old(self).w(), old(self).h()),
            circle_fits(center.x@, center.y@, radius as int),
        ensures
            final(self).w() == old(self).w(),
            final(self).h() == old(self).h(),
            final(self).pixels() == circle_drawn(
                old(self).pixels(),
                old(self).w(),
                old(self).h(),
                center,
                radius,
                color,
                options,
            ),
    {
        *self = self.with_circle(center, radius, color, options);
    }

    /// A copy of this image with a line of `color` from `start` to `end`.
    pub fn with_line(&self, start: Point, end: Point, color: Color) -> (img: Image)
        requires
            canvas_fits(self.w(), self.h()),
            line_fits(start.x@, start.y@, end.x@, end.y@),
        ensures
            img.w() == self.w(),
            img.h() == self.h(),
            line_drawn(self.pixels(), img.pixels(), self.w(), self.h(), start, end, color),
    {
        proof {
            use_type_invariant(self);
        }
        let pixels = line_segment(
            self.width,
            self.height,
            &self.pixels,
            start.x.value,
            start.y.value,
            end.x.value,
            end.y.value,
            color,
        );
        Image { width: self.width, height: self.height, pixels }
    }

    /// Draws a line of `color` from `start` to `end`, as `with_line` does.
    pub fn draw_line_mut(&mut self, start: Point, end: Point, color: Color)
        requires
            canvas_fits(old(self).w(), old(self).h()),
            line_fits(start.x@, start.y@, end.x@, end.y@),
        ensures
            final(self).w() == old(self).w(),
            final(self).h() == old(self).h(),
            line_drawn(old(self).pixels(), final(self).pixels(), old(self).w(), old(self).h(), start, end, color),
    {
        *self = self.with_line(start, end, color);
    }

    /// A copy of this image with an ellipse of `color` centered on `center`,
    /// filled or as an outline.
    pub fn with_ellipse(
        &self,
        center: Point,
        width_radius: i32,
        height_radius: i32,
        color: Color,
        options: DrawingOptions,
    ) -> (img: Image)
        requires
            canvas_fits(self.w(), self.h()),
            ellipse_fits(center.x@, center.y@, width_radius as int, height_radius as int),
        ensures
            img.w() == self.w(),
            img.h() == self.h(),
            ellipse_drawn(
                self.pixels(),
                img.pixels(),
                self.w(),
                self.h(),
                center,
                width_radius,
                height_radius,
                color,
                options,
            ),
    {
        proof {
            use_type_invariant(self);
        }
        let cx = center.x.value;
        let cy = center.y.value;
        let pixels = if options.hollow {
            outline_ellipse(
                self.width,
                self.height,
                &self.pixels,
                cx,
                cy,
                width_radius,
                height_radius,
                color,
            )
        } else {
            fill_ellipse(self.width, self.height, &self.pixels, cx, cy, width_radius, height_radius, color)
        };
        Image { width: self.width, height: self.height, pixels }
    }

    /// Draws an ellipse of `color` centered on `center`, as `with_ellipse`
    /// does.
    pub fn draw_ellipse_mut(
        &mut self,
        center: Point,
        width_radius: i32,
        height_radius: i32,
        color: Color,
        options: DrawingOptions,
    )
        requires
            canvas_fits(old(self).w(), old(self).h()),
            ellipse_fits(center.x@, center.y@, width_radius as int, height_radius as int),
        ensures
            final(self).w() == old(self).w(),
            final(self).h() == old(self).h(),
            ellipse_drawn(
                old(self).pixels(),
                final(self).pixels(),
                old(self).w(),
                old(self).h(),
                center,
                width_radius,
                height_radius,
                color,
                options,
            ),
    {
        *self = self.with_ellipse(center, width_radius, height_radius, color, options);
    }

    /// The error that drawing `image` at `position` meets, checked in this
    /// order: a position outside this image; a source rectangle that
    /// `copy_region` refuses; a drawn region that leaves this image.
    pub open spec fn draw_image_error(
        &self,
        position: Point,
        image: Image,
        options: DrawImageOptions,
    ) -> Option<ImageError> {
        if !self.inside(position) {
            Some(ImageError::InvalidPosition)
        } else {
            match options.source_rect {
                Some(rect) => match image.rect_error(rect) {
                    Some(e) => Some(e),
                    None => region_error(
                        self.w(),
                        self.h(),
                        position.x@,
                        position.y@,
                        rect.size.width@,
                        rect.size.height@,
                    ),
                },
                None => region_error(self.w(), self.h(), position.x@, position.y@, image.w(), image.h()),
            }
        }
    }

    /// The pixels of this image once `image`, or its source rectangle, is
    /// laid over it with its corner at `position`.
    pub open spec fn image_drawn(&self, position: Point, image: Image, options: DrawImageOptions) -> Seq<
        Color,
    > {
        let (top, tw, th) = draw_source(image, options);
        overlaid(self.pixels(), self.w(), top, tw, th, position.x@, position.y@)
    }

    /// A copy of this image with `image` (or the part of it inside the
    /// source rectangle) laid over it, corner at `position`.
    pub fn with_image(&self, position: Point, image: &Image, options: DrawImageOptions) -> (r: Result<
        Image,
        ImageError,
    >)
        ensures
            match self.draw_image_error(position, *image, options) {
                Some(e) => r == Err::<Image, ImageError>(e),
                None => r matches Ok(img) && img.w() == self.w() && img.h() == self.h() && img.pixels()
                    == self.image_drawn(position, *image, options) && keeps_blend_extremes(
                    self.pixels(),
                    self.w(),
                    draw_source(*image, options).0,
                    draw_source(*image, options).1,
                    draw_source(*image, options).2,
                    position.x@,
                    position.y@,
                    img.pixels(),
                ),
            },
    {
        proof {
            use_type_invariant(self);
        }
        let (x, y) = match self.check_position(position) {
            Ok(p) => p,
            Err(e) => return Err(e),
        };
        let source = match options.source_rect {
            Some(rect) => match image.copy_region(rect) {
                Ok(img) => img,
                Err(e) => return Err(e),
            },
            None => image.duplicate(),
        };
        proof {
            use_type_invariant(&source);
        }
        match ensure_region_fits(self.width, self.height, x, y, source.width, source.height) {
            Ok(()) => {},
            Err(e) => return Err(e),
        }
        let pixels = overlay_box(
            self.width,
            self.height,
            &self.pixels,
            source.width,
            source.height,
            &source.pixels,
            x,
            y,
        );
        Ok(Image { width: self.width, height: self.height, pixels })
    }

    /// Lays `image` (or the part of it inside the source rectangle) over this
    /// image, corner at `position`, as `with_image` does; the image is left
    /// as it was on an error.
    pub fn draw_image_mut(&mut self, position: Point, image: &Image, options: DrawImageOptions) -> (r:
        Result<(), ImageError>)
        ensures
            final(self).w() == old(self).w(),
            final(self).h() == old(self).h(),
            match old(self).draw_image_error(position, *image, options) {
                Some(e) => r == Err::<(), ImageError>(e) && final(self).pixels() == old(self).pixels(),
                None => r is Ok && final(self).pixels() == old(self).image_drawn(
                    position,
                    *image,
                    options,
                ) && keeps_blend_extremes(
                    old(self).pixels(),
                    old(self).w(),
                    draw_source(*image, options).0,
                    draw_source(*image, options).1,
                    draw_source(*image, options).2,
                    position.x@,
                    position.y@,
                    final(self).pixels(),
                ),
            },
    {
        match self.with_image(position, image, options) {
            Ok(img) => {
                *self = img;
                Ok(())
            },
            Err(e) => Err(e),
        }
    }
}

} // verus!
