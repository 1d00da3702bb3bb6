//! Shapes drawn onto the pixels of an RGBA image, and one image laid over
//! another. The pixels are drawn by `imageproc` and `image`; this module
//! states what each call does to them.

use image::imageops::overlay;
use image::{Rgba, RgbaImage};
use imageproc::drawing::{
    draw_filled_circle_mut, draw_filled_ellipse_mut, draw_filled_rect_mut,
    draw_hollow_circle_mut, draw_hollow_ellipse_mut, draw_hollow_rect_mut, draw_line_segment_mut,
};
use imageproc::rect::Rect as ShapeRect;
use vstd::prelude::*;

use crate::color::Color;
use crate::raster::{buffer_fits, cell};

verus! {

/// Whether cell `(x, y)` lies in the `w` by `h` box whose top-left cell is
/// `(left, top)`.
pub open spec fn in_box(x: int, y: int, left: int, top: int, w: int, h: int) -> bool {
    left <= x < left + w && top <= y < top + h
}

/// Whether cell `(x, y)` lies on the outline of that box: its first or last
/// column or row.
pub open spec fn on_outline(x: int, y: int, left: int, top: int, w: int, h: int) -> bool {
    &&& in_box(x, y, left, top, w, h)
    &&& (x == left || x == left + w - 1 || y == top || y == top + h - 1)
}

/// The pixels of an image `iw` wide once the cells of a box take `color`.
pub open spec fn filled_box_pixels(
    pixels: Seq<Color>,
    iw: int,
    left: int,
    top: int,
    w: int,
    h: int,
    color: Color,
) -> Seq<Color> {
    Seq::new(
        pixels.len(),
        |i: int|
            if in_box(i % iw, i / iw, left, top, w, h) {
                color
            } else {
                pixels[i]
            },
    )
}

/// The pixels of an image `iw` wide once the outline of a box takes `color`.
pub open spec fn outlined_box_pixels(
    pixels: Seq<Color>,
    iw: int,
    left: int,
    top: int,
    w: int,
    h: int,
    color: Color,
) -> Seq<Color> {
    Seq::new(
        pixels.len(),
        |i: int|
            if on_outline(i % iw, i / iw, left, top, w, h) {
                color
            } else {
                pixels[i]
            },
    )
}

/// Whether an integer is held exactly by an `f32`, as the outline of a box
/// is drawn through `f32` coordinates.
pub open spec fn exact_in_f32(v: int) -> bool {
    -0x100_0000 <= v <= 0x100_0000
}

/// Whether a box fits the `i32` coordinates of `imageproc`: a non-empty
/// size, and a left edge plus width and a top edge plus height that fit an
/// `i32` (the crate finds the last column and row as `left + width - 1`).
pub open spec fn shape_box_fits(left: int, top: int, w: int, h: int) -> bool {
    &&& 0 < w <= i32::MAX
    &&& 0 < h <= i32::MAX
    &&& left + w <= i32::MAX
    &&& top + h <= i32::MAX
}

/// Whether the outline of a box keeps `imageproc`'s line drawing clear of
/// `i32` overflow: a line steps one cell past its last one, whose
/// coordinate goes through an `f32` and may round up by as much as 128.
pub open spec fn outline_fits(left: int, top: int, w: int, h: int) -> bool {
    &&& shape_box_fits(left, top, w, h)
    &&& left + w - 1 <= i32::MAX - 0x100
    &&& top + h - 1 <= i32::MAX - 0x100
}

/// Whether the sides of an image fit the `i32` coordinates of `imageproc`.
pub open spec fn canvas_fits(width: int, height: int) -> bool {
    width <= i32::MAX && height <= i32::MAX
}

/// Whether a circle keeps `imageproc`'s drawing loop clear of `i32`
/// overflow: a radius below `2^30`, and a center at least a radius plus 256
/// away from the ends of the `i32` range (the rows of a filled circle are
/// lines, drawn as an outline's are).
pub open spec fn circle_fits(cx: int, cy: int, radius: int) -> bool {
    &&& -0x4000_0000 < radius < 0x4000_0000
    &&& radius >= 0 ==> (i32::MIN + 0x100 <= cx - radius && cx + radius <= i32::MAX - 0x100
        && i32::MIN + 0x100 <= cy - radius && cy + radius <= i32::MAX - 0x100)
}

/// Whether an ellipse keeps `imageproc`'s drawing loop clear of `i32`
/// overflow: radii whose squares, and the square of one more, fit an `i32`,
/// and a center at least `2^16` away from the ends of the `i32` range, more
/// than a radius, the one cell the loop may step past it, and the rounding
/// of a filled ellipse's rows (drawn as lines through `f32` coordinates).
pub open spec fn ellipse_fits(cx: int, cy: int, width_radius: int, height_radius: int) -> bool {
    &&& -46339 <= width_radius <= 46339
    &&& -46339 <= height_radius <= 46339
    &&& i32::MIN + 0x1_0000 <= cx <= i32::MAX - 0x1_0000
    &&& i32::MIN + 0x1_0000 <= cy <= i32::MAX - 0x1_0000
}

/// What `imageproc::drawing::draw_filled_circle_mut` leaves in the pixels of
/// a `width` by `height` RGBA image.
pub uninterp spec fn filled_circle_pixels(
    pixels: Seq<Color>,
    width: u32,
    height: u32,
    cx: i32,
    cy: i32,
    radius: i32,
    color: Color,
) -> Seq<Color>;

/// What `imageproc::drawing::draw_hollow_circle_mut` leaves in the pixels of
/// a `width` by `height` RGBA image.
pub uninterp spec fn hollow_circle_pixels(
    pixels: Seq<Color>,
    width: u32,
    height: u32,
    cx: i32,
    cy: i32,
    radius: i32,
    color: Color,
) -> Seq<Color>;

/// What holds of the pixels that `imageproc`'s ellipse drawing leaves in a
/// `width` by `height` RGBA image, whatever its floating-point steps give:
/// one pixel out per pixel in, each either kept or set to `color`; an
/// ellipse with equal radii is the circle of that radius; and the outline of
/// any other takes `color` at its top and bottom points, where they lie in
/// the image.
pub open spec fn ellipse_outcome(
    before: Seq<Color>,
    after: Seq<Color>,
    width: u32,
    height: u32,
    cx: i32,
    cy: i32,
    width_radius: i32,
    height_radius: i32,
    color: Color,
    hollow: bool,
) -> bool {
    &&& after.len() == before.len()
    &&& forall|i: int| 0 <= i < after.len() ==> after[i] == before[i] || after[i] == color
    &&& width_radius == height_radius ==> after == if hollow {
        hollow_circle_pixels(before, width, height, cx, cy, width_radius, color)
    } else {
        filled_circle_pixels(before, width, height, cx, cy, width_radius, color)
    }
    &&& hollow && width_radius != height_radius ==> {
        &&& 0 <= cx < width && 0 <= cy + height_radius < height ==> after[(cy + height_radius)
            * width + cx] == color
        &&& 0 <= cx < width && 0 <= cy - height_radius < height ==> after[(cy - height_radius)
            * width + cx] == color
    }
}

/// Whether the ends of a line keep `imageproc`'s line drawing clear of
/// `i32` overflow: its steps go one past the last cell, whose coordinate goes
/// through an `f32` and may round up by as much as 128.
pub open spec fn line_fits(x0: int, y0: int, x1: int, y1: int) -> bool {
    &&& i32::MIN + 0x100 <= x0 <= i32::MAX - 0x100
    &&& i32::MIN + 0x100 <= y0 <= i32::MAX - 0x100
    &&& i32::MIN + 0x100 <= x1 <= i32::MAX - 0x100
    &&& i32::MIN + 0x100 <= y1 <= i32::MAX - 0x100
}

/// Whether the ends of a line are small enough that the `f32` coordinates
/// and their differences are exact.
pub open spec fn line_exact(x0: int, y0: int, x1: int, y1: int) -> bool {
    &&& -0x80_0000 <= x0 <= 0x80_0000
    &&& -0x80_0000 <= y0 <= 0x80_0000
    &&& -0x80_0000 <= x1 <= 0x80_0000
    &&& -0x80_0000 <= y1 <= 0x80_0000
}

/// The end of a line that `imageproc` draws first: the one with the smaller
/// coordinate along the line's longer direction (the start on a tie).
pub open spec fn line_first_end(x0: int, y0: int, x1: int, y1: int) -> (int, int) {
    let dx = if x1 >= x0 { x1 - x0 } else { x0 - x1 };
    let dy = if y1 >= y0 { y1 - y0 } else { y0 - y1 };
    if dy > dx {
        if y0 > y1 { (x1, y1) } else { (x0, y0) }
    } else {
        if x0 > x1 { (x1, y1) } else { (x0, y0) }
    }
}

/// What `imageproc::drawing::draw_line_segment_mut` leaves in the pixels of
/// a `width` by `height` RGBA image, for a line between two points.
pub uninterp spec fn line_pixels(
    pixels: Seq<Color>,
    width: u32,
    height: u32,
    x0: i32,
    y0: i32,
    x1: i32,
    y1: i32,
    color: Color,
) -> Seq<Color>;

/// The color that `image`'s `Blend::blend` gives when `top` is laid over
/// `bottom`, both RGBA with 8-bit channels.
pub uninterp spec fn rgba_blend(bottom: Color, top: Color) -> Color;

/// The pixels of an image `iw` wide once the `tw` by `th` image `top` is laid
/// over it with its corner at `(x, y)`: each covered pixel becomes the blend
/// of the top pixel over it.
pub open spec fn overlaid(
    pixels: Seq<Color>,
    iw: int,
    top: Seq<Color>,
    tw: int,
    th: int,
    x: int,
    y: int,
) -> Seq<Color> {
    Seq::new(
        pixels.len(),
        |i: int|
            if in_box(i % iw, i / iw, x, y, tw, th) {
                rgba_blend(pixels[i], top[cell(i % iw - x, i / iw - y, tw)])
            } else {
                pixels[i]
            },
    )
}

/// Whether `out`, the pixels of an image `iw` wide once the `tw` by `th`
/// image `top` is laid over them with its corner at `(x, y)`, keeps a pixel
/// below a fully transparent top pixel and takes a fully opaque one.
pub open spec fn keeps_blend_extremes(
    pixels: Seq<Color>,
    iw: int,
    top: Seq<Color>,
    tw: int,
    th: int,
    x: int,
    y: int,
    out: Seq<Color>,
) -> bool {
    forall|i: int|
        #![trigger out[i]]
        0 <= i < out.len() && in_box(i % iw, i / iw, x, y, tw, th) ==> {
            let t = top[cell(i % iw - x, i / iw - y, tw)];
            &&& t.a == 0 ==> out[i] == pixels[i]
            &&& t.a == 255 ==> out[i] == t
        }
}

/// `imageproc::drawing::draw_filled_rect_mut` on a `width` by `height` RGBA
/// image. Claims: the cells of the box that lie in the image take `color`,
/// the others keep theirs (the crate intersects the box with the image and
/// puts the color in each cell of the intersection).
#[verifier::external_body]
pub(crate) fn fill_box(
    width: u32,
    height: u32,
    pixels: &Vec<Color>,
    left: i32,
    top: i32,
    w: u32,
    h: u32,
    color: Color,
) -> (r: Vec<Color>)
    requires
        pixels.len() == width * height,
        buffer_fits(width as int, height as int),
        0 < width,
        0 < height,
        canvas_fits(width as int, height as int),
        shape_box_fits(left as int, top as int, w as int, h as int),
    ensures
        r@ == filled_box_pixels(pixels@, width as int, left as int, top as int, w as int, h as int, color),
{
    let raw: Vec<u8> = pixels.iter().flat_map(|c| [c.r, c.g, c.b, c.a]).collect();
    let mut img = RgbaImage::from_raw(width, height, raw).unwrap();
    let rgba = Rgba([color.r, color.g, color.b, color.a]);
    draw_filled_rect_mut(&mut img, ShapeRect::at(left, top).of_size(w, h), rgba);
    img.pixels().map(|p| Color::from(*p)).collect()
}

/// `imageproc::drawing::draw_hollow_rect_mut` on a `width` by `height` RGBA
/// image. Claims: one pixel out per pixel in; and, when the box's edges are
/// held exactly by an `f32`, the cells of its outline that lie in the image
/// take `color` and the others keep theirs (the crate draws four line
/// segments between the corners through `f32` coordinates). Beyond `2^24`
/// the rounded coordinates are left unsaid.
#[verifier::external_body]
pub(crate) fn outline_box(
    width: u32,
    height: u32,
    pixels: &Vec<Color>,
    left: i32,
    top: i32,
    w: u32,
    h: u32,
    color: Color,
) -> (r: Vec<Color>)
    requires
        pixels.len() == width * height,
        buffer_fits(width as int, height as int),
        canvas_fits(width as int, height as int),
        outline_fits(left as int, top as int, w as int, h as int),
    ensures
        r.len() == pixels.len(),
        exact_in_f32(left as int) && exact_in_f32(top as int) && exact_in_f32(left + w - 1)
            && exact_in_f32(top + h - 1) ==> r@ == outlined_box_pixels(
            pixels@,
            width as int,
            left as int,
            top as int,
            w as int,
            h as int,
            color,
        ),
{
    let raw: Vec<u8> = pixels.iter().flat_map(|c| [c.r, c.g, c.b, c.a]).collect();
    let mut img = RgbaImage::from_raw(width, height, raw).unwrap();
    let rgba = Rgba([color.r, color.g, color.b, color.a]);
    draw_hollow_rect_mut(&mut img, ShapeRect::at(left, top).of_size(w, h), rgba);
    img.pixels().map(|p| Color::from(*p)).collect()
}

/// `imageproc::drawing::draw_filled_circle_mut` on a `width` by `height`
/// RGBA image. Claims: one pixel out per pixel in, and the pixels are
/// `filled_circle_pixels` of the arguments.
#[verifier::external_body]
pub(crate) fn fill_circle(
    width: u32,
    height: u32,
    pixels: &Vec<Color>,
    cx: i32,
    cy: i32,
    radius: i32,
    color: Color,
) -> (r: Vec<Color>)
    requires
        pixels.len() == width * height,
        buffer_fits(width as int, height as int),
        canvas_fits(width as int, height as int),
        circle_fits(cx as int, cy as int, radius as int),
    ensures
        r.len() == pixels.len(),
        r@ == filled_circle_pixels(pixels@, width, height, cx, cy, radius, color),
{
    let raw: Vec<u8> = pixels.iter().flat_map(|c| [c.r, c.g, c.b, c.a]).collect();
    let mut img = RgbaImage::from_raw(width, height, raw).unwrap();
    let rgba = Rgba([color.r, color.g, color.b, color.a]);
    draw_filled_circle_mut(&mut img, (cx, cy), radius, rgba);
    img.pixels().map(|p| Color::from(*p)).collect()
}

/// `imageproc::drawing::draw_hollow_circle_mut` on a `width` by `height`
/// RGBA image. Claims: one pixel out per pixel in, and the pixels are
/// `hollow_circle_pixels` of the arguments.
#[verifier::external_body]
pub(crate) fn outline_circle(
    width: u32,
    height: u32,
    pixels: &Vec<Color>,
    cx: i32,
    cy: i32,
    radius: i32,
    color: Color,
) -> (r: Vec<Color>)
    requires
        pixels.len() == width * height,
        buffer_fits(width as int, height as int),
        canvas_fits(width as int, height as int),
        circle_fits(cx as int, cy as int, radius as int),
    ensures
        r.len() == pixels.len(),
        r@ == hollow_circle_pixels(pixels@, width, height, cx, cy, radius, color),
{
    let raw: Vec<u8> = pixels.iter().flat_map(|c| [c.r, c.g, c.b, c.a]).collect();
    let mut img = RgbaImage::from_raw(width, height, raw).unwrap();
    let rgba = Rgba([color.r, color.g, color.b, color.a]);
    draw_hollow_circle_mut(&mut img, (cx, cy), radius, rgba);
    img.pixels().map(|p| Color::from(*p)).collect()
}

/// `imageproc::drawing::draw_filled_ellipse_mut` on a `width` by `height`
/// RGBA image. Claims `ellipse_outcome`: the crate hands an ellipse with
/// equal radii to `draw_filled_circle_mut`, and otherwise sets rows of
/// pixels inside the image to `color`. Which rows and how long they are
/// comes from `f32` arithmetic (with `powi`, whose precision may vary) and
/// is left unsaid.
#[verifier::external_body]
pub(crate) fn fill_ellipse(
    width: u32,
    height: u32,
    pixels: &Vec<Color>,
    cx: i32,
    cy: i32,
    width_radius: i32,
    height_radius: i32,
    color: Color,
) -> (r: Vec<Color>)
    requires
        pixels.len() == width * height,
        buffer_fits(width as int, height as int),
        canvas_fits(width as int, height as int),
        ellipse_fits(cx as int, cy as int, width_radius as int, height_radius as int),
    ensures
        ellipse_outcome(pixels@, r@, width, height, cx, cy, width_radius, height_radius, color, false),
{
    let raw: Vec<u8> = pixels.iter().flat_map(|c| [c.r, c.g, c.b, c.a]).collect();
    let mut img = RgbaImage::from_raw(width, height, raw).unwrap();
    let rgba = Rgba([color.r, color.g, color.b, color.a]);
    draw_filled_ellipse_mut(&mut img, (cx, cy), width_radius, height_radius, rgba);
    img.pixels().map(|p| Color::from(*p)).collect()
}

/// `imageproc::drawing::draw_hollow_ellipse_mut` on a `width` by `height`
/// RGBA image. Claims `ellipse_outcome`: the crate hands an ellipse with
/// equal radii to `draw_hollow_circle_mut`, and otherwise first sets the top
/// and bottom points of the outline, then further points, to `color` where
/// they lie inside the image. Which further points comes from `f32`
/// arithmetic (with `powi`, whose precision may vary) and is left unsaid.
#[verifier::external_body]
pub(crate) fn outline_ellipse(
    width: u32,
    height: u32,
    pixels: &Vec<Color>,
    cx: i32,
    cy: i32,
    width_radius: i32,
    height_radius: i32,
    color: Color,
) -> (r: Vec<Color>)
    requires
        pixels.len() == width * height,
        buffer_fits(width as int, height as int),
        canvas_fits(width as int, height as int),
        ellipse_fits(cx as int, cy as int, width_radius as int, height_radius as int),
    ensures
        ellipse_outcome(pixels@, r@, width, height, cx, cy, width_radius, height_radius, color, true),
{
    let raw: Vec<u8> = pixels.iter().flat_map(|c| [c.r, c.g, c.b, c.a]).collect();
    let mut img = RgbaImage::from_raw(width, height, raw).unwrap();
    let rgba = Rgba([color.r, color.g, color.b, color.a]);
    draw_hollow_ellipse_mut(&mut img, (cx, cy), width_radius, height_radius, rgba);
    img.pixels().map(|p| Color::from(*p)).collect()
}

/// `imageproc::drawing::draw_line_segment_mut` between `(x0, y0)` and
/// `(x1, y1)`, handed over as `f32` coordinates, on a `width` by `height`
/// RGBA image. Claims: the pixels are `line_pixels` of the arguments (the
/// crate steps along the line by Bresenham's method with exact IEEE
/// additions, subtractions and comparisons); one pixel out per pixel in,
/// each kept or set to `color`; and, where the coordinates are exact in
/// `f32`, the end it starts from takes `color` when it lies in the image.
#[verifier::external_body]
pub(crate) fn line_segment(
    width: u32,
    height: u32,
    pixels: &Vec<Color>,
    x0: i32,
    y0: i32,
    x1: i32,
    y1: i32,
    color: Color,
) -> (r: Vec<Color>)
    requires
        pixels.len() == width * height,
        buffer_fits(width as int, height as int),
        canvas_fits(width as int, height as int),
        line_fits(x0 as int, y0 as int, x1 as int, y1 as int),
    ensures
        r@ == line_pixels(pixels@, width, height, x0, y0, x1, y1, color),
        r.len() == pixels.len(),
        forall|i: int| 0 <= i < r.len() ==> r@[i] == pixels@[i] || r@[i] == color,
        line_exact(x0 as int, y0 as int, x1 as int, y1 as int) ==> {
            let p = line_first_end(x0 as int, y0 as int, x1 as int, y1 as int);
            0 <= p.0 < width && 0 <= p.1 < height ==> r@[p.1 * width + p.0] == color
        },
{
    let raw: Vec<u8> = pixels.iter().flat_map(|c| [c.r, c.g, c.b, c.a]).collect();
    let mut img = RgbaImage::from_raw(width, height, raw).unwrap();
    let rgba = Rgba([color.r, color.g, color.b, color.a]);
    draw_line_segment_mut(&mut img, (x0 as _, y0 as _), (x1 as _, y1 as _), rgba);
    img.pixels().map(|p| Color::from(*p)).collect()
}

/// `image::imageops::overlay` of a `tw` by `th` RGBA image onto a `width` by
/// `height` one, corner at `(x, y)`, where the top image fits inside.
/// Claims: each covered pixel becomes `rgba_blend` of the top pixel over
/// it, the others keep theirs; a fully transparent top pixel leaves the one
/// below as it was and a fully opaque one replaces it (as `Blend::blend`
/// for `Rgba` returns early in those two cases).
#[verifier::external_body]
pub(crate) fn overlay_box(
    width: u32,
    height: u32,
    pixels: &Vec<Color>,
    tw: u32,
    th: u32,
    top: &Vec<Color>,
    x: u32,
    y: u32,
) -> (r: Vec<Color>)
    requires
        pixels.len() == width * height,
        buffer_fits(width as int, height as int),
        top.len() == tw * th,
        buffer_fits(tw as int, th as int),
        x + tw <= width,
        y + th <= height,
    ensures
        r@ == overlaid(pixels@, width as int, top@, tw as int, th as int, x as int, y as int),
        forall|i: int|
            #![trigger r@[i]]
            0 <= i < r.len() && in_box(i % (width as int), i / (width as int), x as int, y as int, tw as int, th as int)
                ==> r@[i] == rgba_blend(
                pixels@[i],
                top@[cell(i % (width as int) - x, i / (width as int) - y, tw as int)],
            ),
        keeps_blend_extremes(pixels@, width as int, top@, tw as int, th as int, x as int, y as int, r@),
{
    let raw: Vec<u8> = pixels.iter().flat_map(|c| [c.r, c.g, c.b, c.a]).collect();
    let mut img = RgbaImage::from_raw(width, height, raw).unwrap();
    let top_raw: Vec<u8> = top.iter().flat_map(|c| [c.r, c.g, c.b, c.a]).collect();
    let top_img = RgbaImage::from_raw(tw, th, top_raw).unwrap();
    overlay(&mut img, &top_img, x as i64, y as i64);
    img.pixels().map(|p| Color::from(*p)).collect()
}

} // verus!
