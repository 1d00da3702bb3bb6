//! Laws of the image operations: what undoes what, and what a read gives
//! back of a write.

use vstd::prelude::*;

use crate::color::Color;
use crate::drawing::{filled_box_pixels, in_box, keeps_blend_extremes, outlined_box_pixels, on_outline};
use crate::raster::{
    cell, flip_horizontal_source, flip_vertical_source, invert_color, lemma_cell, lemma_position,
    region,
};

verus! {

/// Inverting the colors twice gives back the pixels it started from.
pub proof fn law_invert_twice(pixels: Seq<Color>)
    ensures
        pixels.map_values(|c: Color| invert_color(c)).map_values(|c: Color| invert_color(c))
            == pixels,
{
    assert(pixels.map_values(|c: Color| invert_color(c)).map_values(|c: Color| invert_color(c))
        =~= pixels);
}

/// Flipping horizontally twice moves every pixel back to where it was.
pub proof fn law_flip_horizontal_twice(pixels: Seq<Color>, w: int, h: int)
    requires
        0 <= w,
        0 <= h,
        pixels.len() == w * h,
    ensures
        ({
            let once = Seq::new(pixels.len(), |i: int| pixels[flip_horizontal_source(i, w)]);
            Seq::new(once.len(), |i: int| once[flip_horizontal_source(i, w)]) == pixels
        }),
{
    let once = Seq::new(pixels.len(), |i: int| pixels[flip_horizontal_source(i, w)]);
    let twice = Seq::new(once.len(), |i: int| once[flip_horizontal_source(i, w)]);
    assert forall|i: int| 0 <= i < pixels.len() implies twice[i] == pixels[i] by {
        lemma_position(i, w, h);
        let j = flip_horizontal_source(i, w);
        lemma_cell(w - 1 - i % w, i / w, w, h);
        lemma_cell(w - 1 - j % w, j / w, w, h);
    }
    assert(twice =~= pixels);
}

/// Flipping vertically twice moves every pixel back to where it was.
pub proof fn law_flip_vertical_twice(pixels: Seq<Color>, w: int, h: int)
    requires
        0 <= w,
        0 <= h,
        pixels.len() == w * h,
    ensures
        ({
            let once = Seq::new(pixels.len(), |i: int| pixels[flip_vertical_source(i, w, h)]);
            Seq::new(once.len(), |i: int| once[flip_vertical_source(i, w, h)]) == pixels
        }),
{
    let once = Seq::new(pixels.len(), |i: int| pixels[flip_vertical_source(i, w, h)]);
    let twice = Seq::new(once.len(), |i: int| once[flip_vertical_source(i, w, h)]);
    assert forall|i: int| 0 <= i < pixels.len() implies twice[i] == pixels[i] by {
        lemma_position(i, w, h);
        let j = flip_vertical_source(i, w, h);
        lemma_cell(i % w, h - 1 - i / w, w, h);
        lemma_cell(j % w, h - 1 - j / w, w, h);
    }
    assert(twice =~= pixels);
}

/// Reading back a pixel that was just written gives the written color, and
/// every other pixel keeps its color.
pub proof fn law_read_after_write(pixels: Seq<Color>, w: int, h: int, x: int, y: int, color: Color, x2: int, y2: int)
    requires
        pixels.len() == w * h,
        0 <= x < w,
        0 <= y < h,
        0 <= x2 < w,
        0 <= y2 < h,
    ensures
        pixels.update(cell(x, y, w), color)[cell(x2, y2, w)] == if x2 == x && y2 == y {
            color
        } else {
            pixels[cell(x2, y2, w)]
        },
{
    lemma_cell(x, y, w, h);
    lemma_cell(x2, y2, w, h);
}

/// The region covering the whole image is the image.
pub proof fn law_whole_region(pixels: Seq<Color>, w: int, h: int)
    requires
        0 <= w,
        0 <= h,
        pixels.len() == w * h,
    ensures
        region(pixels, w, 0, 0, w, h) == pixels,
{
    assert forall|k: int| 0 <= k < pixels.len() implies region(pixels, w, 0, 0, w, h)[k]
        == pixels[k] by {
        lemma_position(k, w, h);
    }
    assert(region(pixels, w, 0, 0, w, h) =~= pixels);
}

/// Reading a pixel after a filled rectangle is drawn gives the rectangle's
/// color where the rectangle covers the pixel, and the pixel's own color
/// elsewhere.
pub proof fn law_read_after_fill(
    pixels: Seq<Color>,
    w: int,
    h: int,
    x: int,
    y: int,
    left: int,
    top: int,
    rw: int,
    rh: int,
    color: Color,
)
    requires
        pixels.len() == w * h,
        0 <= x < w,
        0 <= y < h,
    ensures
        filled_box_pixels(pixels, w, left, top, rw, rh, color)[cell(x, y, w)] == if in_box(
            x,
            y,
            left,
            top,
            rw,
            rh,
        ) {
            color
        } else {
            pixels[cell(x, y, w)]
        },
{
    lemma_cell(x, y, w, h);
}

/// An outline covers only pixels that the filled rectangle covers: drawing
/// the outline and then filling gives the filled rectangle.
pub proof fn law_fill_covers_outline(
    pixels: Seq<Color>,
    w: int,
    h: int,
    left: int,
    top: int,
    rw: int,
    rh: int,
    color: Color,
)
    requires
        pixels.len() == w * h,
        0 <= w,
        0 <= h,
    ensures
        filled_box_pixels(outlined_box_pixels(pixels, w, left, top, rw, rh, color), w, left, top, rw, rh, color)
            == filled_box_pixels(pixels, w, left, top, rw, rh, color),
{
    let a = filled_box_pixels(outlined_box_pixels(pixels, w, left, top, rw, rh, color), w, left, top, rw, rh, color);
    let b = filled_box_pixels(pixels, w, left, top, rw, rh, color);
    assert forall|i: int| 0 <= i < pixels.len() implies a[i] == b[i] by {
        if on_outline(i % w, i / w, left, top, rw, rh) {
            assert(in_box(i % w, i / w, left, top, rw, rh));
        }
    }
    assert(a =~= b);
}

/// Laying an image over another where the top image is fully opaque puts
/// its pixels in place: reading the covered region back gives the top
/// image.
pub proof fn law_opaque_overlay_reads_back(
    pixels: Seq<Color>,
    w: int,
    h: int,
    top: Seq<Color>,
    tw: int,
    th: int,
    x: int,
    y: int,
    out: Seq<Color>,
)
    requires
        pixels.len() == w * h,
        top.len() == tw * th,
        0 <= tw,
        0 <= th,
        0 <= x,
        0 <= y,
        x + tw <= w,
        y + th <= h,
        out.len() == pixels.len(),
        forall|k: int| 0 <= k < top.len() ==> (#[trigger] top[k]).a == 255,
        keeps_blend_extremes(pixels, w, top, tw, th, x, y, out),
    ensures
        region(out, w, x, y, tw, th) == top,
{
    assert forall|k: int| 0 <= k < top.len() implies region(out, w, x, y, tw, th)[k] == top[k] by {
        lemma_position(k, tw, th);
        let cx = x + k % tw;
        let cy = y + k / tw;
        lemma_cell(cx, cy, w, h);
        let i = cell(cx, cy, w);
        assert(in_box(i % w, i / w, x, y, tw, th));
        assert(out[i] == top[cell(k % tw, k / tw, tw)]);
    }
    assert(region(out, w, x, y, tw, th) =~= top);
}

} // verus!
