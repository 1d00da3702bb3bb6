use actiona::color::{Color, JsColorLike};
use actiona::geometry::{point, size, Rect};
use actiona::image_options::{DrawImageOptions, DrawingOptions, JsDrawImageOptions, JsDrawingOptions};
use actiona::js_image::JsImage;
use actiona::raster::{Image, ImageError};
use image::{Rgba, RgbaImage};

const RED: Color = Color { r: 255, g: 0, b: 0, a: 255 };
const CLEAR: Color = Color { r: 0, g: 0, b: 0, a: 0 };

fn at(img: &Image, x: i32, y: i32) -> Color {
    img.get_pixel_color(point(x, y)).unwrap()
}

fn filled() -> DrawingOptions {
    DrawingOptions { hollow: false }
}

fn hollow() -> DrawingOptions {
    DrawingOptions { hollow: true }
}

fn to_rgba8(img: &Image) -> RgbaImage {
    let raw: Vec<u8> = img.as_pixels().iter().flat_map(|c| [c.r, c.g, c.b, c.a]).collect();
    RgbaImage::from_raw(img.width(), img.height(), raw).unwrap()
}

fn from_rgba8(img: &RgbaImage) -> Image {
    let pixels: Vec<Color> = img.pixels().map(|p| Color::from(*p)).collect();
    Image::from_pixels(img.width(), img.height(), pixels).unwrap()
}

#[test]
fn filled_rectangle_colors_its_cells() {
    let img = Image::new(4, 3);
    let out = img.with_rectangle(Rect::new(point(1, 1), size(2, 1)), RED, filled()).unwrap();
    for y in 0..3 {
        for x in 0..4 {
            let want = if y == 1 && (x == 1 || x == 2) { RED } else { CLEAR };
            assert_eq!(at(&out, x, y), want, "({x}, {y})");
        }
    }
}

#[test]
fn filled_rectangle_is_clipped_to_the_image() {
    let mut img = Image::new(3, 3);
    img.draw_rectangle_mut(Rect::new(point(-1, -1), size(3, 3)), RED, filled()).unwrap();
    for y in 0..3 {
        for x in 0..3 {
            let want = if x <= 1 && y <= 1 { RED } else { CLEAR };
            assert_eq!(at(&img, x, y), want, "({x}, {y})");
        }
    }
}

#[test]
fn hollow_rectangle_colors_its_outline() {
    let img = Image::new(5, 5);
    let out = img.with_rectangle(Rect::new(point(0, 0), size(4, 4)), RED, hollow()).unwrap();
    for y in 0..5 {
        for x in 0..5 {
            let on = x < 4 && y < 4 && (x == 0 || x == 3 || y == 0 || y == 3);
            assert_eq!(at(&out, x, y), if on { RED } else { CLEAR }, "({x}, {y})");
        }
    }
}

#[test]
fn empty_rectangle_is_refused() {
    let mut img = Image::new(2, 2);
    assert_eq!(
        img.draw_rectangle_mut(Rect::new(point(0, 0), size(0, 2)), RED, filled()),
        Err(ImageError::EmptyRegion)
    );
    assert!(img.as_pixels().iter().all(|c| *c == CLEAR));
    assert_eq!(
        img.with_rectangle(Rect::new(point(0, 0), size(2, 0)), RED, hollow()).err(),
        Some(ImageError::EmptyRegion)
    );
}

#[test]
fn circles_of_radius_one() {
    let img = Image::new(5, 5);
    let disc = img.with_circle(point(2, 2), 1, RED, filled());
    for (x, y) in [(2, 1), (1, 2), (2, 2), (3, 2), (2, 3)] {
        assert_eq!(at(&disc, x, y), RED, "({x}, {y})");
    }
    assert_eq!(at(&disc, 1, 1), CLEAR);
    assert_eq!(at(&disc, 0, 0), CLEAR);

    let mut ring = Image::new(5, 5);
    ring.draw_circle_mut(point(2, 2), 2, RED, hollow());
    assert_eq!(at(&ring, 2, 0), RED);
    assert_eq!(at(&ring, 0, 2), RED);
    assert_eq!(at(&ring, 2, 2), CLEAR);
}

#[test]
fn circles_match_imageproc() {
    let img = Image::new(9, 7);
    let mut expected = to_rgba8(&img);
    imageproc::drawing::draw_filled_circle_mut(&mut expected, (4, 3), 3, Rgba([255, 0, 0, 255]));
    assert_eq!(img.with_circle(point(4, 3), 3, RED, filled()).as_pixels(), from_rgba8(&expected).as_pixels());
    let mut expected = to_rgba8(&img);
    imageproc::drawing::draw_hollow_circle_mut(&mut expected, (4, 3), 3, Rgba([255, 0, 0, 255]));
    assert_eq!(img.with_circle(point(4, 3), 3, RED, hollow()).as_pixels(), from_rgba8(&expected).as_pixels());
}

#[test]
fn ellipses_match_imageproc() {
    let img = Image::new(11, 7);
    let mut expected = to_rgba8(&img);
    imageproc::drawing::draw_filled_ellipse_mut(&mut expected, (5, 3), 4, 2, Rgba([255, 0, 0, 255]));
    let mut drawn = img.with_ellipse(point(5, 3), 4, 2, RED, filled());
    assert_eq!(drawn.as_pixels(), from_rgba8(&expected).as_pixels());
    assert_eq!(at(&drawn, 5, 3), RED);
    assert_eq!(at(&drawn, 0, 0), CLEAR);

    let mut expected = to_rgba8(&img);
    imageproc::drawing::draw_hollow_ellipse_mut(&mut expected, (5, 3), 4, 2, Rgba([255, 0, 0, 255]));
    drawn = Image::new(11, 7);
    drawn.draw_ellipse_mut(point(5, 3), 4, 2, RED, hollow());
    assert_eq!(drawn.as_pixels(), from_rgba8(&expected).as_pixels());
    assert_eq!(at(&drawn, 5, 3), CLEAR);
}

#[test]
fn opaque_image_replaces_the_pixels_below() {
    let dest = Image::new(4, 4);
    let source = Image::new(2, 2).filled(RED);
    let out = dest.with_image(point(1, 1), &source, DrawImageOptions { source_rect: None }).unwrap();
    for y in 0..4 {
        for x in 0..4 {
            let inside = (1..3).contains(&x) && (1..3).contains(&y);
            assert_eq!(at(&out, x, y), if inside { RED } else { CLEAR }, "({x}, {y})");
        }
    }
}

#[test]
fn transparent_and_translucent_pixels_blend() {
    let base = Color::new(0, 0, 255, 255);
    let mut dest = Image::new(3, 1).filled(base);
    let source = Image::from_pixels(3, 1, vec![CLEAR, Color::new(255, 0, 0, 128), RED]).unwrap();
    let mut expected = to_rgba8(&dest);
    image::imageops::overlay(&mut expected, &to_rgba8(&source), 0, 0);
    dest.draw_image_mut(point(0, 0), &source, DrawImageOptions::default()).unwrap();
    assert_eq!(at(&dest, 0, 0), base);
    assert_eq!(at(&dest, 2, 0), RED);
    assert_eq!(dest.as_pixels(), from_rgba8(&expected).as_pixels());
    assert_ne!(at(&dest, 1, 0), base);
}

#[test]
fn source_rect_picks_the_part_drawn() {
    let mut pixels = Vec::new();
    for i in 0..9u8 {
        pixels.push(Color::new(i, 0, 0, 255));
    }
    let source = Image::from_pixels(3, 3, pixels).unwrap();
    let dest = Image::new(2, 2);
    let options = DrawImageOptions { source_rect: Some(Rect::new(point(1, 1), size(2, 2))) };
    let out = dest.with_image(point(0, 0), &source, options).unwrap();
    let reds: Vec<u8> = out.as_pixels().iter().map(|c| c.r).collect();
    assert_eq!(reds, vec![4, 5, 7, 8]);
}

#[test]
fn drawing_an_image_checks_its_place() {
    let mut dest = Image::new(3, 3);
    let source = Image::new(2, 2).filled(RED);
    let none = DrawImageOptions::default();
    assert_eq!(dest.with_image(point(3, 0), &source, none).err(), Some(ImageError::InvalidPosition));
    assert_eq!(dest.with_image(point(2, 2), &source, none).err(), Some(ImageError::RegionOutOfBounds));
    let bad_source = DrawImageOptions { source_rect: Some(Rect::new(point(5, 5), size(1, 1))) };
    assert_eq!(dest.with_image(point(0, 0), &source, bad_source).err(), Some(ImageError::InvalidPosition));
    let empty_source = DrawImageOptions { source_rect: Some(Rect::new(point(0, 0), size(0, 1))) };
    assert_eq!(dest.with_image(point(0, 0), &source, empty_source).err(), Some(ImageError::EmptyRegion));
    assert_eq!(
        dest.draw_image_mut(point(2, 2), &source, none),
        Err(ImageError::RegionOutOfBounds)
    );
    assert!(dest.as_pixels().iter().all(|c| *c == CLEAR));
}

#[test]
fn script_images_draw_shapes() {
    let img = JsImage::new_js(4, 4);
    let red = JsColorLike(RED);
    let rect = img.with_rectangle(Rect::new(point(0, 0), size(2, 2)), red, None).unwrap();
    assert_eq!(rect.to_inner().as_pixels().iter().filter(|c| **c == RED).count(), 4);
    let outline = img
        .with_rectangle(Rect::new(point(0, 0), size(3, 3)), red, Some(JsDrawingOptions { hollow: true }))
        .unwrap();
    assert_eq!(outline.to_inner().as_pixels().iter().filter(|c| **c == RED).count(), 8);
    assert!(img.with_rectangle(Rect::new(point(0, 0), size(0, 3)), red, None).is_err());
    let disc = img.with_circle(point(1, 1), 1, red, None);
    assert_eq!(disc.to_inner().as_pixels().iter().filter(|c| **c == RED).count(), 5);
    let ellipse = img.with_ellipse(point(1, 1), 1, 1, red, Some(JsDrawingOptions { hollow: true }));
    assert_eq!(ellipse.to_inner().get_pixel_color(point(1, 1)).unwrap(), CLEAR);
    let patch = JsImage::new(Image::new(1, 1).filled(RED));
    let stamped = img.with_image(point(3, 3), &patch, None).unwrap();
    assert_eq!(stamped.to_inner().get_pixel_color(point(3, 3)).unwrap(), RED);
    let opts = Some(JsDrawImageOptions { source_rect: Some(Rect::new(point(0, 0), size(2, 1))) });
    assert!(img.with_image(point(0, 0), &patch, opts).is_err());
}

#[test]
fn opaque_overlay_reads_back() {
    let mut pixels = Vec::new();
    for i in 0..6u8 {
        pixels.push(Color::new(i, 10 * i, 3, 255));
    }
    let top = Image::from_pixels(3, 2, pixels).unwrap();
    let dest = Image::new(5, 4).filled(Color::new(9, 9, 9, 40));
    let out = dest.with_image(point(2, 1), &top, DrawImageOptions::default()).unwrap();
    let back = out.copy_region(Rect::new(point(2, 1), size(3, 2))).unwrap();
    assert_eq!(back.as_pixels(), top.as_pixels());
}

#[test]
fn read_after_fill_and_outline_then_fill() {
    let base = Image::new(6, 5).filled(Color::new(1, 2, 3, 4));
    let rect = Rect::new(point(1, 1), size(3, 2));
    let filled_once = base.with_rectangle(rect, RED, filled()).unwrap();
    assert_eq!(at(&filled_once, 2, 2), RED);
    assert_eq!(at(&filled_once, 4, 2), Color::new(1, 2, 3, 4));
    let outlined = base.with_rectangle(rect, RED, hollow()).unwrap();
    let refilled = outlined.with_rectangle(rect, RED, filled()).unwrap();
    assert_eq!(refilled.as_pixels(), filled_once.as_pixels());
}

#[test]
fn ellipses_with_equal_radii_are_circles() {
    let img = Image::new(9, 9);
    let background = Color::new(1, 2, 3, 4);
    let img = img.filled(background);
    assert_eq!(
        img.with_ellipse(point(4, 4), 3, 3, RED, filled()).as_pixels(),
        img.with_circle(point(4, 4), 3, RED, filled()).as_pixels()
    );
    let outline = img.with_ellipse(point(4, 4), 4, 2, RED, hollow());
    assert_eq!(at(&outline, 4, 2), RED);
    assert_eq!(at(&outline, 4, 6), RED);
    assert!(outline.as_pixels().iter().all(|c| *c == RED || *c == background));
}

#[test]
fn rectangle_reaching_the_last_coordinate() {
    let img = Image::new(3, 3);
    let far = Rect::new(point(i32::MAX - 10, 0), size(10, 2));
    let out = img.with_rectangle(far, RED, filled()).unwrap();
    assert_eq!(out.as_pixels(), img.as_pixels());
}

#[test]
fn lines_match_imageproc() {
    let img = Image::new(8, 6).filled(Color::new(0, 0, 9, 255));
    for (start, end) in [((1, 1), (6, 4)), ((6, 4), (1, 1)), ((2, 5), (3, 0)), ((-3, 2), (10, 2)), ((4, 4), (4, 4))] {
        let mut expected = to_rgba8(&img);
        imageproc::drawing::draw_line_segment_mut(
            &mut expected,
            (start.0 as f32, start.1 as f32),
            (end.0 as f32, end.1 as f32),
            Rgba([255, 0, 0, 255]),
        );
        let drawn = img.with_line(point(start.0, start.1), point(end.0, end.1), RED);
        assert_eq!(drawn.as_pixels(), from_rgba8(&expected).as_pixels());
        let mut in_place = img.duplicate();
        in_place.draw_line_mut(point(start.0, start.1), point(end.0, end.1), RED);
        assert_eq!(in_place.as_pixels(), drawn.as_pixels());
    }
    let line = img.with_line(point(6, 4), point(1, 1), RED);
    assert_eq!(at(&line, 1, 1), RED);
    assert_ne!(line.as_pixels(), img.as_pixels());
    let js = JsImage::new(img.duplicate()).with_line(point(0, 0), point(7, 0), JsColorLike(RED));
    assert_eq!(js.get_pixel(point(3, 0)).unwrap().inner, RED);
}
