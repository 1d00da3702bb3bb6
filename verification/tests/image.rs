use actiona::color::{Color, JsColorLike};
use actiona::geometry::{point, size, Rect};
use actiona::raster::{FlipDirection, Image, ImageError};
use actiona::image_options::JsFlipDirection;
use actiona::js_image::{FindImageProgress, FindImageStage, IsDone, JsFindImageProgress, JsImage, JsMatch, Match};
use image::{Rgba, RgbaImage};

fn from_rgba8(img: RgbaImage) -> Image {
    let (w, h) = img.dimensions();
    let pixels: Vec<Color> = img.pixels().map(|p| Color::from(*p)).collect();
    Image::from_pixels(w, h, pixels).unwrap()
}

fn numbered(w: u32, h: u32) -> Image {
    let mut pixels = Vec::new();
    for i in 0..(w * h) {
        pixels.push(Color::new(i as u8, 0, 0, 255));
    }
    Image::from_pixels(w, h, pixels).unwrap()
}

#[test]
fn new_image_is_rgba8_with_zero_pixels() {
    let img = Image::new(10, 20);
    assert_eq!(img.width(), 10);
    assert_eq!(img.height(), 20);
    for pixel in img.as_pixels() {
        assert_eq!(Rgba::<u8>::from(*pixel), Rgba([0, 0, 0, 0]));
    }
}

#[test]
fn get_pixel_color_is_immutable() {
    let img = from_rgba8(RgbaImage::from_pixel(5, 5, Rgba([10, 20, 30, 255])));
    let color = img.get_pixel_color(point(2, 3)).unwrap();
    assert_eq!(color, Color::new(10, 20, 30, 255));
}

#[test]
fn get_pixel_color_out_of_bounds() {
    let img = Image::new(5, 5);
    assert!(img.get_pixel_color(point(5, 0)).is_err());
    assert!(img.get_pixel_color(point(0, 5)).is_err());
    assert!(img.get_pixel_color(point(-1, 0)).is_err());
}

#[test]
fn fill_and_read_back() {
    let mut img = Image::new(3, 3);
    let color = Color::new(100, 200, 50, 255);
    img.fill_mut(color);
    let read_back = img.get_pixel_color(point(1, 1)).unwrap();
    assert_eq!(read_back, color);
}

#[test]
fn invert_round_trip() {
    let img = from_rgba8(RgbaImage::from_pixel(2, 2, Rgba([100, 150, 200, 255])));
    let inverted = img.inverted().inverted();
    assert_eq!(img.as_pixels(), inverted.as_pixels());
}

#[test]
fn invert_keeps_alpha() {
    let img = from_rgba8(RgbaImage::from_pixel(1, 1, Rgba([100, 150, 200, 7])));
    assert_eq!(img.inverted().as_pixels()[0], Color::new(155, 105, 55, 7));
}

#[test]
fn set_pixel_then_get() {
    let mut img = Image::new(4, 3);
    let c = Color::new(1, 2, 3, 4);
    assert_eq!(img.set_pixel_color(point(3, 2), c), Ok(()));
    assert_eq!(img.get_pixel_color(point(3, 2)), Ok(c));
    assert_eq!(img.get_pixel_color(point(2, 2)), Ok(Color::new(0, 0, 0, 0)));
    assert_eq!(img.set_pixel_color(point(4, 0), c), Err(ImageError::InvalidPosition));
}

#[test]
fn brightness_is_clamped() {
    let img = from_rgba8(RgbaImage::from_pixel(1, 1, Rgba([250, 10, 128, 9])));
    assert_eq!(img.adjusted_brightness(10).as_pixels()[0], Color::new(255, 20, 138, 9));
    assert_eq!(img.adjusted_brightness(-20).as_pixels()[0], Color::new(230, 0, 108, 9));
}

#[test]
fn flip_moves_pixels() {
    let img = numbered(3, 2);
    let h = img.flipped(FlipDirection::Horizontal);
    let reds: Vec<u8> = h.as_pixels().iter().map(|c| c.r).collect();
    assert_eq!(reds, vec![2, 1, 0, 5, 4, 3]);
    let v = img.flipped(FlipDirection::Vertical);
    let reds: Vec<u8> = v.as_pixels().iter().map(|c| c.r).collect();
    assert_eq!(reds, vec![3, 4, 5, 0, 1, 2]);
    assert!(v.flipped(FlipDirection::Vertical).same_as(&img));
}

#[test]
fn crop_is_clamped_to_image() {
    let img = numbered(4, 4);
    let c = img.cropped(Rect::new(point(-1, 2), size(3, 5)));
    assert_eq!((c.width(), c.height()), (2, 2));
    let reds: Vec<u8> = c.as_pixels().iter().map(|c| c.r).collect();
    assert_eq!(reds, vec![8, 9, 12, 13]);
    let outside = img.cropped(Rect::new(point(10, 10), size(3, 3)));
    assert_eq!((outside.width(), outside.height()), (0, 0));
}

#[test]
fn copy_region_errors() {
    let img = numbered(4, 4);
    let r = img.copy_region(Rect::new(point(1, 1), size(2, 2))).unwrap();
    let reds: Vec<u8> = r.as_pixels().iter().map(|c| c.r).collect();
    assert_eq!(reds, vec![5, 6, 9, 10]);
    assert_eq!(img.copy_region(Rect::new(point(4, 0), size(1, 1))).err(), Some(ImageError::InvalidPosition));
    assert_eq!(img.copy_region(Rect::new(point(0, 0), size(0, 1))).err(), Some(ImageError::EmptyRegion));
    assert_eq!(img.copy_region(Rect::new(point(1, 0), size(u32::MAX, 1))).err(), Some(ImageError::RegionTooWide));
    assert_eq!(img.copy_region(Rect::new(point(0, 1), size(1, u32::MAX))).err(), Some(ImageError::RegionTooTall));
    assert_eq!(img.copy_region(Rect::new(point(2, 2), size(3, 1))).err(), Some(ImageError::RegionOutOfBounds));
}

#[test]
fn cross_stays_inside() {
    let img = Image::new(3, 3);
    let c = Color::new(9, 9, 9, 9);
    let z = Color::new(0, 0, 0, 0);
    let crossed = img.with_cross(point(0, 0), c);
    assert_eq!(crossed.as_pixels().to_vec(), vec![c, c, z, c, z, z, z, z, z]);
    let centered = img.with_cross(point(1, 1), c);
    assert_eq!(centered.as_pixels().to_vec(), vec![z, c, z, c, c, c, z, c, z]);
}

#[test]
fn grayscale_uses_luma() {
    let img = from_rgba8(RgbaImage::from_pixel(2, 1, Rgba([100, 150, 200, 77])));
    let g = img.grayscaled();
    let l = ((2126 * 100 + 7152 * 150 + 722 * 200) / 10000) as u8;
    assert_eq!(g.as_pixels()[0], Color::new(l, l, l, 77));
    assert_eq!(g.width(), 2);
}

#[test]
fn hue_rotation_keeps_alpha_and_size() {
    let img = from_rgba8(RgbaImage::from_pixel(3, 2, Rgba([200, 10, 10, 33])));
    let r = img.hue_rotated(120);
    assert_eq!((r.width(), r.height()), (3, 2));
    assert!(r.as_pixels().iter().all(|c| c.a == 33));
    assert_ne!(r.as_pixels()[0], img.as_pixels()[0]);
}

#[test]
fn hue_rotation_is_per_pixel_and_zero_keeps() {
    let a = Color::new(200, 10, 10, 33);
    let b = Color::new(5, 120, 240, 255);
    let img = Image::from_pixels(2, 1, vec![a, b]).unwrap();
    let one_a = Image::from_pixels(1, 1, vec![a]).unwrap().hue_rotated(90);
    let one_b = Image::from_pixels(1, 1, vec![b]).unwrap().hue_rotated(90);
    let both = img.hue_rotated(90);
    assert_eq!(both.as_pixels().to_vec(), vec![one_a.as_pixels()[0], one_b.as_pixels()[0]]);
    let mut in_place = img.duplicate();
    in_place.hue_rotate_mut(90);
    assert_eq!(in_place.as_pixels().to_vec(), both.as_pixels().to_vec());
    assert_ne!(in_place.as_pixels().to_vec(), img.as_pixels().to_vec());
    let mut zero = img.duplicate();
    zero.hue_rotate_mut(0);
    assert_eq!(zero.as_pixels().to_vec(), img.as_pixels().to_vec());
    assert_eq!(img.hue_rotated(0).as_pixels().to_vec(), vec![a, b]);
    let js = JsImage::new_js(2, 1).filled(JsColorLike(a));
    assert_eq!(js.with_hue_rotation(0).get_pixel(point(1, 0)).unwrap().inner, a);
    assert_eq!(js.with_hue_rotation(90).get_pixel(point(1, 0)).unwrap().inner, one_a.as_pixels()[0]);
}

#[test]
fn js_image_wraps_image() {
    let img = JsImage::new_js(4, 2);
    assert_eq!(img.to_string_js(), "Image(width: 4, height: 2)");
    let filled = img.filled(JsColorLike(Color::new(1, 2, 3, 4)));
    assert_eq!(filled.get_pixel(point(3, 1)).unwrap().inner, Color::new(1, 2, 3, 4));
    assert!(filled.equals(filled.clone_js()));
    assert!(!filled.equals(img.clone_js()));
    let rect = filled.rect();
    assert_eq!((rect.size.width.value, rect.size.height.value), (4, 2));
    assert_eq!(filled.flipped(JsFlipDirection::Vertical).width(), 4);
    assert!(filled.can_adjust_brightness(i32::MAX - 4));
    assert!(!filled.can_adjust_brightness(i32::MAX - 2));
}

#[test]
fn match_scores_compare_as_floats() {
    let m = |score: f64| {
        JsMatch::from(Match { position: point(1, 2), rect: Rect::new(point(0, 0), size(3, 4)), score_bits: score.to_bits() })
    };
    assert!(m(0.5).equals(m(0.5)));
    assert!(!m(0.5).equals(m(0.25)));
    assert!(m(0.0).equals(m(-0.0)));
    assert!(!m(f64::NAN).equals(m(f64::NAN)));
    assert!(m(0.5) == m(0.5));
    let moved = JsMatch::from(Match { position: point(9, 2), rect: Rect::new(point(0, 0), size(3, 4)), score_bits: 0.5f64.to_bits() });
    assert!(!m(0.5).equals(moved));
}

#[test]
fn progress_is_done_when_finished() {
    let matching = JsFindImageProgress::from(FindImageProgress { stage: FindImageStage::Matching, percent: 40 });
    assert!(!matching.finished());
    assert_eq!(matching.finished(), matching.is_done());
    let done = JsFindImageProgress::from(FindImageProgress { stage: FindImageStage::Finished, percent: 100 });
    assert!(done.finished());
    assert_eq!(done.finished(), done.is_done());
}

#[test]
fn equal_pixels_rotate_alike() {
    let a = Color::new(10, 200, 30, 255);
    let img = Image::from_pixels(3, 1, vec![a, Color::new(1, 1, 1, 1), a]).unwrap();
    let r = img.hue_rotated(200);
    assert_eq!(r.as_pixels()[0], r.as_pixels()[2]);
}
