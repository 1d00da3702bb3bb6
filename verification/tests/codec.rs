use actiona::codec::{format_for_extension, ImageFileFormat};
use actiona::color::Color;
use actiona::js_image::JsImage;
use actiona::raster::Image;

fn sample() -> Image {
    let pixels = vec![
        Color::new(255, 0, 0, 255),
        Color::new(0, 255, 0, 128),
        Color::new(0, 0, 255, 0),
        Color::new(1, 2, 3, 4),
        Color::new(9, 8, 7, 6),
        Color::new(200, 100, 50, 25),
    ];
    Image::from_pixels(3, 2, pixels).unwrap()
}

#[test]
fn png_round_trip() {
    let img = sample();
    let bytes = img.encode(Some("png")).unwrap();
    assert_eq!(&bytes[1..4], b"PNG");
    let back = Image::from_bytes(&bytes).unwrap();
    assert_eq!((back.width(), back.height()), (3, 2));
    assert_eq!(back.as_pixels(), img.as_pixels());
    assert_eq!(img.encode(Some("PnG")).unwrap(), bytes);
    let js = JsImage::from_bytes(&bytes).unwrap();
    assert_eq!(js.encode(Some("apng")).unwrap(), bytes);
}

#[test]
fn unknown_extensions_are_refused() {
    assert_eq!(
        sample().encode(Some("xyz")).unwrap_err(),
        "The file extension `.\"xyz\"` was not recognized as an image format"
    );
    assert_eq!(sample().encode(None).unwrap_err(), "The image format could not be determined");
}

#[test]
fn garbage_does_not_decode() {
    assert!(Image::from_bytes(&[1, 2, 3, 4, 5]).is_err());
    assert!(Image::from_bytes(&[]).is_err());
}

#[test]
fn extensions_name_formats() {
    assert_eq!(format_for_extension("png"), Some(ImageFileFormat::Png));
    assert_eq!(format_for_extension("JPEG"), Some(ImageFileFormat::Jpeg));
    assert_eq!(format_for_extension("Jfif"), Some(ImageFileFormat::Jpeg));
    assert_eq!(format_for_extension("tif"), Some(ImageFileFormat::Tiff));
    assert_eq!(format_for_extension("pgm"), Some(ImageFileFormat::Pnm));
    assert_eq!(format_for_extension("ff"), Some(ImageFileFormat::Farbfeld));
    assert_eq!(format_for_extension("exr"), Some(ImageFileFormat::OpenExr));
    assert_eq!(format_for_extension("pngx"), None);
    assert_eq!(format_for_extension(""), None);
}
