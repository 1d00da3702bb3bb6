//! Image files as bytes: decoding them into an RGBA image, and encoding an
//! image in the format that a file extension names. The pixels are decoded
//! and encoded by `image`; this module lays them out and states what each
//! step gives.

use std::io::Cursor;

use image::error::{ImageError, ImageFormatHint};
use image::{DynamicImage, ImageFormat, ImageReader, RgbaImage};
use vstd::prelude::*;

use crate::color::Color;
use crate::js_image::JsImage;
use crate::raster::{buffer_fits, Image};
use crate::text::chars_of;

verus! {

/// The image file formats that `image` tells apart by file extension.
#[derive(Clone, Copy, Debug, PartialEq, Eq, Structural)]
pub enum ImageFileFormat {
    /// PNG.
    Png,
    /// JPEG.
    Jpeg,
    /// GIF.
    Gif,
    /// WebP.
    WebP,
    /// The PNM family (PBM, PGM, PPM, PAM).
    Pnm,
    /// TIFF.
    Tiff,
    /// TGA.
    Tga,
    /// DDS.
    Dds,
    /// BMP.
    Bmp,
    /// ICO.
    Ico,
    /// Radiance HDR.
    Hdr,
    /// OpenEXR.
    OpenExr,
    /// Farbfeld.
    Farbfeld,
    /// AVIF.
    Avif,
    /// QOI.
    Qoi,
}

/// Whether `e` is the lower-case word `t` written in any case of its ASCII
/// letters (`t` being lower case).
pub open spec fn lower_is(e: Seq<char>, t: Seq<char>) -> bool {
    &&& e.len() == t.len()
    &&& forall|i: int|
        0 <= i < e.len() ==> e[i] == t[i] || ('A' <= e[i] && e[i] <= 'Z' && e[i] as u32 + 32
            == t[i] as u32)
}

/// The format that a file extension names, whatever the case of its
/// letters, as `image`'s `ImageFormat::from_extension` reads it.
pub open spec fn extension_format(e: Seq<char>) -> Option<ImageFileFormat> {
    if lower_is(e, "avif"@) {
        Some(ImageFileFormat::Avif)
    } else if lower_is(e, "jpg"@) || lower_is(e, "jpeg"@) || lower_is(e, "jfif"@) {
        Some(ImageFileFormat::Jpeg)
    } else if lower_is(e, "png"@) || lower_is(e, "apng"@) {
        Some(ImageFileFormat::Png)
    } else if lower_is(e, "gif"@) {
        Some(ImageFileFormat::Gif)
    } else if lower_is(e, "webp"@) {
        Some(ImageFileFormat::WebP)
    } else if lower_is(e, "tif"@) || lower_is(e, "tiff"@) {
        Some(ImageFileFormat::Tiff)
    } else if lower_is(e, "tga"@) {
        Some(ImageFileFormat::Tga)
    } else if lower_is(e, "dds"@) {
        Some(ImageFileFormat::Dds)
    } else if lower_is(e, "bmp"@) {
        Some(ImageFileFormat::Bmp)
    } else if lower_is(e, "ico"@) {
        Some(ImageFileFormat::Ico)
    } else if lower_is(e, "hdr"@) {
        Some(ImageFileFormat::Hdr)
    } else if lower_is(e, "exr"@) {
        Some(ImageFileFormat::OpenExr)
    } else if lower_is(e, "pbm"@) || lower_is(e, "pam"@) || lower_is(e, "ppm"@) || lower_is(e, "pgm"@)
        || lower_is(e, "pnm"@) {
        Some(ImageFileFormat::Pnm)
    } else if lower_is(e, "ff"@) {
        Some(ImageFileFormat::Farbfeld)
    } else if lower_is(e, "qoi"@) {
        Some(ImageFileFormat::Qoi)
    } else {
        None
    }
}

/// Whether the characters `e` spell the lower-case word `t` in any case.
fn lower_matches(e: &Vec<char>, t: &str) -> (r: bool)
    ensures
        r == lower_is(e@, t@),
{
    let w = chars_of(t);
    if e.len() != w.len() {
        return false;
    }
    let mut i: usize = 0;
    while i < e.len()
        invariant
            i <= e.len(),
            e.len() == w.len(),
            w@ == t@,
            forall|k: int|
                0 <= k < i ==> e@[k] == w@[k] || ('A' <= e@[k] && e@[k] <= 'Z' && e@[k] as u32 + 32
                    == w@[k] as u32),
        decreases e.len() - i,
    {
        let c = e[i];
        let d = w[i];
        if !(c == d || ('A' <= c && c <= 'Z' && c as u32 + 32 == d as u32)) {
            return false;
        }
        i = i + 1;
    }
    true
}

/// The format that a file extension names, if any.
pub fn format_for_extension(extension: &str) -> (r: Option<ImageFileFormat>)
    ensures
        r == extension_format(extension@),
{
    let e = chars_of(extension);
    if lower_matches(&e, "avif") {
        Some(ImageFileFormat::Avif)
    } else if lower_matches(&e, "jpg") || lower_matches(&e, "jpeg") || lower_matches(&e, "jfif") {
        Some(ImageFileFormat::Jpeg)
    } else if lower_matches(&e, "png") || lower_matches(&e, "apng") {
        Some(ImageFileFormat::Png)
    } else if lower_matches(&e, "gif") {
        Some(ImageFileFormat::Gif)
    } else if lower_matches(&e, "webp") {
        Some(ImageFileFormat::WebP)
    } else if lower_matches(&e, "tif") || lower_matches(&e, "tiff") {
        Some(ImageFileFormat::Tiff)
    } else if lower_matches(&e, "tga") {
        Some(ImageFileFormat::Tga)
    } else if lower_matches(&e, "dds") {
        Some(ImageFileFormat::Dds)
    } else if lower_matches(&e, "bmp") {
        Some(ImageFileFormat::Bmp)
    } else if lower_matches(&e, "ico") {
        Some(ImageFileFormat::Ico)
    } else if lower_matches(&e, "hdr") {
        Some(ImageFileFormat::Hdr)
    } else if lower_matches(&e, "exr") {
        Some(ImageFileFormat::OpenExr)
    } else if lower_matches(&e, "pbm") || lower_matches(&e, "pam") || lower_matches(&e, "ppm")
        || lower_matches(&e, "pgm") || lower_matches(&e, "pnm") {
        Some(ImageFileFormat::Pnm)
    } else if lower_matches(&e, "ff") {
        Some(ImageFileFormat::Farbfeld)
    } else if lower_matches(&e, "qoi") {
        Some(ImageFileFormat::Qoi)
    } else {
        None
    }
}

/// What `image` decodes from the bytes of an image file, its format guessed
/// from its content: the width, the height and the RGBA bytes row by row,
/// or the text of its error.
pub uninterp spec fn decoded_rgba(bytes: Seq<u8>) -> Result<(u32, u32, Seq<u8>), Seq<char>>;

/// What `image` encodes a `width` by `height` RGBA image into, in `format`:
/// the bytes of the file, or the text of its error.
pub uninterp spec fn encoded_image(width: u32, height: u32, rgba: Seq<u8>, format: ImageFileFormat) -> Result<
    Seq<u8>,
    Seq<char>,
>;

/// The text of the error that `image` gives for a file name whose extension
/// names no format it knows, or that has no extension.
pub uninterp spec fn unknown_format_text(extension: Option<Seq<char>>) -> Seq<char>;

/// `ImageReader::with_guessed_format` and `decode` on the bytes, then
/// `into_rgba8`. Claims: the result is the named decoding; the RGBA bytes
/// are four per pixel (the crate's buffer holds four channels per pixel)
/// and so fit in memory.
#[verifier::external_body]
fn decode_rgba(bytes: &[u8]) -> (r: Result<(u32, u32, Vec<u8>), String>)
    ensures
        match r {
            Ok(t) => decoded_rgba(bytes@) == Ok::<(u32, u32, Seq<u8>), Seq<char>>((t.0, t.1, t.2@))
                && t.2.len() == 4 * t.0 * t.1 && buffer_fits(t.0 as int, t.1 as int),
            Err(m) => decoded_rgba(bytes@) == Err::<(u32, u32, Seq<u8>), Seq<char>>(m@),
        },
{
    let reader = ImageReader::new(Cursor::new(bytes)).with_guessed_format().map_err(|e| e.to_string())?;
    let img = reader.decode().map_err(|e| e.to_string())?.into_rgba8();
    let (width, height) = img.dimensions();
    Ok((width, height, img.into_raw()))
}

/// `ImageFormat::from_extension(extension)`, then `DynamicImage::write_to`
/// of the RGBA image in that format into a buffer. Claims: the extension
/// gives the format `extension_format` says (the crate lower-cases ASCII
/// letters and matches the same words), and the result is the named
/// encoding.
#[verifier::external_body]
fn encode_rgba(width: u32, height: u32, rgba: &Vec<u8>, extension: &str) -> (r: Result<Vec<u8>, String>)
    requires
        rgba.len() == 4 * width * height,
        extension_format(extension@) is Some,
    ensures
        match (r, encoded_image(width, height, rgba@, extension_format(extension@)->0)) {
            (Ok(v), Ok(w)) => v@ == w,
            (Err(m), Err(n)) => m@ == n,
            _ => false,
        },
{
    let format = ImageFormat::from_extension(extension).unwrap();
    let img = RgbaImage::from_raw(width, height, rgba.clone()).unwrap();
    let mut out = Cursor::new(Vec::new());
    match DynamicImage::ImageRgba8(img).write_to(&mut out, format) {
        Ok(()) => Ok(out.into_inner()),
        Err(e) => Err(e.to_string()),
    }
}

/// The text of `image`'s `ImageError::Unsupported` for a file extension,
/// or for no extension, as `ImageFormat::from_path` builds it. Claims: the
/// result is the named text.
#[verifier::external_body]
fn unknown_format_error(extension: Option<&str>) -> (m: String)
    ensures
        m@ == unknown_format_text(
            match extension {
                Some(e) => Some(e@),
                None => None,
            },
        ),
{
    let hint = match extension {
        Some(e) => ImageFormatHint::PathExtension(e.into()),
        None => ImageFormatHint::Unknown,
    };
    ImageError::Unsupported(hint.into()).to_string()
}

/// The colors of RGBA bytes, four bytes per pixel.
pub open spec fn rgba_colors(px: Seq<u8>) -> Seq<Color> {
    Seq::new(
        px.len() / 4,
        |i: int| Color { r: px[4 * i], g: px[4 * i + 1], b: px[4 * i + 2], a: px[4 * i + 3] },
    )
}

/// Channel `j` (red, green, blue, then alpha) of a color.
pub open spec fn channel(c: Color, j: int) -> u8 {
    if j == 0 {
        c.r
    } else if j == 1 {
        c.g
    } else if j == 2 {
        c.b
    } else {
        c.a
    }
}

/// The RGBA bytes of colors, four bytes per pixel.
pub open spec fn color_bytes(pixels: Seq<Color>) -> Seq<u8> {
    Seq::new(4 * pixels.len(), |k: int| channel(pixels[k / 4], k % 4))
}

/// The format of a file extension, when there is one that names a format.
pub open spec fn format_of(extension: Option<Seq<char>>) -> Option<ImageFileFormat> {
    match extension {
        Some(e) => extension_format(e),
        None => None,
    }
}

/// The text of an optional string slice.
pub open spec fn opt_text(s: Option<&str>) -> Option<Seq<char>> {
    match s {
        Some(v) => Some(v@),
        None => None,
    }
}

impl Image {
    /// The image in the bytes of an image file, its format guessed from its
    /// content; the error is the decoder's.
    pub fn from_bytes(bytes: &[u8]) -> (r: Result<Image, String>)
        ensures
            match decoded_rgba(bytes@) {
                Ok(d) => r matches Ok(img) && img.w() == d.0 && img.h() == d.1 && img.pixels()
                    == rgba_colors(d.2),
                Err(e) => r matches Err(m) && m@ == e,
            },
    {
        match decode_rgba(bytes) {
            Ok((width, height, raw)) => {
                let ghost n: int = width * height;
                assert(4 * width * height == 4 * n) by (nonlinear_arith)
                    requires
                        n == width * height,
                ;
                let mut pixels: Vec<Color> = Vec::new();
                let mut i: usize = 0;
                let count: usize = raw.len() / 4;
                while i < count
                    invariant
                        i <= count,
                        count == raw.len() / 4,
                        raw.len() == 4 * n,
                        pixels.len() == i,
                        forall|k: int| 0 <= k < i ==> pixels@[k] == rgba_colors(raw@)[k],
                    decreases count - i,
                {
                    let c = Color { r: raw[4 * i], g: raw[4 * i + 1], b: raw[4 * i + 2], a: raw[4 * i + 3] };
                    pixels.push(c);
                    i = i + 1;
                }
                assert(pixels@ =~= rgba_colors(raw@));
                match Image::from_pixels(width, height, pixels) {
                    Some(img) => Ok(img),
                    None => {
                        proof {
                            assert(false);
                        }
                        Err(String::new())
                    },
                }
            },
            Err(m) => Err(m),
        }
    }

    /// The bytes of this image as a file in the format that `extension`
    /// names (a file name's extension, if it has one), encoded by `image`.
    /// Fails, as `image` does, when there is no extension or it names no
    /// format, or when the format cannot be written.
    pub fn encode(&self, extension: Option<&str>) -> (r: Result<Vec<u8>, String>)
        ensures
            match format_of(opt_text(extension)) {
                None => r matches Err(m) && m@ == unknown_format_text(opt_text(extension)),
                Some(f) => match encoded_image(
                    self.w() as u32,
                    self.h() as u32,
                    color_bytes(self.pixels()),
                    f,
                ) {
                    Ok(b) => r matches Ok(v) && v@ == b,
                    Err(e) => r matches Err(m) && m@ == e,
                },
            },
    {
        let ext = match extension {
            Some(e) => e,
            None => return Err(unknown_format_error(None)),
        };
        if format_for_extension(ext).is_none() {
            return Err(unknown_format_error(Some(ext)));
        }
        let pixels = self.as_pixels();
        let mut raw: Vec<u8> = Vec::new();
        let mut i: usize = 0;
        while i < pixels.len()
            invariant
                i <= pixels.len(),
                pixels@ == self.pixels(),
                raw.len() == 4 * i,
                forall|k: int| 0 <= k < 4 * i ==> raw@[k] == channel(pixels@[k / 4], k % 4),
            decreases pixels.len() - i,
        {
            let c = pixels[i];
            let ghost before = raw@;
            raw.push(c.r);
            raw.push(c.g);
            raw.push(c.b);
            raw.push(c.a);
            assert forall|k: int| 0 <= k < 4 * (i + 1) implies raw@[k] == channel(pixels@[k / 4], k % 4) by {
                if k >= 4 * i {
                    assert(k / 4 == i as int && k % 4 == k - 4 * i) by (nonlinear_arith)
                        requires
                            4 * i <= k < 4 * i + 4,
                    ;
                } else {
                    assert(raw@[k] == before[k]);
                }
            }
            i = i + 1;
        }
        assert(raw@ =~= color_bytes(self.pixels()));
        assert(raw.len() == 4 * self.w() * self.h()) by (nonlinear_arith)
            requires
                raw.len() == 4 * pixels.len(),
                pixels.len() == self.w() * self.h(),
        ;
        encode_rgba(self.width(), self.height(), &raw, ext)
    }
}

impl JsImage {
    /// The image in the bytes of an image file, as `Image::from_bytes`
    /// reads it.
    pub fn from_bytes(bytes: &[u8]) -> (r: Result<JsImage, String>)
        ensures
            match decoded_rgba(bytes@) {
                Ok(d) => r matches Ok(img) && img.image().w() == d.0 && img.image().h() == d.1
                    && img.image().pixels() == rgba_colors(d.2),
                Err(e) => r matches Err(m) && m@ == e,
            },
    {
        match Image::from_bytes(bytes) {
            Ok(img) => Ok(JsImage::new(img)),
            Err(m) => Err(m),
        }
    }

    /// The bytes of this image as a file in the format that `extension`
    /// names, as `Image::encode` gives them.
    pub fn encode(&self, extension: Option<&str>) -> (r: Result<Vec<u8>, String>)
        ensures
            match format_of(opt_text(extension)) {
                None => r matches Err(m) && m@ == unknown_format_text(opt_text(extension)),
                Some(f) => match encoded_image(
                    self.image().w() as u32,
                    self.image().h() as u32,
                    color_bytes(self.image().pixels()),
                    f,
                ) {
                    Ok(b) => r matches Ok(v) && v@ == b,
                    Err(e) => r matches Err(m) && m@ == e,
                },
            },
    {
        self.to_inner().encode(extension)
    }
}

} // verus!
