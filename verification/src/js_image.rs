//! The script-facing image class, and the results and progress reports of
//! image searches.

use vstd::prelude::*;
use vstd::std_specs::convert::FromSpecImpl;
use vstd::std_specs::cmp::PartialEqSpecImpl;

use crate::color::{Color, JsColor, JsColorLike};
use crate::display::DisplayFields;
use crate::geometry::{Point, Rect, Size};
use crate::drawing::{canvas_fits, circle_fits, ellipse_fits, keeps_blend_extremes, line_fits};
use crate::raster::{
    brightening_fits, brighten_color, buffer_fits, circle_drawn, crop_result, cross_pixels, draw_source,
    ellipse_drawn, line_drawn, flip_horizontal_source, flip_vertical_source, gray_color, invert_color, region,
    rectangle_drawable, rectangle_drawn, FlipDirection, Image, ImageError,
};
use crate::image_options::{
    draw_image_options_of, drawing_options_of, DrawImageOptions, DrawingOptions,
    JsDrawImageOptions, JsDrawingOptions, JsFlipDirection,
};
use crate::text::{decimal, decimal_string};

verus! {

/// The text of an image as shown to scripts: `Image(width: w, height: h)`.
pub open spec fn image_text(w: nat, h: nat) -> Seq<char> {
    seq!['I', 'm', 'a', 'g', 'e', '('] + seq!['w', 'i', 'd', 't', 'h', ':', ' '] + decimal(w) + seq![
        ',',
        ' ',
    ] + seq!['h', 'e', 'i', 'g', 'h', 't', ':', ' '] + decimal(h) + seq![')']
}

/// The script-facing image class.
#[derive(Debug)]
pub struct JsImage {
    inner: Image,
}

impl JsImage {
    /// The image held.
    pub closed spec fn image(&self) -> Image {
        self.inner
    }

    /// The image held.
    pub fn to_inner(&self) -> (r: &Image)
        ensures
            *r == self.image(),
    {
        &self.inner
    }

    /// The image held, taken out.
    pub fn into_inner(self) -> (r: Image)
        ensures
            r == self.image(),
    {
        self.inner
    }

    /// Wraps an image.
    pub fn new(inner: Image) -> (r: Self)
        ensures
            r.image() == inner,
    {
        JsImage { inner }
    }

    /// A new fully transparent black image.
    pub fn new_js(width: u32, height: u32) -> (r: Self)
        requires
            buffer_fits(width as int, height as int),
        ensures
            r.image().w() == width,
            r.image().h() == height,
            r.image().sized(),
            forall|i: int|
                0 <= i < r.image().pixels().len() ==> r.image().pixels()[i] == (Color {
                    r: 0,
                    g: 0,
                    b: 0,
                    a: 0,
                }),
    {
        JsImage { inner: Image::new(width, height) }
    }

    /// Width in pixels.
    pub fn width(&self) -> (w: u32)
        ensures
            w == self.image().w(),
    {
        self.inner.width()
    }

    /// Height in pixels.
    pub fn height(&self) -> (h: u32)
        ensures
            h == self.image().h(),
    {
        self.inner.height()
    }

    /// The size of the image.
    pub fn size(&self) -> (s: Size)
        ensures
            s.width@ == self.image().w(),
            s.height@ == self.image().h(),
    {
        self.inner.size()
    }

    /// Holds when both images have the same size and pixels.
    pub fn equals(&self, other: Self) -> (b: bool)
        ensures
            b == (self.image().w() == other.image().w() && self.image().h() == other.image().h()
                && self.image().pixels() == other.image().pixels()),
    {
        self.inner.same_as(&other.inner)
    }

    /// The text shown to scripts: `Image(width: w, height: h)`.
    pub fn to_string_js(&self) -> (s: String)
        ensures
            s@ == image_text(self.image().w() as nat, self.image().h() as nat),
    {
        let w = decimal_string(self.inner.width() as u64);
        let h = decimal_string(self.inner.height() as u64);
        let fields = DisplayFields::new().display("width", w.as_str()).display("height", h.as_str());
        let mut s = String::new();
        s.append("Image");
        fields.finish(&mut s);
        proof {
            reveal_strlit("Image");
            reveal_strlit("width");
            reveal_strlit("height");
        }
        assert(s@ =~= image_text(self.image().w() as nat, self.image().h() as nat));
        s
    }

    /// A copy of this image.
    pub fn clone_js(&self) -> (r: Self)
        ensures
            r.image().w() == self.image().w(),
            r.image().h() == self.image().h(),
            r.image().pixels() == self.image().pixels(),
    {
        JsImage { inner: self.inner.duplicate() }
    }

    /// A copy with inverted colors; alpha is kept.
    pub fn inverted_colors(&self) -> (r: Self)
        ensures
            r.image().w() == self.image().w(),
            r.image().h() == self.image().h(),
            r.image().pixels() == self.image().pixels().map_values(|c: Color| invert_color(c)),
    {
        JsImage { inner: self.inner.inverted() }
    }

    /// A mirrored copy.
    pub fn flipped(&self, flip_direction: JsFlipDirection) -> (r: Self)
        ensures
            r.image().w() == self.image().w(),
            r.image().h() == self.image().h(),
            flip_direction == JsFlipDirection::Horizontal ==> r.image().pixels() == Seq::new(
                self.image().pixels().len(),
                |i: int| self.image().pixels()[flip_horizontal_source(i, self.image().w())],
            ),
            flip_direction == JsFlipDirection::Vertical ==> r.image().pixels() == Seq::new(
                self.image().pixels().len(),
                |i: int|
                    self.image().pixels()[flip_vertical_source(
                        i,
                        self.image().w(),
                        self.image().h(),
                    )],
            ),
    {
        JsImage { inner: self.inner.flipped(FlipDirection::from(flip_direction)) }
    }

    /// A copy with hues rotated by `value` degrees, alpha kept; 0 degrees
    /// keeps the image.
    pub fn with_hue_rotation(&self, value: i32) -> (r: Self)
        ensures
            r.image().w() == self.image().w(),
            r.image().h() == self.image().h(),
            r.image().pixels().len() == self.image().pixels().len(),
            forall|i: int|
                0 <= i < r.image().pixels().len() ==> r.image().pixels()[i].a
                    == self.image().pixels()[i].a,
            value == 0 ==> r.image().pixels() == self.image().pixels(),
            forall|i: int, j: int|
                0 <= i < r.image().pixels().len() && 0 <= j < r.image().pixels().len()
                    && self.image().pixels()[i] == self.image().pixels()[j] ==> r.image().pixels()[i]
                    == r.image().pixels()[j],
    {
        JsImage { inner: self.inner.hue_rotated(value) }
    }

    /// A gray copy: each pixel takes the gray of its luma, alpha kept.
    pub fn with_grayscale(&self) -> (r: Self)
        ensures
            r.image().w() == self.image().w(),
            r.image().h() == self.image().h(),
            r.image().pixels() == self.image().pixels().map_values(|c: Color| gray_color(c)),
    {
        JsImage { inner: self.inner.grayscaled() }
    }

    /// The part of this image inside `rect`, clamped to non-negative
    /// coordinates and to the image.
    pub fn cropped(&self, rect: Rect) -> (r: Self)
        ensures
            r.image().pixels() == crop_result(self.image(), rect).2,
            r.image().w() == crop_result(self.image(), rect).0,
            r.image().h() == crop_result(self.image(), rect).1,
    {
        JsImage { inner: self.inner.cropped(rect) }
    }

    /// Whether every red, green and blue channel plus `value` fits in an
    /// `i32`, which `with_adjusted_brightness` needs.
    pub fn can_adjust_brightness(&self, value: i32) -> (b: bool)
        ensures
            b == brightening_fits(self.image().pixels(), value),
    {
        self.inner.fits_brightening(value)
    }

    /// A copy with red, green and blue moved by `value`, clamped into
    /// `[0, 255]`; alpha is kept.
    pub fn with_adjusted_brightness(&self, value: i32) -> (r: Self)
        requires
            brightening_fits(self.image().pixels(), value),
        ensures
            r.image().w() == self.image().w(),
            r.image().h() == self.image().h(),
            r.image().pixels() == self.image().pixels().map_values(
                |c: Color| brighten_color(c, value),
            ),
    {
        JsImage { inner: self.inner.adjusted_brightness(value) }
    }

    /// A copy filled with one color.
    pub fn filled(&self, color: JsColorLike) -> (r: Self)
        ensures
            r.image().w() == self.image().w(),
            r.image().h() == self.image().h(),
            r.image().pixels() == Seq::new(self.image().pixels().len(), |i: int| color.0),
    {
        JsImage { inner: self.inner.filled(color.0) }
    }

    /// The color of the pixel at `position`.
    pub fn get_pixel(&self, position: Point) -> (r: Result<JsColor, ImageError>)
        ensures
            self.image().inside(position) <==> r is Ok,
            r matches Ok(c) ==> c.inner == self.image().pixel_at(position.x@, position.y@),
            r matches Err(e) ==> e == ImageError::InvalidPosition,
    {
        match self.inner.get_pixel_color(position) {
            Ok(c) => Ok(JsColor { inner: c }),
            Err(e) => Err(e),
        }
    }

    /// A new image made of the part of this image inside `rect`.
    pub fn copy_region(&self, rect: Rect) -> (r: Result<Self, ImageError>)
        ensures
            match self.image().rect_error(rect) {
                Some(e) => r matches Err(f) && f == e,
                None => r matches Ok(img) && img.image().w() == rect.size.width@ && img.image().h()
                    == rect.size.height@ && img.image().pixels() == region(
                    self.image().pixels(),
                    self.image().w(),
                    rect.left(),
                    rect.top(),
                    rect.size.width@,
                    rect.size.height@,
                ),
            },
    {
        match self.inner.copy_region(rect) {
            Ok(img) => Ok(JsImage { inner: img }),
            Err(e) => Err(e),
        }
    }

    /// The rectangle covering the image, with its corner at the origin.
    pub fn rect(&self) -> (r: Rect)
        ensures
            r.left() == 0,
            r.top() == 0,
            r.size.width@ == self.image().w(),
            r.size.height@ == self.image().h(),
    {
        self.inner.bounds_rect()
    }

    /// A copy with a cross of `color` drawn centered on `position`.
    pub fn with_cross(&self, position: Point, color: JsColorLike) -> (r: Self)
        ensures
            r.image().w() == self.image().w(),
            r.image().h() == self.image().h(),
            r.image().pixels() == cross_pixels(
                self.image().pixels(),
                self.image().w(),
                self.image().h(),
                position.x@,
                position.y@,
                color.0,
            ),
    {
        JsImage { inner: self.inner.with_cross(position, color.0) }
    }

    /// A copy with a line of `color` from `start` to `end`.
    pub fn with_line(&self, start: Point, end: Point, color: JsColorLike) -> (r: Self)
        requires
            canvas_fits(self.image().w(), self.image().h()),
            line_fits(start.x@, start.y@, end.x@, end.y@),
        ensures
            r.image().w() == self.image().w(),
            r.image().h() == self.image().h(),
            line_drawn(self.image().pixels(), r.image().pixels(), self.image().w(), self.image().h(), start, end, color.0),
    {
        JsImage { inner: self.inner.with_line(start, end, color.0) }
    }

    /// A copy with a circle of `color` centered on `center`, filled unless
    /// the options ask for an outline.
    pub fn with_circle(
        &self,
        center: Point,
        radius: i32,
        color: JsColorLike,
        options: Option<JsDrawingOptions>,
    ) -> (r: Self)
        requires
            canvas_fits(self.image().w(), self.image().h()),
            circle_fits(center.x@, center.y@, radius as int),
        ensures
            r.image().w() == self.image().w(),
            r.image().h() == self.image().h(),
            r.image().pixels() == circle_drawn(
                self.image().pixels(),
                self.image().w(),
                self.image().h(),
                center,
                radius,
                color.0,
                drawing_options_of(options),
            ),
    {
        JsImage { inner: self.inner.with_circle(center, radius, color.0, drawing_options(options)) }
    }

    /// A copy with an ellipse of `color` centered on `center`, filled unless
    /// the options ask for an outline.
    pub fn with_ellipse(
        &self,
        center: Point,
        width_radius: i32,
        height_radius: i32,
        color: JsColorLike,
        options: Option<JsDrawingOptions>,
    ) -> (r: Self)
        requires
            canvas_fits(self.image().w(), self.image().h()),
            ellipse_fits(center.x@, center.y@, width_radius as int, height_radius as int),
        ensures
            r.image().w() == self.image().w(),
            r.image().h() == self.image().h(),
            ellipse_drawn(
                self.image().pixels(),
                r.image().pixels(),
                self.image().w(),
                self.image().h(),
                center,
                width_radius,
                height_radius,
                color.0,
                drawing_options_of(options),
            ),
    {
        JsImage {
            inner: self.inner.with_ellipse(
                center,
                width_radius,
                height_radius,
                color.0,
                drawing_options(options),
            ),
        }
    }

    /// A copy with `rect` drawn in `color`, filled unless the options ask for
    /// an outline; an empty rectangle is refused.
    pub fn with_rectangle(
        &self,
        rect: Rect,
        color: JsColorLike,
        options: Option<JsDrawingOptions>,
    ) -> (r: Result<Self, ImageError>)
        requires
            rectangle_drawable(self.image().w(), self.image().h(), rect, drawing_options_of(options)),
        ensures
            r is Err <==> (rect.size.width@ == 0 || rect.size.height@ == 0),
            r matches Err(e) ==> e == ImageError::EmptyRegion,
            r matches Ok(img) ==> img.image().w() == self.image().w() && img.image().h()
                == self.image().h() && rectangle_drawn(
                self.image().pixels(),
                self.image().w(),
                rect,
                color.0,
                drawing_options_of(options),
                img.image().pixels(),
            ),
    {
        match self.inner.with_rectangle(rect, color.0, drawing_options(options)) {
            Ok(img) => Ok(JsImage { inner: img }),
            Err(e) => Err(e),
        }
    }

    /// A copy with `image` (or the part of it inside the options' source
    /// rectangle) laid over it, corner at `position`.
    pub fn with_image(&self, position: Point, image: &JsImage, options: Option<JsDrawImageOptions>) -> (r:
        Result<Self, ImageError>)
        ensures
            match self.image().draw_image_error(
                position,
                image.image(),
                draw_image_options_of(options),
            ) {
                Some(e) => r matches Err(f) && f == e,
                None => r matches Ok(img) && img.image().w() == self.image().w() && img.image().h()
                    == self.image().h() && img.image().pixels() == self.image().image_drawn(
                    position,
                    image.image(),
                    draw_image_options_of(options),
                ) && keeps_blend_extremes(
                    self.image().pixels(),
                    self.image().w(),
                    draw_source(image.image(), draw_image_options_of(options)).0,
                    draw_source(image.image(), draw_image_options_of(options)).1,
                    draw_source(image.image(), draw_image_options_of(options)).2,
                    position.x@,
                    position.y@,
                    img.image().pixels(),
                ),
            },
    {
        let opts = draw_image_options(options);
        match self.inner.with_image(position, &image.inner, opts) {
            Ok(img) => Ok(JsImage { inner: img }),
            Err(e) => Err(e),
        }
    }
}

/// The options of drawing a shape that scripts' options stand for: the
/// defaults when none are given.
fn drawing_options(options: Option<JsDrawingOptions>) -> (r: DrawingOptions)
    ensures
        r == drawing_options_of(options),
{
    match options {
        Some(o) => DrawingOptions::from(o),
        None => DrawingOptions::default(),
    }
}

/// The options of drawing an image that scripts' options stand for: the
/// defaults when none are given.
fn draw_image_options(options: Option<JsDrawImageOptions>) -> (r: DrawImageOptions)
    ensures
        r == draw_image_options_of(options),
{
    match options {
        Some(o) => DrawImageOptions::from(o),
        None => DrawImageOptions::default(),
    }
}

impl From<Image> for JsImage {
    fn from(value: Image) -> (r: JsImage)
        ensures
            r.image() == value,
    {
        JsImage { inner: value }
    }
}

impl FromSpecImpl<Image> for JsImage {
    open spec fn obeys_from_spec() -> bool {
        true
    }

    closed spec fn from_spec(v: Image) -> JsImage {
        JsImage { inner: v }
    }
}

impl From<JsImage> for Image {
    fn from(value: JsImage) -> (r: Image)
        ensures
            r == value.image(),
    {
        value.inner
    }
}

impl FromSpecImpl<JsImage> for Image {
    open spec fn obeys_from_spec() -> bool {
        true
    }

    closed spec fn from_spec(v: JsImage) -> Image {
        v.inner
    }
}

/// The bits of a 64-bit float without its sign.
pub open spec fn magnitude_bits(bits: u64) -> int {
    bits as int % 0x8000_0000_0000_0000
}

/// Whether the bits are those of a NaN: all exponent bits set and a
/// non-zero fraction.
pub open spec fn is_nan_bits(bits: u64) -> bool {
    magnitude_bits(bits) > 0x7ff0_0000_0000_0000
}

/// Whether two 64-bit floats, given by their bits, compare equal: neither is
/// a NaN, and they are the same number (`0.0` and `-0.0` being equal).
pub open spec fn float_bits_equal(a: u64, b: u64) -> bool {
    &&& !is_nan_bits(a)
    &&& !is_nan_bits(b)
    &&& (a == b || (magnitude_bits(a) == 0 && magnitude_bits(b) == 0))
}

/// Compares two 64-bit floats given by their bits, as `==` on floats does.
fn float_bits_eq(a: u64, b: u64) -> (r: bool)
    ensures
        r == float_bits_equal(a, b),
{
    let ma = a % 0x8000_0000_0000_0000u64;
    let mb = b % 0x8000_0000_0000_0000u64;
    if ma > 0x7ff0_0000_0000_0000u64 || mb > 0x7ff0_0000_0000_0000u64 {
        return false;
    }
    a == b || (ma == 0 && mb == 0)
}

/// Whether two matches are equal: same position, same rectangle, and scores
/// that compare equal as floats.
pub open spec fn matches_equal(a: Match, b: Match) -> bool {
    a.position == b.position && a.rect == b.rect && float_bits_equal(a.score_bits, b.score_bits)
}

/// Where an image was found: its position, the rectangle it covers, and the
/// score of the match, kept as the bits of the floating-point number.
#[derive(Clone, Copy, Debug)]
pub struct Match {
    /// The position of the found image.
    pub position: Point,
    /// The rectangle the found image covers.
    pub rect: Rect,
    /// The bits of the score, from 0 (worst) to 1 (best).
    pub score_bits: u64,
}

impl PartialEq for Match {
    fn eq(&self, other: &Self) -> (r: bool) {
        self.position == other.position && self.rect == other.rect && float_bits_eq(
            self.score_bits,
            other.score_bits,
        )
    }
}

impl PartialEqSpecImpl for Match {
    open spec fn obeys_eq_spec() -> bool {
        true
    }

    open spec fn eq_spec(&self, other: &Self) -> bool {
        matches_equal(*self, *other)
    }
}

/// The script-facing form of a match.
#[derive(Clone, Copy, Debug)]
pub struct JsMatch {
    inner: Match,
}

impl PartialEq for JsMatch {
    fn eq(&self, other: &Self) -> (r: bool) {
        self.inner == other.inner
    }
}

impl PartialEqSpecImpl for JsMatch {
    open spec fn obeys_eq_spec() -> bool {
        true
    }

    open spec fn eq_spec(&self, other: &Self) -> bool {
        matches_equal(self.value(), other.value())
    }
}

impl JsMatch {
    /// The match held.
    pub closed spec fn value(&self) -> Match {
        self.inner
    }

    /// The position of the found image.
    pub fn position(&self) -> (p: Point)
        ensures
            p == self.value().position,
    {
        self.inner.position
    }

    /// The rectangle the found image covers.
    pub fn rect(&self) -> (r: Rect)
        ensures
            r == self.value().rect,
    {
        self.inner.rect
    }

    /// Holds when both matches are equal: same position and rectangle, and
    /// scores that compare equal as floats (never when one is a NaN).
    pub fn equals(&self, other: Self) -> (b: bool)
        ensures
            b == matches_equal(self.value(), other.value()),
    {
        *self == other
    }

    /// A copy of this match.
    pub fn clone_js(&self) -> (r: Self)
        ensures
            r == *self,
    {
        *self
    }

    /// The match held.
    pub fn inner(&self) -> (m: Match)
        ensures
            m == self.value(),
    {
        self.inner
    }
}

impl From<Match> for JsMatch {
    fn from(value: Match) -> (r: JsMatch)
        ensures
            r.value() == value,
    {
        JsMatch { inner: value }
    }
}

impl FromSpecImpl<Match> for JsMatch {
    open spec fn obeys_from_spec() -> bool {
        true
    }

    closed spec fn from_spec(v: Match) -> JsMatch {
        JsMatch { inner: v }
    }
}

/// The stages of an image search.
#[derive(Clone, Copy, Debug, PartialEq, Eq, Structural)]
pub enum FindImageStage {
    /// Capturing the screen.
    Capturing,
    /// Preparing the images.
    Preparing,
    /// Downscaling the images.
    Downscaling,
    /// Matching the template.
    Matching,
    /// Filtering the candidates.
    Filtering,
    /// Computing the results.
    ComputingResults,
    /// Done.
    Finished,
}

impl FindImageStage {
    /// Whether the search is over.
    pub fn is_finished(&self) -> (b: bool)
        ensures
            b == (*self == FindImageStage::Finished),
    {
        match self {
            FindImageStage::Finished => true,
            _ => false,
        }
    }
}

/// The stages of an image search, as scripts name them.
#[derive(Clone, Copy, Debug, PartialEq, Eq, Structural)]
pub enum JsFindImageStage {
    /// `FindImageStage.Capturing`.
    Capturing,
    /// `FindImageStage.Preparing`.
    Preparing,
    /// `FindImageStage.Downscaling`.
    Downscaling,
    /// `FindImageStage.Matching`.
    Matching,
    /// `FindImageStage.Filtering`.
    Filtering,
    /// `FindImageStage.ComputingResults`.
    ComputingResults,
    /// `FindImageStage.Finished`.
    Finished,
}

/// The script name of a stage.
pub open spec fn script_stage(s: FindImageStage) -> JsFindImageStage {
    match s {
        FindImageStage::Capturing => JsFindImageStage::Capturing,
        FindImageStage::Preparing => JsFindImageStage::Preparing,
        FindImageStage::Downscaling => JsFindImageStage::Downscaling,
        FindImageStage::Matching => JsFindImageStage::Matching,
        FindImageStage::Filtering => JsFindImageStage::Filtering,
        FindImageStage::ComputingResults => JsFindImageStage::ComputingResults,
        FindImageStage::Finished => JsFindImageStage::Finished,
    }
}

impl From<FindImageStage> for JsFindImageStage {
    fn from(value: FindImageStage) -> (r: JsFindImageStage) {
        match value {
            FindImageStage::Capturing => JsFindImageStage::Capturing,
            FindImageStage::Preparing => JsFindImageStage::Preparing,
            FindImageStage::Downscaling => JsFindImageStage::Downscaling,
            FindImageStage::Matching => JsFindImageStage::Matching,
            FindImageStage::Filtering => JsFindImageStage::Filtering,
            FindImageStage::ComputingResults => JsFindImageStage::ComputingResults,
            FindImageStage::Finished => JsFindImageStage::Finished,
        }
    }
}

impl FromSpecImpl<FindImageStage> for JsFindImageStage {
    open spec fn obeys_from_spec() -> bool {
        true
    }

    open spec fn from_spec(v: FindImageStage) -> JsFindImageStage {
        script_stage(v)
    }
}

/// How far an image search has come.
#[derive(Clone, Copy, Debug, PartialEq, Eq, Structural)]
pub struct FindImageProgress {
    /// The current stage.
    pub stage: FindImageStage,
    /// The completion, in percent.
    pub percent: u8,
}

/// The script-facing form of a search's progress.
#[derive(Clone, Copy, Debug, PartialEq, Eq, Structural)]
pub struct JsFindImageProgress {
    inner: FindImageProgress,
}

impl JsFindImageProgress {
    /// The progress held.
    pub closed spec fn value(&self) -> FindImageProgress {
        self.inner
    }

    /// The current stage.
    pub fn stage(&self) -> (s: JsFindImageStage)
        ensures
            s == script_stage(self.value().stage),
    {
        JsFindImageStage::from(self.inner.stage)
    }

    /// The completion, in percent.
    pub fn percent(&self) -> (p: u8)
        ensures
            p == self.value().percent,
    {
        self.inner.percent
    }

    /// Whether the search is over.
    pub fn finished(&self) -> (b: bool)
        ensures
            b == (self.value().stage == FindImageStage::Finished),
    {
        self.inner.stage.is_finished()
    }
}

/// A progress report that tells whether the work it reports on is over.
pub trait IsDone {
    /// Whether the work is over.
    fn is_done(&self) -> bool;
}

impl IsDone for JsFindImageProgress {
    fn is_done(&self) -> (b: bool)
        ensures
            b == (self.value().stage == FindImageStage::Finished),
    {
        self.inner.stage.is_finished()
    }
}

impl From<FindImageProgress> for JsFindImageProgress {
    fn from(value: FindImageProgress) -> (r: JsFindImageProgress)
        ensures
            r.value() == value,
    {
        JsFindImageProgress { inner: value }
    }
}

impl FromSpecImpl<FindImageProgress> for JsFindImageProgress {
    open spec fn obeys_from_spec() -> bool {
        true
    }

    closed spec fn from_spec(v: FindImageProgress) -> JsFindImageProgress {
        JsFindImageProgress { inner: v }
    }
}

/// An identifier of a window.
#[derive(Clone, Copy, Debug, PartialEq, Eq, Structural)]
pub struct WindowId(pub u64);

/// The screen area that an image search looks in.
#[derive(Clone, Copy, Debug, PartialEq, Eq, Structural)]
pub enum SearchIn {
    /// The whole desktop: the bounding rectangle of all displays.
    Desktop,
    /// One display, by its identifier.
    Display(u32),
    /// A rectangle of the screen.
    Rect(Rect),
    /// One window.
    Window(WindowId),
}

} // verus!
