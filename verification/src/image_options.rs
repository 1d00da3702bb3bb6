//! Options of the image operations, and their script-facing forms.

use vstd::prelude::*;
use vstd::std_specs::convert::{FromSpec, FromSpecImpl};

use crate::color::{Color, JsColor};
use crate::geometry::{Point, Rect};
use crate::raster::FlipDirection;

verus! {

/// Direction to flip an image, as scripts name it.
#[derive(Clone, Copy, Debug, PartialEq, Eq, Structural)]
pub enum JsFlipDirection {
    /// `FlipDirection.Horizontal`.
    Horizontal,
    /// `FlipDirection.Vertical`.
    Vertical,
}

impl From<JsFlipDirection> for FlipDirection {
    fn from(value: JsFlipDirection) -> (r: FlipDirection) {
        match value {
            JsFlipDirection::Horizontal => FlipDirection::Horizontal,
            JsFlipDirection::Vertical => FlipDirection::Vertical,
        }
    }
}

impl FromSpecImpl<JsFlipDirection> for FlipDirection {
    open spec fn obeys_from_spec() -> bool {
        true
    }

    open spec fn from_spec(v: JsFlipDirection) -> FlipDirection {
        match v {
            JsFlipDirection::Horizontal => FlipDirection::Horizontal,
            JsFlipDirection::Vertical => FlipDirection::Vertical,
        }
    }
}

/// Filter used when resizing an image.
#[derive(Clone, Copy, Debug, PartialEq, Eq, Structural)]
pub enum ResizeFilter {
    /// Nearest neighbour.
    Nearest,
    /// Linear (triangle) filter.
    Linear,
    /// Cubic (Catmull-Rom) filter.
    Cubic,
    /// Gaussian filter.
    Gaussian,
    /// Lanczos filter with a window of 3.
    Lanczos3,
}

/// Resize filter, as scripts name it.
#[derive(Clone, Copy, Debug, PartialEq, Eq, Structural)]
pub enum JsResizeFilter {
    /// `ResizeFilter.Nearest`.
    Nearest,
    /// `ResizeFilter.Linear`.
    Linear,
    /// `ResizeFilter.Cubic`.
    Cubic,
    /// `ResizeFilter.Gaussian`.
    Gaussian,
    /// `ResizeFilter.Lanczos3`.
    Lanczos3,
}

impl From<JsResizeFilter> for ResizeFilter {
    fn from(value: JsResizeFilter) -> (r: ResizeFilter) {
        match value {
            JsResizeFilter::Nearest => ResizeFilter::Nearest,
            JsResizeFilter::Linear => ResizeFilter::Linear,
            JsResizeFilter::Cubic => ResizeFilter::Cubic,
            JsResizeFilter::Gaussian => ResizeFilter::Gaussian,
            JsResizeFilter::Lanczos3 => ResizeFilter::Lanczos3,
        }
    }
}

impl FromSpecImpl<JsResizeFilter> for ResizeFilter {
    open spec fn obeys_from_spec() -> bool {
        true
    }

    open spec fn from_spec(v: JsResizeFilter) -> ResizeFilter {
        match v {
            JsResizeFilter::Nearest => ResizeFilter::Nearest,
            JsResizeFilter::Linear => ResizeFilter::Linear,
            JsResizeFilter::Cubic => ResizeFilter::Cubic,
            JsResizeFilter::Gaussian => ResizeFilter::Gaussian,
            JsResizeFilter::Lanczos3 => ResizeFilter::Lanczos3,
        }
    }
}

/// Interpolation used when rotating an image.
#[derive(Clone, Copy, Debug, PartialEq, Eq, Structural)]
pub enum Interpolation {
    /// Nearest neighbour.
    Nearest,
    /// Bilinear interpolation.
    Bilinear,
    /// Bicubic interpolation.
    Bicubic,
}

/// Interpolation, as scripts name it.
#[derive(Clone, Copy, Debug, PartialEq, Eq, Structural)]
pub enum JsInterpolation {
    /// `Interpolation.Nearest`.
    Nearest,
    /// `Interpolation.Bilinear`.
    Bilinear,
    /// `Interpolation.Bicubic`.
    Bicubic,
}

impl From<JsInterpolation> for Interpolation {
    fn from(value: JsInterpolation) -> (r: Interpolation) {
        match value {
            JsInterpolation::Nearest => Interpolation::Nearest,
            JsInterpolation::Bilinear => Interpolation::Bilinear,
            JsInterpolation::Bicubic => Interpolation::Bicubic,
        }
    }
}

impl FromSpecImpl<JsInterpolation> for Interpolation {
    open spec fn obeys_from_spec() -> bool {
        true
    }

    open spec fn from_spec(v: JsInterpolation) -> Interpolation {
        match v {
            JsInterpolation::Nearest => Interpolation::Nearest,
            JsInterpolation::Bilinear => Interpolation::Bilinear,
            JsInterpolation::Bicubic => Interpolation::Bicubic,
        }
    }
}

/// Horizontal alignment of drawn text.
#[derive(Clone, Copy, Debug, PartialEq, Eq, Structural)]
pub enum TextHorizontalAlign {
    /// Aligned on the left.
    Left,
    /// Centered.
    Center,
    /// Aligned on the right.
    Right,
}

/// Horizontal text alignment, as scripts name it.
#[derive(Clone, Copy, Debug, PartialEq, Eq, Structural)]
pub enum JsTextHorizontalAlign {
    /// `TextHorizontalAlign.Left`.
    Left,
    /// `TextHorizontalAlign.Center`.
    Center,
    /// `TextHorizontalAlign.Right`.
    Right,
}

impl From<JsTextHorizontalAlign> for TextHorizontalAlign {
    fn from(value: JsTextHorizontalAlign) -> (r: TextHorizontalAlign) {
        match value {
            JsTextHorizontalAlign::Left => TextHorizontalAlign::Left,
            JsTextHorizontalAlign::Center => TextHorizontalAlign::Center,
            JsTextHorizontalAlign::Right => TextHorizontalAlign::Right,
        }
    }
}

impl FromSpecImpl<JsTextHorizontalAlign> for TextHorizontalAlign {
    open spec fn obeys_from_spec() -> bool {
        true
    }

    open spec fn from_spec(v: JsTextHorizontalAlign) -> TextHorizontalAlign {
        match v {
            JsTextHorizontalAlign::Left => TextHorizontalAlign::Left,
            JsTextHorizontalAlign::Center => TextHorizontalAlign::Center,
            JsTextHorizontalAlign::Right => TextHorizontalAlign::Right,
        }
    }
}

/// Vertical alignment of drawn text.
#[derive(Clone, Copy, Debug, PartialEq, Eq, Structural)]
pub enum TextVerticalAlign {
    /// Aligned on the top.
    Top,
    /// Centered vertically.
    Middle,
    /// Aligned on the bottom.
    Bottom,
}

/// Vertical text alignment, as scripts name it.
#[derive(Clone, Copy, Debug, PartialEq, Eq, Structural)]
pub enum JsTextVerticalAlign {
    /// `TextVerticalAlign.Top`.
    Top,
    /// `TextVerticalAlign.Middle`.
    Middle,
    /// `TextVerticalAlign.Bottom`.
    Bottom,
}

impl From<JsTextVerticalAlign> for TextVerticalAlign {
    fn from(value: JsTextVerticalAlign) -> (r: TextVerticalAlign) {
        match value {
            JsTextVerticalAlign::Top => TextVerticalAlign::Top,
            JsTextVerticalAlign::Middle => TextVerticalAlign::Middle,
            JsTextVerticalAlign::Bottom => TextVerticalAlign::Bottom,
        }
    }
}

impl FromSpecImpl<JsTextVerticalAlign> for TextVerticalAlign {
    open spec fn obeys_from_spec() -> bool {
        true
    }

    open spec fn from_spec(v: JsTextVerticalAlign) -> TextVerticalAlign {
        match v {
            JsTextVerticalAlign::Top => TextVerticalAlign::Top,
            JsTextVerticalAlign::Middle => TextVerticalAlign::Middle,
            JsTextVerticalAlign::Bottom => TextVerticalAlign::Bottom,
        }
    }
}

/// Options of a resize.
#[derive(Clone, Copy, Debug, PartialEq, Eq, Structural)]
pub struct ResizeOptions {
    /// Keep the aspect ratio of the image.
    pub keep_aspect_ratio: bool,
    /// The filter used.
    pub filter: ResizeFilter,
}

impl Default for ResizeOptions {
    fn default() -> (r: Self)
        ensures
            r == (ResizeOptions { keep_aspect_ratio: false, filter: ResizeFilter::Cubic }),
    {
        ResizeOptions { keep_aspect_ratio: false, filter: ResizeFilter::Cubic }
    }
}

/// Options of a resize, as scripts give them.
#[derive(Clone, Copy, Debug, PartialEq, Eq, Structural)]
pub struct JsResizeOptions {
    /// Keep the aspect ratio of the image.
    pub keep_aspect_ratio: bool,
    /// The filter used.
    pub filter: JsResizeFilter,
}

impl Default for JsResizeOptions {
    fn default() -> (r: Self)
        ensures
            r == (JsResizeOptions { keep_aspect_ratio: false, filter: JsResizeFilter::Cubic }),
    {
        JsResizeOptions { keep_aspect_ratio: false, filter: JsResizeFilter::Cubic }
    }
}

impl From<JsResizeOptions> for ResizeOptions {
    fn from(value: JsResizeOptions) -> (r: ResizeOptions) {
        ResizeOptions { keep_aspect_ratio: value.keep_aspect_ratio, filter: ResizeFilter::from(value.filter) }
    }
}

impl FromSpecImpl<JsResizeOptions> for ResizeOptions {
    open spec fn obeys_from_spec() -> bool {
        true
    }

    open spec fn from_spec(v: JsResizeOptions) -> ResizeOptions {
        ResizeOptions {
            keep_aspect_ratio: v.keep_aspect_ratio,
            filter: <ResizeFilter as FromSpec<JsResizeFilter>>::from_spec(v.filter),
        }
    }
}

/// Options of drawing one image onto another.
#[derive(Clone, Copy, Debug, PartialEq, Eq, Structural)]
pub struct DrawImageOptions {
    /// The part of the source image to draw; the whole image when absent.
    pub source_rect: Option<Rect>,
}

impl Default for DrawImageOptions {
    fn default() -> (r: Self)
        ensures
            r.source_rect is None,
    {
        DrawImageOptions { source_rect: None }
    }
}

/// Options of drawing one image onto another, as scripts give them.
#[derive(Clone, Copy, Debug, PartialEq, Eq, Structural)]
pub struct JsDrawImageOptions {
    /// The part of the source image to draw; the whole image when absent.
    pub source_rect: Option<Rect>,
}

impl Default for JsDrawImageOptions {
    fn default() -> (r: Self)
        ensures
            r.source_rect is None,
    {
        JsDrawImageOptions { source_rect: None }
    }
}

impl From<JsDrawImageOptions> for DrawImageOptions {
    fn from(value: JsDrawImageOptions) -> (r: DrawImageOptions) {
        DrawImageOptions { source_rect: value.source_rect }
    }
}

impl FromSpecImpl<JsDrawImageOptions> for DrawImageOptions {
    open spec fn obeys_from_spec() -> bool {
        true
    }

    open spec fn from_spec(v: JsDrawImageOptions) -> DrawImageOptions {
        DrawImageOptions { source_rect: v.source_rect }
    }
}

/// Options of a rotation.
#[derive(Clone, Copy, Debug, PartialEq, Eq, Structural)]
pub struct RotationOptions {
    /// The interpolation used.
    pub interpolation: Interpolation,
    /// The center of the rotation; the center of the image when absent.
    pub center: Option<Point>,
    /// The color of the pixels that the rotation uncovers.
    pub default_color: Color,
}

impl Default for RotationOptions {
    fn default() -> (r: Self)
        ensures
            r == (RotationOptions {
                interpolation: Interpolation::Bilinear,
                center: None,
                default_color: Color { r: 0, g: 0, b: 0, a: 255 },
            }),
    {
        RotationOptions {
            interpolation: Interpolation::Bilinear,
            center: None,
            default_color: Color::new(0, 0, 0, 255),
        }
    }
}

/// Options of a rotation, as scripts give them.
#[derive(Clone, Copy, Debug, PartialEq, Eq, Structural)]
pub struct JsRotationOptions {
    /// The interpolation used.
    pub interpolation: JsInterpolation,
    /// The center of the rotation; the center of the image when absent.
    pub center: Option<Point>,
    /// The color of the pixels that the rotation uncovers.
    pub default_color: JsColor,
}

impl Default for JsRotationOptions {
    fn default() -> (r: Self)
        ensures
            r == (JsRotationOptions {
                interpolation: JsInterpolation::Bilinear,
                center: None,
                default_color: JsColor { inner: Color { r: 0, g: 0, b: 0, a: 255 } },
            }),
    {
        JsRotationOptions {
            interpolation: JsInterpolation::Bilinear,
            center: None,
            default_color: JsColor::new(0, 0, 0, 255),
        }
    }
}

impl From<JsRotationOptions> for RotationOptions {
    fn from(value: JsRotationOptions) -> (r: RotationOptions) {
        RotationOptions {
            interpolation: Interpolation::from(value.interpolation),
            center: value.center,
            default_color: value.default_color.inner,
        }
    }
}

impl FromSpecImpl<JsRotationOptions> for RotationOptions {
    open spec fn obeys_from_spec() -> bool {
        true
    }

    open spec fn from_spec(v: JsRotationOptions) -> RotationOptions {
        RotationOptions {
            interpolation: <Interpolation as FromSpec<JsInterpolation>>::from_spec(v.interpolation),
            center: v.center,
            default_color: v.default_color.inner,
        }
    }
}

/// Options of drawing a shape.
#[derive(Clone, Copy, Debug, PartialEq, Eq, Structural)]
pub struct DrawingOptions {
    /// Draw the outline only.
    pub hollow: bool,
}

impl Default for DrawingOptions {
    fn default() -> (r: Self)
        ensures
            !r.hollow,
    {
        DrawingOptions { hollow: false }
    }
}

/// Options of drawing a shape, as scripts give them.
#[derive(Clone, Copy, Debug, PartialEq, Eq, Structural)]
pub struct JsDrawingOptions {
    /// Draw the outline only.
    pub hollow: bool,
}

impl Default for JsDrawingOptions {
    fn default() -> (r: Self)
        ensures
            !r.hollow,
    {
        JsDrawingOptions { hollow: false }
    }
}

impl From<JsDrawingOptions> for DrawingOptions {
    fn from(value: JsDrawingOptions) -> (r: DrawingOptions) {
        DrawingOptions { hollow: value.hollow }
    }
}

impl FromSpecImpl<JsDrawingOptions> for DrawingOptions {
    open spec fn obeys_from_spec() -> bool {
        true
    }

    open spec fn from_spec(v: JsDrawingOptions) -> DrawingOptions {
        DrawingOptions { hollow: v.hollow }
    }
}

/// The options of drawing a shape that optional script options stand for:
/// the defaults when none are given.
pub open spec fn drawing_options_of(options: Option<JsDrawingOptions>) -> DrawingOptions {
    match options {
        Some(o) => DrawingOptions { hollow: o.hollow },
        None => DrawingOptions { hollow: false },
    }
}

/// The options of drawing an image that optional script options stand
/// for: the defaults when none are given.
pub open spec fn draw_image_options_of(options: Option<JsDrawImageOptions>) -> DrawImageOptions {
    match options {
        Some(o) => DrawImageOptions { source_rect: o.source_rect },
        None => DrawImageOptions { source_rect: None },
    }
}

} // verus!
