//! RGBA colors with 8-bit channels and their script-facing wrapper.

use vstd::prelude::*;
use vstd::std_specs::convert::{FromSpec, FromSpecImpl};

use crate::text::{append_decimal, decimal};

verus! {

/// The RGBA pixel type of the `image` crate, whose single public field holds
/// the four channels.
#[verifier::external_type_specification]
pub struct ExRgba<T>(::image::Rgba<T>);

/// An RGBA color with 8-bit channels.
#[derive(Clone, Copy, Debug, PartialEq, Eq, Structural, Hash)]
pub struct Color {
    /// Red channel.
    pub r: u8,
    /// Green channel.
    pub g: u8,
    /// Blue channel.
    pub b: u8,
    /// Alpha channel.
    pub a: u8,
}

impl Color {
    /// Creates a color from its four channels.
    pub fn new(r: u8, g: u8, b: u8, a: u8) -> (c: Self)
        ensures
            c == (Color { r, g, b, a }),
    {
        Color { r, g, b, a }
    }
}

impl From<::image::Rgba<u8>> for Color {
    fn from(value: ::image::Rgba<u8>) -> (c: Color) {
        Color { r: value.0[0], g: value.0[1], b: value.0[2], a: value.0[3] }
    }
}

impl FromSpecImpl<::image::Rgba<u8>> for Color {
    open spec fn obeys_from_spec() -> bool {
        true
    }

    open spec fn from_spec(v: ::image::Rgba<u8>) -> Color {
        Color { r: v.0[0], g: v.0[1], b: v.0[2], a: v.0[3] }
    }
}

impl From<Color> for ::image::Rgba<u8> {
    fn from(value: Color) -> (p: ::image::Rgba<u8>) {
        ::image::Rgba([value.r, value.g, value.b, value.a])
    }
}

impl FromSpecImpl<Color> for ::image::Rgba<u8> {
    open spec fn obeys_from_spec() -> bool {
        true
    }

    open spec fn from_spec(v: Color) -> ::image::Rgba<u8> {
        ::image::Rgba([v.r, v.g, v.b, v.a])
    }
}

/// Something that can be turned into a color: a color, a script color, or
/// its four channels.
#[derive(Clone, Copy, Debug)]
pub struct JsColorLike(pub Color);

impl JsColorLike {
    /// The color a script gives by its channels, as three or four numbers
    /// or as an object with `r`, `g`, `b` and an optional `a`: fully opaque
    /// when no alpha is given.
    pub fn from_channels(r: u8, g: u8, b: u8, a: Option<u8>) -> (c: Self)
        ensures
            c.0 == (Color {
                r,
                g,
                b,
                a: match a {
                    Some(v) => v,
                    None => 255,
                },
            }),
    {
        let alpha = match a {
            Some(v) => v,
            None => 255,
        };
        JsColorLike(Color { r, g, b, a: alpha })
    }

    /// The color a script gives as a script color.
    pub fn from_js_color(color: JsColor) -> (c: Self)
        ensures
            c.0 == color.inner,
    {
        JsColorLike(color.inner)
    }
}

/// The script-facing color class.
#[derive(Clone, Copy, Debug, PartialEq, Eq, Structural)]
pub struct JsColor {
    /// The color held.
    pub inner: Color,
}

/// The text of a color as shown to scripts: `"(r, g, b, a)"`.
pub open spec fn color_text(c: Color) -> Seq<char> {
    seq!['('] + decimal(c.r as nat) + seq![',', ' '] + decimal(c.g as nat) + seq![',', ' ']
        + decimal(c.b as nat) + seq![',', ' '] + decimal(c.a as nat) + seq![')']
}

impl JsColor {
    /// The color this script color holds.
    pub open spec fn color(&self) -> Color {
        self.inner
    }

    /// Creates a color from its four channels.
    pub fn new(r: u8, g: u8, b: u8, a: u8) -> (c: Self)
        ensures
            c.color() == (Color { r, g, b, a }),
    {
        JsColor { inner: Color { r, g, b, a } }
    }

    /// Creates a color from anything color-like.
    pub fn new_js(color: JsColorLike) -> (c: Self)
        ensures
            c.color() == color.0,
    {
        JsColor { inner: color.0 }
    }

    /// The red channel.
    pub fn get_r(&self) -> (v: u8)
        ensures
            v == self.color().r,
    {
        self.inner.r
    }

    /// Sets the red channel.
    pub fn set_r(&mut self, r: u8)
        ensures
            final(self).color() == (Color { r, ..old(self).color() }),
    {
        self.inner.r = r;
    }

    /// The green channel.
    pub fn get_g(&self) -> (v: u8)
        ensures
            v == self.color().g,
    {
        self.inner.g
    }

    /// Sets the green channel.
    pub fn set_g(&mut self, g: u8)
        ensures
            final(self).color() == (Color { g, ..old(self).color() }),
    {
        self.inner.g = g;
    }

    /// The blue channel.
    pub fn get_b(&self) -> (v: u8)
        ensures
            v == self.color().b,
    {
        self.inner.b
    }

    /// Sets the blue channel.
    pub fn set_b(&mut self, b: u8)
        ensures
            final(self).color() == (Color { b, ..old(self).color() }),
    {
        self.inner.b = b;
    }

    /// The alpha channel.
    pub fn get_a(&self) -> (v: u8)
        ensures
            v == self.color().a,
    {
        self.inner.a
    }

    /// Sets the alpha channel.
    pub fn set_a(&mut self, a: u8)
        ensures
            final(self).color() == (Color { a, ..old(self).color() }),
    {
        self.inner.a = a;
    }

    /// Returns `true` if both colors have the same r, g, b and a values.
    pub fn equals(&self, other: Self) -> (b: bool)
        ensures
            b == (self.color() == other.color()),
    {
        self.inner.r == other.inner.r && self.inner.g == other.inner.g && self.inner.b
            == other.inner.b && self.inner.a == other.inner.a
    }

    /// The text of this color: `"(r, g, b, a)"`.
    pub fn to_string_js(&self) -> (s: String)
        ensures
            s@ == color_text(self.color()),
    {
        let mut s = String::new();
        s.append("(");
        append_decimal(&mut s, self.inner.r as u64);
        s.append(", ");
        append_decimal(&mut s, self.inner.g as u64);
        s.append(", ");
        append_decimal(&mut s, self.inner.b as u64);
        s.append(", ");
        append_decimal(&mut s, self.inner.a as u64);
        s.append(")");
        proof {
            reveal_strlit("(");
            reveal_strlit(", ");
            reveal_strlit(")");
        }
        assert(s@ =~= color_text(self.color()));
        s
    }

    /// Returns a copy of this color.
    pub fn clone_js(&self) -> (c: Self)
        ensures
            c == *self,
    {
        *self
    }
}

impl From<Color> for JsColor {
    fn from(value: Color) -> (c: JsColor) {
        JsColor { inner: value }
    }
}

impl FromSpecImpl<Color> for JsColor {
    open spec fn obeys_from_spec() -> bool {
        true
    }

    open spec fn from_spec(v: Color) -> JsColor {
        JsColor { inner: v }
    }
}

impl From<JsColor> for Color {
    fn from(value: JsColor) -> (c: Color) {
        value.inner
    }
}

impl FromSpecImpl<JsColor> for Color {
    open spec fn obeys_from_spec() -> bool {
        true
    }

    open spec fn from_spec(v: JsColor) -> Color {
        v.inner
    }
}

impl From<::image::Rgba<u8>> for JsColor {
    fn from(value: ::image::Rgba<u8>) -> (c: JsColor) {
        JsColor { inner: Color { r: value.0[0], g: value.0[1], b: value.0[2], a: value.0[3] } }
    }
}

impl FromSpecImpl<::image::Rgba<u8>> for JsColor {
    open spec fn obeys_from_spec() -> bool {
        true
    }

    open spec fn from_spec(v: ::image::Rgba<u8>) -> JsColor {
        JsColor { inner: Color { r: v.0[0], g: v.0[1], b: v.0[2], a: v.0[3] } }
    }
}

impl From<JsColor> for ::image::Rgba<u8> {
    fn from(value: JsColor) -> (p: ::image::Rgba<u8>) {
        ::image::Rgba([value.inner.r, value.inner.g, value.inner.b, value.inner.a])
    }
}

impl FromSpecImpl<JsColor> for ::image::Rgba<u8> {
    open spec fn obeys_from_spec() -> bool {
        true
    }

    open spec fn from_spec(v: JsColor) -> ::image::Rgba<u8> {
        ::image::Rgba([v.inner.r, v.inner.g, v.inner.b, v.inner.a])
    }
}

/// Converting a color to a script color and back gives the same color, and
/// so does converting it to an RGBA pixel and back.
pub proof fn law_color_round_trips(c: Color)
    ensures
        <Color as FromSpec<JsColor>>::from_spec(<JsColor as FromSpec<Color>>::from_spec(c)) == c,
        <Color as FromSpec<::image::Rgba<u8>>>::from_spec(
            <::image::Rgba<u8> as FromSpec<Color>>::from_spec(c),
        ) == c,
{
}

} // verus!
