//! Integer points of the mouse and input layer.

use vstd::prelude::*;

use crate::text::{append_signed_decimal, push_char, signed_decimal};

verus! {

/// A point with integer coordinates.
#[derive(Clone, Copy, Debug, PartialEq, Eq, Structural)]
pub struct Point {
    /// Horizontal coordinate.
    pub x: i32,
    /// Vertical coordinate.
    pub y: i32,
}

/// One coordinate of the unit vector closest to `(c, d)`, rounded to the
/// nearest integer: `c / |(c, d)|` lies in `[-1, 1]`, and its magnitude is at
/// least one half exactly when `4c² >= c² + d²`, that is `3c² >= d²`; equality
/// only holds at the origin, so no value lies halfway.
pub open spec fn unit_component(c: int, d: int) -> int {
    if 3 * (c * c) > d * d {
        if c > 0 {
            1
        } else {
            -1
        }
    } else {
        0
    }
}

/// The text of a point: `x:y`.
pub open spec fn point_text(p: Point) -> Seq<char> {
    signed_decimal(p.x as int) + seq![':'] + signed_decimal(p.y as int)
}

/// The square of an `i32` in `i128` arithmetic.
fn square(c: i32) -> (r: i128)
    ensures
        r as int == c as int * c as int,
        0 <= r <= 0x4000_0000_0000_0000,
{
    assert(0 <= c as int * c as int <= 0x4000_0000_0000_0000) by (nonlinear_arith)
        requires
            i32::MIN <= c <= i32::MAX,
    ;
    (c as i128) * (c as i128)
}

fn unit_component_exec(c: i32, d: i32) -> (r: i32)
    ensures
        r as int == unit_component(c as int, d as int),
{
    let c2: i128 = square(c);
    let d2: i128 = square(d);
    if 3 * c2 > d2 {
        if c > 0 {
            1
        } else {
            -1
        }
    } else {
        0
    }
}

impl Point {
    /// Creates a point.
    pub fn new(x: i32, y: i32) -> (p: Self)
        ensures
            p == (Point { x, y }),
    {
        Point { x, y }
    }

    /// The point of length one (or the origin) pointing the same way as this
    /// one, with each coordinate rounded to the nearest integer.
    pub fn normalize(self) -> (p: Self)
        ensures
            p.x == unit_component(self.x as int, self.y as int),
            p.y == unit_component(self.y as int, self.x as int),
    {
        Point { x: unit_component_exec(self.x, self.y), y: unit_component_exec(self.y, self.x) }
    }

    /// Whether this point is the origin.
    pub fn is_origin(&self) -> (b: bool)
        ensures
            b == (self.x == 0 && self.y == 0),
    {
        self.x == 0 && self.y == 0
    }

    /// The text of this point: `x:y`.
    pub fn to_display_string(&self) -> (s: String)
        ensures
            s@ == point_text(*self),
    {
        let mut s = String::new();
        append_signed_decimal(&mut s, self.x as i64);
        push_char(&mut s, ':');
        append_signed_decimal(&mut s, self.y as i64);
        assert(s@ =~= point_text(*self));
        s
    }
}

/// Normalizing gives coordinates in `{-1, 0, 1}`, keeps the sign of each
/// coordinate, and maps the origin to itself.
pub proof fn law_normalize_is_unit(c: int, d: int)
    ensures
        -1 <= unit_component(c, d) <= 1,
        unit_component(c, d) > 0 ==> c > 0,
        unit_component(c, d) < 0 ==> c < 0,
        unit_component(0, 0) == 0,
{
    assert(c == 0 ==> c * c == 0) by (nonlinear_arith);
    assert(d * d >= 0) by (nonlinear_arith);
}

/// Normalizing a point on an axis gives the unit point on that axis.
pub proof fn law_normalize_axis(c: int)
    requires
        c != 0,
    ensures
        unit_component(c, 0) == if c > 0 { 1int } else { -1int },
        unit_component(0, c) == 0,
{
    assert(3 * (c * c) > 0) by (nonlinear_arith)
        requires
            c != 0,
    ;
}

} // verus!
