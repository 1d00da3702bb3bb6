//! Saturating integers: arithmetic never wraps and never panics.
//!
//! `Si32` is a signed 32-bit integer and `Su32` an unsigned one; every
//! operation clamps its mathematical result into the type's range.

use core::cmp::Ordering;

use vstd::prelude::*;
use vstd::std_specs::cmp::PartialOrdSpec;

verus! {

/// The mathematical value `v` clamped into `[i32::MIN, i32::MAX]`.
pub open spec fn clamp_i32(v: int) -> int {
    if v < i32::MIN {
        i32::MIN as int
    } else if v > i32::MAX {
        i32::MAX as int
    } else {
        v
    }
}

/// The mathematical value `v` clamped into `[0, u32::MAX]`.
pub open spec fn clamp_u32(v: int) -> int {
    if v < 0 {
        0
    } else if v > u32::MAX {
        u32::MAX as int
    } else {
        v
    }
}

/// Clamps an `i64` into the `i32` range.
pub fn clamp_i64_to_i32(v: i64) -> (r: i32)
    ensures
        r as int == clamp_i32(v as int),
{
    if v < i32::MIN as i64 {
        i32::MIN
    } else if v > i32::MAX as i64 {
        i32::MAX
    } else {
        v as i32
    }
}

/// Clamps an `i64` into the `u32` range.
pub fn clamp_i64_to_u32(v: i64) -> (r: u32)
    ensures
        r as int == clamp_u32(v as int),
{
    if v < 0 {
        0
    } else if v > u32::MAX as i64 {
        u32::MAX
    } else {
        v as u32
    }
}

/// Safe saturating and non-panicking signed integer.
#[derive(Clone, Copy, Debug, Default, PartialEq, Eq, Structural, Ord, Hash)]
pub struct Si32 {
    /// The plain value.
    pub value: i32,
}

/// The order of saturating integers is that of their values: one is below,
/// equal to or above another exactly when its value is.
pub proof fn law_si32_order(a: Si32, b: Si32)
    ensures
        (a.partial_cmp_spec(&b) == Some(Ordering::Less)) == (a.value < b.value),
        (a.partial_cmp_spec(&b) == Some(Ordering::Equal)) == (a.value == b.value),
        (a.partial_cmp_spec(&b) == Some(Ordering::Greater)) == (a.value > b.value),
{
}

/// Safe saturating and non-panicking unsigned integer.
#[derive(Clone, Copy, Debug, Default, PartialEq, Eq, Structural, PartialOrd, Ord, Hash)]
pub struct Su32 {
    /// The plain value.
    pub value: u32,
}

impl View for Si32 {
    type V = int;

    open spec fn view(&self) -> int {
        self.value as int
    }
}

impl View for Su32 {
    type V = int;

    open spec fn view(&self) -> int {
        self.value as int
    }
}

/// The value of an `Si32` always lies in the `i32` range, and two values are
/// equal exactly when their mathematical values are.
pub broadcast proof fn lemma_si32_view(a: Si32, b: Si32)
    ensures
        i32::MIN <= #[trigger] a@ <= i32::MAX,
        (a@ == #[trigger] b@) <==> a == b,
{
}

/// The value of an `Su32` always lies in the `u32` range, and two values are
/// equal exactly when their mathematical values are.
pub broadcast proof fn lemma_su32_view(a: Su32, b: Su32)
    ensures
        0 <= #[trigger] a@ <= u32::MAX,
        (a@ == #[trigger] b@) <==> a == b,
{
}

pub broadcast group group_numeric {
    lemma_si32_view,
    lemma_su32_view,
}

impl Si32 {
    /// The zero value.
    pub fn zero() -> (r: Self)
        ensures
            r@ == 0,
    {
        Si32 { value: 0 }
    }

    /// Wraps a plain `i32`.
    pub fn new(value: i32) -> (r: Self)
        ensures
            r@ == value as int,
    {
        Si32 { value }
    }

    /// Returns the plain `i32`.
    pub fn into_inner(self) -> (r: i32)
        ensures
            r as int == self@,
    {
        self.value
    }

    /// Saturating absolute value: `abs(i32::MIN)` is `i32::MAX`.
    pub fn abs(self) -> (r: Self)
        ensures
            r@ == clamp_i32(if self@ < 0 { -self@ } else { self@ }),
    {
        if self.value == i32::MIN {
            Si32 { value: i32::MAX }
        } else if self.value < 0 {
            Si32 { value: -self.value }
        } else {
            self
        }
    }

    /// Saturating absolute value as an unsigned integer.
    pub fn unsigned_abs(self) -> (r: Su32)
        ensures
            r@ == clamp_i32(if self@ < 0 { -self@ } else { self@ }),
    {
        let a = self.abs();
        Su32 { value: a.value as u32 }
    }
}

impl Su32 {
    /// The zero value.
    pub fn zero() -> (r: Self)
        ensures
            r@ == 0,
    {
        Su32 { value: 0 }
    }

    /// Wraps a plain `u32`.
    pub fn new(value: u32) -> (r: Self)
        ensures
            r@ == value as int,
    {
        Su32 { value }
    }

    /// Returns the plain `u32`.
    pub fn into_inner(self) -> (r: u32)
        ensures
            r as int == self@,
    {
        self.value
    }
}

} // verus!
