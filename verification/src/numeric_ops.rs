//! Saturating arithmetic on `Si32` and `Su32`.
//!
//! Addition, subtraction, multiplication and negation clamp their
//! mathematical result into the type's range; division reports a zero
//! divisor as an error instead of panicking.

use core::cmp::Ordering;

use vstd::prelude::*;
use vstd::std_specs::cmp::{PartialEqSpecImpl, PartialOrdSpecImpl};
use vstd::std_specs::convert::IntoSpec;
use vstd::std_specs::ops::{
    AddSpec, AddSpecImpl, MulSpec, MulSpecImpl, NegSpec, NegSpecImpl, SubSpec, SubSpecImpl,
};

use crate::numeric::{clamp_i32, clamp_i64_to_i32, clamp_i64_to_u32, clamp_u32, Si32, Su32};

verus! {

/// Builds an `Si32` from anything that converts into one.
pub fn si32<T: Into<Si32>>(value: T) -> (r: Si32)
    ensures
        <T as IntoSpec<Si32>>::obeys_into_spec() ==> r == value.into_spec(),
{
    value.into()
}

/// Builds an `Su32` from anything that converts into one.
pub fn su32<T: Into<Su32>>(value: T) -> (r: Su32)
    ensures
        <T as IntoSpec<Su32>>::obeys_into_spec() ==> r == value.into_spec(),
{
    value.into()
}

/// Saturating `Si32` built from a mathematical value.
pub open spec fn si32_of(v: int) -> Si32 {
    Si32 { value: clamp_i32(v) as i32 }
}

/// Saturating `Su32` built from a mathematical value.
pub open spec fn su32_of(v: int) -> Su32 {
    Su32 { value: clamp_u32(v) as u32 }
}

/// Product of two `i32` values in `i64` arithmetic.
fn mul_i32_wide(a: i32, b: i32) -> (r: i64)
    ensures
        r as int == a as int * b as int,
{
    assert(-0x4000_0000_0000_0000 <= a as int * b as int <= 0x4000_0000_0000_0000) by (nonlinear_arith)
        requires
            i32::MIN <= a <= i32::MAX,
            i32::MIN <= b <= i32::MAX,
    ;
    (a as i64) * (b as i64)
}

/// Product of two `u32` values in `u64` arithmetic.
fn mul_u32_wide(a: u32, b: u32) -> (r: u64)
    ensures
        r as int == a as int * b as int,
{
    assert(0 <= a as int * b as int <= 0xffff_ffff_ffff_ffff) by (nonlinear_arith)
        requires
            0 <= a <= u32::MAX,
            0 <= b <= u32::MAX,
    ;
    (a as u64) * (b as u64)
}

impl core::ops::Add<Si32> for Si32 {
    type Output = Si32;

    fn add(self, rhs: Si32) -> (r: Si32) {
        Si32 { value: clamp_i64_to_i32(self.value as i64 + rhs.value as i64) }
    }
}

impl AddSpecImpl<Si32> for Si32 {
    open spec fn obeys_add_spec() -> bool {
        true
    }

    open spec fn add_req(self, rhs: Si32) -> bool {
        true
    }

    open spec fn add_spec(self, rhs: Si32) -> Si32 {
        si32_of(self@ + rhs@)
    }
}

impl core::ops::Sub<Si32> for Si32 {
    type Output = Si32;

    fn sub(self, rhs: Si32) -> (r: Si32) {
        Si32 { value: clamp_i64_to_i32(self.value as i64 - rhs.value as i64) }
    }
}

impl SubSpecImpl<Si32> for Si32 {
    open spec fn obeys_sub_spec() -> bool {
        true
    }

    open spec fn sub_req(self, rhs: Si32) -> bool {
        true
    }

    open spec fn sub_spec(self, rhs: Si32) -> Si32 {
        si32_of(self@ - rhs@)
    }
}

impl core::ops::Mul<Si32> for Si32 {
    type Output = Si32;

    fn mul(self, rhs: Si32) -> (r: Si32) {
        Si32 { value: clamp_i64_to_i32(mul_i32_wide(self.value, rhs.value)) }
    }
}

impl MulSpecImpl<Si32> for Si32 {
    open spec fn obeys_mul_spec() -> bool {
        true
    }

    open spec fn mul_req(self, rhs: Si32) -> bool {
        true
    }

    open spec fn mul_spec(self, rhs: Si32) -> Si32 {
        si32_of(self@ * rhs@)
    }
}

impl core::ops::Neg for Si32 {
    type Output = Si32;

    fn neg(self) -> (r: Si32) {
        Si32 { value: clamp_i64_to_i32(-(self.value as i64)) }
    }
}

impl NegSpecImpl for Si32 {
    open spec fn obeys_neg_spec() -> bool {
        true
    }

    open spec fn neg_req(self) -> bool {
        true
    }

    open spec fn neg_spec(self) -> Si32 {
        si32_of(-self@)
    }
}

impl core::ops::Add<Su32> for Si32 {
    type Output = Si32;

    fn add(self, rhs: Su32) -> (r: Si32) {
        Si32 { value: clamp_i64_to_i32(self.value as i64 + rhs.value as i64) }
    }
}

impl AddSpecImpl<Su32> for Si32 {
    open spec fn obeys_add_spec() -> bool {
        true
    }

    open spec fn add_req(self, rhs: Su32) -> bool {
        true
    }

    open spec fn add_spec(self, rhs: Su32) -> Si32 {
        si32_of(self@ + rhs@)
    }
}

impl core::ops::Sub<Su32> for Si32 {
    type Output = Si32;

    fn sub(self, rhs: Su32) -> (r: Si32) {
        Si32 { value: clamp_i64_to_i32(self.value as i64 - rhs.value as i64) }
    }
}

impl SubSpecImpl<Su32> for Si32 {
    open spec fn obeys_sub_spec() -> bool {
        true
    }

    open spec fn sub_req(self, rhs: Su32) -> bool {
        true
    }

    open spec fn sub_spec(self, rhs: Su32) -> Si32 {
        si32_of(self@ - rhs@)
    }
}

impl core::ops::Add<u32> for Su32 {
    type Output = Su32;

    fn add(self, rhs: u32) -> (r: Su32) {
        Su32 { value: clamp_i64_to_u32(self.value as i64 + rhs as i64) }
    }
}

impl AddSpecImpl<u32> for Su32 {
    open spec fn obeys_add_spec() -> bool {
        true
    }

    open spec fn add_req(self, rhs: u32) -> bool {
        true
    }

    open spec fn add_spec(self, rhs: u32) -> Su32 {
        su32_of(self@ + rhs)
    }
}

impl core::ops::Sub<u32> for Su32 {
    type Output = Su32;

    fn sub(self, rhs: u32) -> (r: Su32) {
        Su32 { value: clamp_i64_to_u32(self.value as i64 - rhs as i64) }
    }
}

impl SubSpecImpl<u32> for Su32 {
    open spec fn obeys_sub_spec() -> bool {
        true
    }

    open spec fn sub_req(self, rhs: u32) -> bool {
        true
    }

    open spec fn sub_spec(self, rhs: u32) -> Su32 {
        su32_of(self@ - rhs)
    }
}

impl core::ops::Mul<u32> for Su32 {
    type Output = Su32;

    fn mul(self, rhs: u32) -> (r: Su32) {
        let p = mul_u32_wide(self.value, rhs);
        if p > u32::MAX as u64 {
            Su32 { value: u32::MAX }
        } else {
            Su32 { value: p as u32 }
        }
    }
}

impl MulSpecImpl<u32> for Su32 {
    open spec fn obeys_mul_spec() -> bool {
        true
    }

    open spec fn mul_req(self, rhs: u32) -> bool {
        true
    }

    open spec fn mul_spec(self, rhs: u32) -> Su32 {
        su32_of(self@ * rhs)
    }
}

impl core::ops::Add<Su32> for Su32 {
    type Output = Su32;

    fn add(self, rhs: Su32) -> (r: Su32) {
        Su32 { value: clamp_i64_to_u32(self.value as i64 + rhs.value as i64) }
    }
}

impl AddSpecImpl<Su32> for Su32 {
    open spec fn obeys_add_spec() -> bool {
        true
    }

    open spec fn add_req(self, rhs: Su32) -> bool {
        true
    }

    open spec fn add_spec(self, rhs: Su32) -> Su32 {
        su32_of(self@ + rhs@)
    }
}

impl core::ops::Mul<Su32> for Su32 {
    type Output = Su32;

    fn mul(self, rhs: Su32) -> (r: Su32) {
        let p = mul_u32_wide(self.value, rhs.value);
        if p > u32::MAX as u64 {
            Su32 { value: u32::MAX }
        } else {
            Su32 { value: p as u32 }
        }
    }
}

impl MulSpecImpl<Su32> for Su32 {
    open spec fn obeys_mul_spec() -> bool {
        true
    }

    open spec fn mul_req(self, rhs: Su32) -> bool {
        true
    }

    open spec fn mul_spec(self, rhs: Su32) -> Su32 {
        su32_of(self@ * rhs@)
    }
}

impl core::ops::AddAssign<Su32> for Si32 {
    fn add_assign(&mut self, rhs: Su32)
        ensures
            *final(self) == si32_of(old(self)@ + rhs@),
    {
        self.value = clamp_i64_to_i32(self.value as i64 + rhs.value as i64);
    }
}

impl core::ops::SubAssign<Su32> for Si32 {
    fn sub_assign(&mut self, rhs: Su32)
        ensures
            *final(self) == si32_of(old(self)@ - rhs@),
    {
        self.value = clamp_i64_to_i32(self.value as i64 - rhs.value as i64);
    }
}

impl core::ops::AddAssign<Si32> for Si32 {
    fn add_assign(&mut self, rhs: Si32)
        ensures
            *final(self) == si32_of(old(self)@ + rhs@),
    {
        self.value = clamp_i64_to_i32(self.value as i64 + rhs.value as i64);
    }
}

impl core::ops::SubAssign<Si32> for Si32 {
    fn sub_assign(&mut self, rhs: Si32)
        ensures
            *final(self) == si32_of(old(self)@ - rhs@),
    {
        self.value = clamp_i64_to_i32(self.value as i64 - rhs.value as i64);
    }
}

impl core::ops::MulAssign<Si32> for Si32 {
    fn mul_assign(&mut self, rhs: Si32)
        ensures
            *final(self) == si32_of(old(self)@ * rhs@),
    {
        self.value = clamp_i64_to_i32(mul_i32_wide(self.value, rhs.value));
    }
}

impl core::ops::AddAssign<u32> for Su32 {
    fn add_assign(&mut self, rhs: u32)
        ensures
            *final(self) == su32_of(old(self)@ + rhs),
    {
        self.value = clamp_i64_to_u32(self.value as i64 + rhs as i64);
    }
}

impl core::ops::SubAssign<u32> for Su32 {
    fn sub_assign(&mut self, rhs: u32)
        ensures
            *final(self) == su32_of(old(self)@ - rhs),
    {
        self.value = clamp_i64_to_u32(self.value as i64 - rhs as i64);
    }
}

impl core::ops::MulAssign<u32> for Su32 {
    fn mul_assign(&mut self, rhs: u32)
        ensures
            *final(self) == su32_of(old(self)@ * rhs),
    {
        let p = mul_u32_wide(self.value, rhs);
        self.value = if p > u32::MAX as u64 { u32::MAX } else { p as u32 };
    }
}

impl core::ops::AddAssign<Su32> for Su32 {
    fn add_assign(&mut self, rhs: Su32)
        ensures
            *final(self) == su32_of(old(self)@ + rhs@),
    {
        self.value = clamp_i64_to_u32(self.value as i64 + rhs.value as i64);
    }
}

impl core::ops::Sub<Su32> for Su32 {
    type Output = Su32;

    fn sub(self, rhs: Su32) -> (r: Su32) {
        Su32 { value: clamp_i64_to_u32(self.value as i64 - rhs.value as i64) }
    }
}

impl SubSpecImpl<Su32> for Su32 {
    open spec fn obeys_sub_spec() -> bool {
        true
    }

    open spec fn sub_req(self, rhs: Su32) -> bool {
        true
    }

    open spec fn sub_spec(self, rhs: Su32) -> Su32 {
        su32_of(self@ - rhs@)
    }
}

/// Saturating integers are ordered by their values.
impl PartialOrd for Si32 {
    fn partial_cmp(&self, other: &Self) -> (r: Option<Ordering>) {
        if self.value < other.value {
            Some(Ordering::Less)
        } else if self.value > other.value {
            Some(Ordering::Greater)
        } else {
            Some(Ordering::Equal)
        }
    }
}

impl PartialOrdSpecImpl for Si32 {
    open spec fn obeys_partial_cmp_spec() -> bool {
        true
    }

    open spec fn partial_cmp_spec(&self, other: &Self) -> Option<Ordering> {
        if self.value < other.value {
            Some(Ordering::Less)
        } else if self.value > other.value {
            Some(Ordering::Greater)
        } else {
            Some(Ordering::Equal)
        }
    }
}

impl PartialEq<u32> for Su32 {
    fn eq(&self, rhs: &u32) -> (r: bool) {
        self.value == *rhs
    }
}

impl PartialEqSpecImpl<u32> for Su32 {
    open spec fn obeys_eq_spec() -> bool {
        true
    }

    open spec fn eq_spec(&self, rhs: &u32) -> bool {
        self.value == *rhs
    }
}

/// Error of a saturating division.
#[derive(Clone, Copy, Debug, PartialEq, Eq, Structural)]
pub enum DivisionError {
    /// The divisor is zero.
    DivideByZero,
}

/// Division that reports a zero divisor instead of panicking.
pub trait TryDiv<Rhs = Self>: Sized {
    /// The quotient type.
    type Output;

    /// The error type.
    type Error;

    /// Divides `self` by `rhs`.
    fn try_div(self, rhs: Rhs) -> Result<Self::Output, Self::Error>;
}

/// In-place division that reports a zero divisor instead of panicking.
pub trait TryDivAssign<Rhs = Self> {
    /// The error type.
    type Error;

    /// Divides `self` by `rhs` in place.
    fn try_div_assign(&mut self, rhs: Rhs) -> Result<(), Self::Error>;
}

impl TryDiv<Su32> for Su32 {
    type Output = Su32;

    type Error = DivisionError;

    fn try_div(self, rhs: Su32) -> (r: Result<Su32, DivisionError>)
        ensures
            rhs@ == 0 ==> r == Err::<Su32, DivisionError>(DivisionError::DivideByZero),
            rhs@ != 0 ==> r == Ok::<Su32, DivisionError>(Su32 { value: (self@ / rhs@) as u32 }),
    {
        if rhs.value == 0 {
            return Err(DivisionError::DivideByZero);
        }
        Ok(Su32 { value: self.value / rhs.value })
    }
}

impl TryDivAssign<Su32> for Su32 {
    type Error = DivisionError;

    fn try_div_assign(&mut self, rhs: Su32) -> (r: Result<(), DivisionError>)
        ensures
            rhs@ == 0 ==> r == Err::<(), DivisionError>(DivisionError::DivideByZero)
                && *final(self) == *old(self),
            rhs@ != 0 ==> r == Ok::<(), DivisionError>(()) && final(self)@ == old(self)@ / rhs@,
    {
        if rhs.value == 0 {
            return Err(DivisionError::DivideByZero);
        }
        self.value = self.value / rhs.value;
        Ok(())
    }
}

impl TryDiv<u32> for Su32 {
    type Output = Su32;

    type Error = DivisionError;

    fn try_div(self, rhs: u32) -> (r: Result<Su32, DivisionError>)
        ensures
            rhs == 0 ==> r == Err::<Su32, DivisionError>(DivisionError::DivideByZero),
            rhs != 0 ==> r == Ok::<Su32, DivisionError>(Su32 { value: (self@ / rhs as int) as u32 }),
    {
        if rhs == 0 {
            return Err(DivisionError::DivideByZero);
        }
        Ok(Su32 { value: self.value / rhs })
    }
}

impl TryDivAssign<u32> for Su32 {
    type Error = DivisionError;

    fn try_div_assign(&mut self, rhs: u32) -> (r: Result<(), DivisionError>)
        ensures
            rhs == 0 ==> r == Err::<(), DivisionError>(DivisionError::DivideByZero)
                && *final(self) == *old(self),
            rhs != 0 ==> r == Ok::<(), DivisionError>(()) && final(self)@ == old(self)@ / rhs as int,
    {
        if rhs == 0 {
            return Err(DivisionError::DivideByZero);
        }
        self.value = self.value / rhs;
        Ok(())
    }
}

/// Saturating addition of `Si32` values is commutative.
pub proof fn law_si32_add_commutative(a: Si32, b: Si32)
    ensures
        AddSpec::add_spec(a, b) == AddSpec::add_spec(b, a),
{
}

/// Zero is the identity of saturating addition.
pub proof fn law_si32_add_zero(a: Si32)
    ensures
        AddSpec::add_spec(a, Si32 { value: 0 }) == a,
{
}

/// Saturating multiplication of `Si32` values is commutative, and
/// multiplying by zero gives zero.
pub proof fn law_si32_mul_commutative(a: Si32, b: Si32)
    ensures
        MulSpec::mul_spec(a, b) == MulSpec::mul_spec(b, a),
        MulSpec::mul_spec(a, Si32 { value: 0 }) == (Si32 { value: 0 }),
{
    assert(a@ * b@ == b@ * a@) by (nonlinear_arith);
}

/// Negating twice gives back the value, except for `i32::MIN`, whose
/// negation saturates to `i32::MAX`.
pub proof fn law_si32_neg_involutive(a: Si32)
    requires
        a.value != i32::MIN,
    ensures
        NegSpec::neg_spec(NegSpec::neg_spec(a)) == a,
{
}

/// Adding an unsigned amount never decreases a signed value, and
/// subtracting one never increases it.
pub proof fn law_si32_unsigned_offsets_are_monotone(a: Si32, b: Su32)
    ensures
        AddSpec::add_spec(a, b)@ >= a@,
        SubSpec::sub_spec(a, b)@ <= a@,
{
}

/// Subtracting then adding the same amount from an `Su32` gives the larger
/// of the two values: the subtraction saturates at zero.
pub proof fn law_su32_sub_then_add(a: Su32, b: u32)
    ensures
        AddSpec::add_spec(SubSpec::sub_spec(a, b), b)@ == if a@ >= b { a@ } else { b as int },
{
}

/// Saturating addition is monotone in its left operand.
pub proof fn law_si32_add_monotone(a: Si32, b: Si32, c: Si32)
    requires
        a@ <= b@,
    ensures
        AddSpec::add_spec(a, c)@ <= AddSpec::add_spec(b, c)@,
{
}

} // verus!
