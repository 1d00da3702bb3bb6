//! Conversions between the saturating integers and plain integer types.
//! Narrowing conversions clamp to the destination range.

use vstd::prelude::*;
use vstd::std_specs::convert::{FromSpec, FromSpecImpl, TryFromSpecImpl};

use crate::numeric::{clamp_i32, clamp_i64_to_i32, clamp_i64_to_u32, clamp_u32, Si32, Su32};

verus! {

impl From<i32> for Si32 {
    fn from(value: i32) -> (r: Si32) {
        Si32 { value: value }
    }
}

impl FromSpecImpl<i32> for Si32 {
    open spec fn obeys_from_spec() -> bool {
        true
    }

    open spec fn from_spec(v: i32) -> Si32 {
        Si32 { value: v }
    }
}

impl From<Si32> for i32 {
    fn from(value: Si32) -> (r: i32) {
        value.value
    }
}

impl FromSpecImpl<Si32> for i32 {
    open spec fn obeys_from_spec() -> bool {
        true
    }

    open spec fn from_spec(v: Si32) -> i32 {
        v.value
    }
}

impl From<u32> for Si32 {
    fn from(value: u32) -> (r: Si32) {
        if value > (i32::MAX as u32) { Si32 { value: i32::MAX } } else { Si32 { value: value as i32 } }
    }
}

impl FromSpecImpl<u32> for Si32 {
    open spec fn obeys_from_spec() -> bool {
        true
    }

    open spec fn from_spec(v: u32) -> Si32 {
        if v > (i32::MAX as u32) { Si32 { value: i32::MAX } } else { Si32 { value: v as i32 } }
    }
}

impl From<Si32> for u32 {
    fn from(value: Si32) -> (r: u32) {
        if value.value < 0 { 0 } else { value.value as u32 }
    }
}

impl FromSpecImpl<Si32> for u32 {
    open spec fn obeys_from_spec() -> bool {
        true
    }

    open spec fn from_spec(v: Si32) -> u32 {
        if v.value < 0 { 0 } else { v.value as u32 }
    }
}

impl From<i16> for Si32 {
    fn from(value: i16) -> (r: Si32) {
        Si32 { value: value as i32 }
    }
}

impl FromSpecImpl<i16> for Si32 {
    open spec fn obeys_from_spec() -> bool {
        true
    }

    open spec fn from_spec(v: i16) -> Si32 {
        Si32 { value: v as i32 }
    }
}

impl From<Si32> for i16 {
    fn from(value: Si32) -> (r: i16) {
        if value.value < (i16::MIN as i32) { i16::MIN } else if value.value > (i16::MAX as i32) { i16::MAX } else { value.value as i16 }
    }
}

impl FromSpecImpl<Si32> for i16 {
    open spec fn obeys_from_spec() -> bool {
        true
    }

    open spec fn from_spec(v: Si32) -> i16 {
        if v.value < (i16::MIN as i32) { i16::MIN } else if v.value > (i16::MAX as i32) { i16::MAX } else { v.value as i16 }
    }
}

impl From<usize> for Si32 {
    fn from(value: usize) -> (r: Si32) {
        if value > (i32::MAX as usize) { Si32 { value: i32::MAX } } else { Si32 { value: value as i32 } }
    }
}

impl FromSpecImpl<usize> for Si32 {
    open spec fn obeys_from_spec() -> bool {
        true
    }

    open spec fn from_spec(v: usize) -> Si32 {
        if v > (i32::MAX as usize) { Si32 { value: i32::MAX } } else { Si32 { value: v as i32 } }
    }
}

impl From<i64> for Si32 {
    fn from(value: i64) -> (r: Si32) {
        Si32 { value: clamp_i64_to_i32(value) }
    }
}

impl FromSpecImpl<i64> for Si32 {
    open spec fn obeys_from_spec() -> bool {
        true
    }

    open spec fn from_spec(v: i64) -> Si32 {
        Si32 { value: clamp_i32(v as int) as i32 }
    }
}

impl From<Si32> for i64 {
    fn from(value: Si32) -> (r: i64) {
        value.value as i64
    }
}

impl FromSpecImpl<Si32> for i64 {
    open spec fn obeys_from_spec() -> bool {
        true
    }

    open spec fn from_spec(v: Si32) -> i64 {
        v.value as i64
    }
}

impl From<Su32> for Si32 {
    fn from(value: Su32) -> (r: Si32) {
        if value.value > (i32::MAX as u32) { Si32 { value: i32::MAX } } else { Si32 { value: value.value as i32 } }
    }
}

impl FromSpecImpl<Su32> for Si32 {
    open spec fn obeys_from_spec() -> bool {
        true
    }

    open spec fn from_spec(v: Su32) -> Si32 {
        if v.value > (i32::MAX as u32) { Si32 { value: i32::MAX } } else { Si32 { value: v.value as i32 } }
    }
}

impl From<Si32> for Su32 {
    fn from(value: Si32) -> (r: Su32) {
        if value.value < 0 { Su32 { value: 0 } } else { Su32 { value: value.value as u32 } }
    }
}

impl FromSpecImpl<Si32> for Su32 {
    open spec fn obeys_from_spec() -> bool {
        true
    }

    open spec fn from_spec(v: Si32) -> Su32 {
        if v.value < 0 { Su32 { value: 0 } } else { Su32 { value: v.value as u32 } }
    }
}

impl From<u32> for Su32 {
    fn from(value: u32) -> (r: Su32) {
        Su32 { value: value }
    }
}

impl FromSpecImpl<u32> for Su32 {
    open spec fn obeys_from_spec() -> bool {
        true
    }

    open spec fn from_spec(v: u32) -> Su32 {
        Su32 { value: v }
    }
}

impl From<Su32> for u32 {
    fn from(value: Su32) -> (r: u32) {
        value.value
    }
}

impl FromSpecImpl<Su32> for u32 {
    open spec fn obeys_from_spec() -> bool {
        true
    }

    open spec fn from_spec(v: Su32) -> u32 {
        v.value
    }
}

impl From<i32> for Su32 {
    fn from(value: i32) -> (r: Su32) {
        if value < 0 { Su32 { value: 0 } } else { Su32 { value: value as u32 } }
    }
}

impl FromSpecImpl<i32> for Su32 {
    open spec fn obeys_from_spec() -> bool {
        true
    }

    open spec fn from_spec(v: i32) -> Su32 {
        if v < 0 { Su32 { value: 0 } } else { Su32 { value: v as u32 } }
    }
}

impl From<Su32> for i32 {
    fn from(value: Su32) -> (r: i32) {
        if value.value > (i32::MAX as u32) { i32::MAX } else { value.value as i32 }
    }
}

impl FromSpecImpl<Su32> for i32 {
    open spec fn obeys_from_spec() -> bool {
        true
    }

    open spec fn from_spec(v: Su32) -> i32 {
        if v.value > (i32::MAX as u32) { i32::MAX } else { v.value as i32 }
    }
}

impl From<usize> for Su32 {
    fn from(value: usize) -> (r: Su32) {
        if value > (u32::MAX as usize) { Su32 { value: u32::MAX } } else { Su32 { value: value as u32 } }
    }
}

impl FromSpecImpl<usize> for Su32 {
    open spec fn obeys_from_spec() -> bool {
        true
    }

    open spec fn from_spec(v: usize) -> Su32 {
        if v > (u32::MAX as usize) { Su32 { value: u32::MAX } } else { Su32 { value: v as u32 } }
    }
}

impl From<i64> for Su32 {
    fn from(value: i64) -> (r: Su32) {
        Su32 { value: clamp_i64_to_u32(value) }
    }
}

impl FromSpecImpl<i64> for Su32 {
    open spec fn obeys_from_spec() -> bool {
        true
    }

    open spec fn from_spec(v: i64) -> Su32 {
        Su32 { value: clamp_u32(v as int) as u32 }
    }
}

impl From<Su32> for i64 {
    fn from(value: Su32) -> (r: i64) {
        value.value as i64
    }
}

impl FromSpecImpl<Su32> for i64 {
    open spec fn obeys_from_spec() -> bool {
        true
    }

    open spec fn from_spec(v: Su32) -> i64 {
        v.value as i64
    }
}

impl From<u16> for Su32 {
    fn from(value: u16) -> (r: Su32) {
        Su32 { value: value as u32 }
    }
}

impl FromSpecImpl<u16> for Su32 {
    open spec fn obeys_from_spec() -> bool {
        true
    }

    open spec fn from_spec(v: u16) -> Su32 {
        Su32 { value: v as u32 }
    }
}

impl From<Su32> for u16 {
    fn from(value: Su32) -> (r: u16) {
        if value.value > (u16::MAX as u32) { u16::MAX } else { value.value as u16 }
    }
}

impl FromSpecImpl<Su32> for u16 {
    open spec fn obeys_from_spec() -> bool {
        true
    }

    open spec fn from_spec(v: Su32) -> u16 {
        if v.value > (u16::MAX as u32) { u16::MAX } else { v.value as u16 }
    }
}

impl From<Su32> for u64 {
    fn from(value: Su32) -> (r: u64) {
        value.value as u64
    }
}

impl FromSpecImpl<Su32> for u64 {
    open spec fn obeys_from_spec() -> bool {
        true
    }

    open spec fn from_spec(v: Su32) -> u64 {
        v.value as u64
    }
}

/// Error of a fallible numeric conversion.
#[derive(Clone, Copy, Debug, PartialEq, Eq, Structural)]
pub enum ConversionError {
    /// The value does not fit in the destination type.
    OutOfRange,
}

impl TryFrom<u64> for Su32 {
    type Error = ConversionError;

    fn try_from(value: u64) -> (r: Result<Su32, ConversionError>) {
        if value > u32::MAX as u64 {
            Ok(Su32 { value: u32::MAX })
        } else {
            Ok(Su32 { value: value as u32 })
        }
    }
}

impl TryFromSpecImpl<u64> for Su32 {
    open spec fn obeys_try_from_spec() -> bool {
        true
    }

    open spec fn try_from_spec(v: u64) -> Result<Su32, ConversionError> {
        Ok(Su32 { value: clamp_u32(v as int) as u32 })
    }
}

impl TryFrom<Su32> for usize {
    type Error = ConversionError;

    fn try_from(value: Su32) -> (r: Result<usize, ConversionError>) {
        Ok(value.value as usize)
    }
}

impl TryFromSpecImpl<Su32> for usize {
    open spec fn obeys_try_from_spec() -> bool {
        true
    }

    open spec fn try_from_spec(v: Su32) -> Result<usize, ConversionError> {
        Ok(v.value as usize)
    }
}

/// Converting an `i32` into an `Si32` and back gives the same `i32`.
pub proof fn law_i32_round_trip(v: i32)
    ensures
        <i32 as FromSpec<Si32>>::from_spec(<Si32 as FromSpec<i32>>::from_spec(v)) == v,
{
}

/// Converting an `Si32` into an `i64` and back gives the same value.
pub proof fn law_si32_i64_round_trip(x: Si32)
    ensures
        <Si32 as FromSpec<i64>>::from_spec(<i64 as FromSpec<Si32>>::from_spec(x)) == x,
{
}

/// A `u32` goes through an `Si32` unchanged when it fits in `i32` and
/// comes back as `i32::MAX` otherwise.
pub proof fn law_u32_through_si32(v: u32)
    ensures
        <u32 as FromSpec<Si32>>::from_spec(<Si32 as FromSpec<u32>>::from_spec(v)) as int
            == if v > i32::MAX { i32::MAX as int } else { v as int },
{
}

/// An `i32` goes through an `Su32` unchanged when it is not negative and
/// comes back as zero otherwise.
pub proof fn law_i32_through_su32(v: i32)
    ensures
        <i32 as FromSpec<Su32>>::from_spec(<Su32 as FromSpec<i32>>::from_spec(v)) as int
            == if v < 0 { 0 } else { v as int },
{
}

/// Narrowing an `i64` into an `Si32` clamps it into the `i32` range.
pub proof fn law_i64_clamps(v: i64)
    ensures
        (<Si32 as FromSpec<i64>>::from_spec(v))@ == clamp_i32(v as int),
{
}

/// Narrowing an `i64` into an `Su32` clamps it into the `u32` range.
pub proof fn law_i64_clamps_unsigned(v: i64)
    ensures
        (<Su32 as FromSpec<i64>>::from_spec(v))@ == clamp_u32(v as int),
{
}

} // verus!
