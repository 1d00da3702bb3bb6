use std::cmp::Ordering;

use actiona::numeric::{Si32, Su32};
use actiona::numeric_ops::{si32, su32, DivisionError, TryDiv, TryDivAssign};

#[test]
fn zero_const_and_inner() {
    let z = Si32::zero();
    assert_eq!(0, z.into_inner());
    assert_eq!(Si32::new(0), z);
}

#[test]
fn ordering_and_sort() {
    let mut v = vec![si32(5), si32(-1), si32(3)];
    v.sort();
    let got: Vec<i32> = v.into_iter().map(|x| x.into_inner()).collect();
    assert_eq!(vec![-1, 3, 5], got);
}

#[test]
fn new_and_inner_roundtrip() {
    for src in [0, 123, -456, i32::MIN, i32::MAX] {
        assert_eq!(src, Si32::new(src).into_inner());
    }
}

#[test]
fn si32_ctor_into() {
    assert_eq!(Si32::new(5), si32(5i32));
    assert_eq!(Si32::new(7), si32(7u32));
    assert_eq!(Si32::new(-9), si32(-9i16));
    assert_eq!(Si32::new(11), si32(11usize));
    assert_eq!(Si32::new(i32::MAX), si32(i64::MAX));
}

#[test]
fn add_mixed() {
    assert_eq!(si32(15), si32(10) + su32(5u32));
    assert_eq!(si32(-2), si32(-5) + su32(3u32));
    assert_eq!(si32(3), si32(-2) + su32(5u32));
    assert_eq!(si32(i32::MAX), si32(i32::MAX) + su32(1u32));
    assert_eq!(si32(i32::MAX), si32(i32::MAX) + su32(u32::MAX));
}

#[test]
fn add_assign_mixed() {
    for (a, b, want) in [(10, 5u32, 15), (-5, 3, -2), (-2, 5, 3), (i32::MAX, 1, i32::MAX), (i32::MAX, u32::MAX, i32::MAX)] {
        let mut x = si32(a);
        x += su32(b);
        assert_eq!(want, x.into_inner());
    }
}

#[test]
fn sub_mixed() {
    assert_eq!(si32(5), si32(10) - su32(5u32));
    assert_eq!(si32(-8), si32(-5) - su32(3u32));
    assert_eq!(si32(-3), si32(2) - su32(5u32));
    assert_eq!(si32(i32::MIN), si32(i32::MIN) - su32(1u32));
    assert_eq!(si32(i32::MIN), si32(-10) - su32(u32::MAX));
}

#[test]
fn sub_assign_mixed() {
    for (a, b, want) in [(10, 5u32, 5), (-5, 3, -8), (2, 5, -3), (i32::MIN, 1, i32::MIN), (-10, u32::MAX, i32::MIN)] {
        let mut x = si32(a);
        x -= su32(b);
        assert_eq!(want, x.into_inner());
    }
}

#[test]
fn si32_arithmetic_saturates() {
    assert_eq!(si32(15), si32(10) + si32(5));
    assert_eq!(si32(i32::MAX), si32(i32::MAX) + si32(1));
    assert_eq!(si32(5), si32(10) - si32(5));
    assert_eq!(si32(i32::MIN), si32(i32::MIN) - si32(1));
    assert_eq!(si32(21), si32(7) * si32(3));
    assert_eq!(si32(i32::MAX), si32(i32::MAX) * si32(2));
    assert_eq!(si32(i32::MAX), si32(i32::MIN) * si32(-2));
    let mut x = si32(i32::MAX);
    x *= si32(2);
    assert_eq!(i32::MAX, x.into_inner());
    let mut y = si32(10);
    y += si32(5);
    y -= si32(1);
    assert_eq!(14, y.into_inner());
}

#[test]
fn neg_and_abs() {
    assert_eq!(si32(-5), -si32(5));
    assert_eq!(si32(i32::MAX), -si32(i32::MIN));
    assert_eq!(si32(5), si32(-5).abs());
    assert_eq!(si32(i32::MAX), si32(i32::MIN).abs());
    assert_eq!(su32(7u32), si32(-7).unsigned_abs());
    assert_eq!(su32(i32::MAX as u32), si32(i32::MIN).unsigned_abs());
}

#[test]
fn conversions_clamp() {
    assert_eq!(si32(i32::MAX), Si32::from((i32::MAX as u32) + 1));
    assert_eq!(0u32, u32::from(si32(-1)));
    assert_eq!(i16::MIN, i16::from(si32(i32::MIN)));
    assert_eq!(i16::MAX, i16::from(si32(i32::MAX)));
    assert_eq!(si32(i32::MIN), Si32::from(i64::MIN));
    assert_eq!(i32::MIN as i64, i64::from(si32(i32::MIN)));
    assert_eq!(su32(0u32), Su32::from(-1i32));
    assert_eq!(i32::MAX, i32::from(su32(u32::MAX)));
    assert_eq!(su32(u32::MAX), Su32::from((u32::MAX as usize).saturating_add(1)));
    assert_eq!(su32(0u32), Su32::from(-1i64));
    assert_eq!(su32(u32::MAX), Su32::from(i64::MAX));
    assert_eq!(u16::MAX, u16::from(su32(u32::MAX)));
    assert_eq!(Ok(su32(u32::MAX)), Su32::try_from(u64::MAX));
    assert_eq!(Ok(123usize), usize::try_from(su32(123u32)));
    assert_eq!(u32::MAX as u64, u64::from(su32(u32::MAX)));
}

#[test]
fn su32_ops_eq_and_saturation() {
    assert!(su32(42u32) == 42);
    assert!(su32(42u32) != 41);
    assert_eq!(su32(43u32), su32(42u32) + 1);
    assert_eq!(su32(41u32), su32(42u32) - 1);
    assert_eq!(su32(u32::MAX), su32(u32::MAX) + 1);
    assert_eq!(su32(0u32), su32(0u32) - 1);
    assert_eq!(su32(20u32), su32(10u32) * 2);
    assert_eq!(su32(u32::MAX), su32(100_000u32) * 100_000);
    let mut a = su32(7u32);
    a *= 3;
    assert_eq!(su32(21u32), a);
    a += 1;
    a -= 2;
    assert_eq!(su32(20u32), a);
}

#[test]
fn su32_try_div() {
    assert_eq!(Ok(su32(2u32)), su32(7u32).try_div(su32(3u32)));
    assert_eq!(Err(DivisionError::DivideByZero), su32(1u32).try_div(su32(0u32)));
    assert_eq!(Ok(su32(1u32)), su32(9u32).try_div(9u32));
    assert_eq!(Err(DivisionError::DivideByZero), su32(1u32).try_div(0u32));
    let mut x = su32(7u32);
    assert_eq!(Ok(()), x.try_div_assign(su32(3u32)));
    assert_eq!(su32(2u32), x);
    assert_eq!(Err(DivisionError::DivideByZero), x.try_div_assign(0u32));
    assert_eq!(su32(2u32), x);
}

#[test]
fn si32_order_follows_values() {
    assert_eq!(Si32::new(-1).partial_cmp(&Si32::new(3)), Some(Ordering::Less));
    assert_eq!(Si32::new(3).partial_cmp(&Si32::new(3)), Some(Ordering::Equal));
    assert_eq!(Si32::new(i32::MAX).partial_cmp(&Si32::new(i32::MIN)), Some(Ordering::Greater));
    assert!(Si32::new(i32::MIN) < Si32::new(0));
}
