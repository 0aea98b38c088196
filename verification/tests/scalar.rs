use canvas::geometry::{Point2D, Rect, Size2D, Transform2D};
use canvas::scalar::{Double, Single};
use canvas::surface::blank_image;

fn double(value: f64) -> Double {
    Double { bits: value.to_bits() }
}

#[test]
fn whole_part_of_a_double_is_what_a_cast_gives() {
    let values: [f64; 40] = [
        0.0,
        -0.0,
        0.25,
        0.5,
        0.999_999_999,
        1.0,
        1.5,
        2.0,
        2.999,
        3.0,
        10.0,
        255.99,
        256.0,
        1024.75,
        65_535.5,
        4_294_967_295.0,
        4_294_967_296.0,
        4_503_599_627_370_495.5,
        4_503_599_627_370_496.0,
        4_503_599_627_370_497.0,
        9_007_199_254_740_991.0,
        9_007_199_254_740_992.0,
        9_007_199_254_740_994.0,
        1e15,
        1e16,
        1e18,
        9_223_372_036_854_775_808.0,
        1.8e19,
        18_446_744_073_709_549_568.0,
        18_446_744_073_709_551_616.0,
        1e20,
        1e300,
        f64::MAX,
        f64::INFINITY,
        f64::NEG_INFINITY,
        f64::NAN,
        -1.0,
        -0.5,
        -1e30,
        f64::MIN_POSITIVE,
    ];
    for value in values {
        assert_eq!(double(value).to_u64(), value as u64, "{}", value);
        assert_eq!(double(value).to_usize(), value as usize, "{}", value);
    }
}

#[test]
fn whole_part_of_small_and_odd_encodings() {
    // The smallest subnormal, a negative number that is not one, and each
    // power of two that a `u64` holds.
    assert_eq!(Double { bits: 1 }.to_u64(), 0);
    assert_eq!(Double { bits: 0xfff8_0000_0000_0001 }.to_u64(), 0);
    assert_eq!(Double { bits: 0x7ff0_0000_0000_0001 }.to_u64(), 0);
    for power in 0..64u32 {
        let value = 2f64.powi(power as i32);
        assert_eq!(double(value).to_u64(), 1u64 << power);
        assert_eq!(double(value * 1.5).to_u64(), (value * 1.5) as u64);
    }
}

#[test]
fn whole_part_agrees_with_the_cast_on_many_bit_patterns() {
    // Bit patterns from a fixed linear congruential sequence, and for each
    // the patterns next to it and with every exponent around the ones
    // where the result changes its form.
    let mut bits: u64 = 0x9e37_79b9_7f4a_7c15;
    for _ in 0..20_000 {
        bits = bits.wrapping_mul(6_364_136_223_846_793_005).wrapping_add(1_442_695_040_888_963_407);
        for candidate in [bits, bits & !(1 << 63), bits | (1 << 63)] {
            let value = f64::from_bits(candidate);
            assert_eq!(Double { bits: candidate }.to_u64(), value as u64, "{:#x}", candidate);
        }
        let fraction = bits & ((1 << 52) - 1);
        for exponent in [0u64, 1, 1022, 1023, 1024, 1074, 1075, 1076, 1085, 1086, 1087, 2046, 2047] {
            let candidate = (exponent << 52) | fraction;
            let value = f64::from_bits(candidate);
            assert_eq!(Double { bits: candidate }.to_u64(), value as u64, "{:#x}", candidate);
            assert_eq!(Double { bits: candidate }.to_usize(), value as usize, "{:#x}", candidate);
        }
    }
}

#[test]
fn exact_whole_parts() {
    assert_eq!(double(10.0).to_u64(), 10);
    assert_eq!(double(10.9).to_u64(), 10);
    assert_eq!(double(1e19).to_u64(), 10_000_000_000_000_000_000);
    assert_eq!(double(1e20).to_u64(), u64::MAX);
    assert_eq!(double(-3.0).to_u64(), 0);
    assert_eq!(double(f64::NAN).to_u64(), 0);
}

#[test]
fn rectangles_are_cut_down_to_whole_pixels() {
    let rect = Rect {
        origin: Point2D { x: double(1.75), y: double(2.25) },
        size: Size2D { width: double(10.5), height: double(-4.0) },
    };
    assert_eq!(
        rect.to_u64(),
        Rect { origin: Point2D { x: 1, y: 2 }, size: Size2D { width: 10, height: 0 } }
    );
    let size = Size2D { width: double(640.0), height: double(480.9) };
    assert_eq!(size.to_u64(), Size2D { width: 640, height: 480 });
}

#[test]
fn blank_image_takes_four_bytes_a_pixel() {
    let size = Size2D { width: double(10.0), height: double(20.0) };
    assert_eq!(blank_image(size), Some(800));
    let size = Size2D { width: double(10.9), height: double(0.9) };
    assert_eq!(blank_image(size), Some(0));
    let size = Size2D { width: double(f64::NAN), height: double(5.0) };
    assert_eq!(blank_image(size), Some(0));
}

#[test]
fn blank_image_too_large_to_count_is_none() {
    let size = Size2D { width: double(1e19), height: double(1e19) };
    assert_eq!(blank_image(size), None);
    let size = Size2D { width: double(f64::INFINITY), height: double(1.0) };
    assert_eq!(blank_image(size), None);
    let quarter = (usize::MAX / 4) as f64;
    let size = Size2D { width: double(quarter * 2.0), height: double(1.0) };
    assert_eq!(blank_image(size), None);
}

#[test]
fn identity_is_one_on_the_diagonal() {
    let identity = Transform2D::<Single>::identity();
    assert_eq!(f32::from_bits(identity.m11.bits), 1.0);
    assert_eq!(f32::from_bits(identity.m12.bits), 0.0);
    assert_eq!(f32::from_bits(identity.m21.bits), 0.0);
    assert_eq!(f32::from_bits(identity.m22.bits), 1.0);
    assert_eq!(f32::from_bits(identity.m31.bits), 0.0);
    assert_eq!(f32::from_bits(identity.m32.bits), 0.0);
    assert_eq!(Single::one().bits, 1.0f32.to_bits());
    assert_eq!(Single::zero().bits, 0.0f32.to_bits());
}

#[test]
fn rectangles_are_clamped_to_the_surface() {
    let bounds = Size2D { width: 10u64, height: 8u64 };
    let inside = Rect { origin: Point2D { x: 2u64, y: 3u64 }, size: Size2D { width: 4u64, height: 5u64 } };
    assert_eq!(inside.clamp_to(bounds), inside);
    let over = Rect { origin: Point2D { x: 7u64, y: 6u64 }, size: Size2D { width: 9u64, height: 9u64 } };
    assert_eq!(
        over.clamp_to(bounds),
        Rect { origin: Point2D { x: 7, y: 6 }, size: Size2D { width: 3, height: 2 } }
    );
    let beyond = Rect { origin: Point2D { x: 11u64, y: 1u64 }, size: Size2D { width: 2u64, height: 2u64 } };
    assert!(beyond.clamp_to(bounds).is_empty());
    let huge = Rect {
        origin: Point2D { x: 1u64, y: 1u64 },
        size: Size2D { width: u64::MAX, height: u64::MAX },
    };
    assert_eq!(
        huge.clamp_to(bounds),
        Rect { origin: Point2D { x: 1, y: 1 }, size: Size2D { width: 9, height: 7 } }
    );
    assert!(!inside.is_empty());
    let flat = Rect { origin: Point2D { x: 0u64, y: 0u64 }, size: Size2D { width: 5u64, height: 0u64 } };
    assert!(flat.is_empty());
}
