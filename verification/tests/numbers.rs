use mozjpeg_verus::binary32::{quality_equal, quality_in_range, quality_round};
use mozjpeg_verus::colorspace::ColorSpace;
use mozjpeg_verus::density::{PixelDensity, PixelDensityUnit};
use mozjpeg_verus::text::{bool_string, decimal_string, list_string, push_signed_decimal};
use mozjpeg_verus::ScanMode;

#[test]
fn quality_range_edges() {
    assert!(quality_in_range(0.0f32.to_bits()));
    assert!(quality_in_range((-0.0f32).to_bits()));
    assert!(quality_in_range(100.0f32.to_bits()));
    assert!(quality_in_range(1.0e-45f32.to_bits()));
    assert!(!quality_in_range(100.00001f32.to_bits()));
    assert!(!quality_in_range((-1.0e-45f32).to_bits()));
    assert!(!quality_in_range(f32::NAN.to_bits()));
    assert!(!quality_in_range(f32::INFINITY.to_bits()));
    assert!(!quality_in_range(f32::NEG_INFINITY.to_bits()));
}

#[test]
fn quality_rounding_matches_round_then_cast() {
    let samples = [
        0.0f32, -0.0, 0.5, 1.5, 2.5, -2.5, 84.5, 84.49, 99.99, 100.0, 1.0e-45, 0.49999997, 8388607.5,
        2147483520.0, 2147483648.0, -2147483648.0, -3.0e9, 1.0e20, f32::INFINITY, f32::NEG_INFINITY, f32::NAN,
    ];
    for &x in samples.iter() {
        assert_eq!(quality_round(x.to_bits()), x.round() as i32, "value {}", x);
    }
}

#[test]
fn quality_equality_is_float_equality() {
    let samples = [0.0f32, -0.0, 1.0, 85.0, 85.5, f32::NAN, f32::INFINITY];
    for &a in samples.iter() {
        for &b in samples.iter() {
            assert_eq!(quality_equal(a.to_bits(), b.to_bits()), a == b, "{} vs {}", a, b);
        }
    }
}

#[test]
fn decimal_and_list_text() {
    assert_eq!(decimal_string(0), "0");
    assert_eq!(decimal_string(10), "10");
    assert_eq!(decimal_string(u64::MAX), u64::MAX.to_string());
    assert_eq!(bool_string(true), "true");
    assert_eq!(bool_string(false), "false");
    assert_eq!(list_string(&[]), "[]");
    assert_eq!(list_string(&[7]), "[7]");
    assert_eq!(list_string(&[2, -1, i32::MIN]), format!("{:?}", [2, -1, i32::MIN]));
    let mut s = String::from("x=");
    push_signed_decimal(&mut s, i64::MIN);
    assert_eq!(s, format!("x={}", i64::MIN));
}

#[test]
fn codes_of_enumerations() {
    assert_eq!(ScanMode::AllComponentsTogether.code(), 0);
    assert_eq!(ScanMode::ScanPerComponent.code(), 1);
    assert_eq!(ScanMode::Auto.code(), 2);
    assert_eq!(PixelDensityUnit::PixelAspectRatio.code(), 0);
    assert_eq!(PixelDensityUnit::Inches.code(), 1);
    assert_eq!(PixelDensityUnit::Centimeters.code(), 2);
    let d = PixelDensity::default();
    assert_eq!((d.unit.code(), d.x, d.y), (0, 1, 1));
    assert_eq!(ColorSpace::JCS_RGB.num_components(), 3);
    assert_eq!(ColorSpace::JCS_GRAYSCALE.num_components(), 1);
    assert_eq!(ColorSpace::JCS_CMYK.num_components(), 4);
    assert_eq!(ColorSpace::JCS_EXT_RGBA.num_components(), 4);
}
