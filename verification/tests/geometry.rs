use naval_core::angle::angle_of;
use naval_core::angle::within_azimuth;
use naval_core::catalog::level_to_score;
use naval_core::error::Error;
use naval_core::sanitize::RawScalar;
use naval_core::sanitize::RawVec2;
use naval_core::sanitize::sanitize_scalar;
use naval_core::sanitize::sanitize_vec2;
use naval_core::vector::Vec2i;
use naval_core::vector::isqrt_ceil;

#[test]
fn sanitize_rejects_non_finite() {
    assert_eq!(sanitize_scalar(RawScalar::NonFinite, 0, 10), Err(Error::NotFinite));
    let v = RawVec2 { x: RawScalar::Finite(1), y: RawScalar::NonFinite };
    assert_eq!(sanitize_vec2(v, -10, 10), Err(Error::NotFinite));
}

#[test]
fn sanitize_clamps_finite_values_into_range() {
    assert_eq!(sanitize_scalar(RawScalar::Finite(3000), 500, 2000), Ok(2000));
    assert_eq!(sanitize_scalar(RawScalar::Finite(-10), 500, 2000), Ok(500));
    assert_eq!(sanitize_scalar(RawScalar::Finite(700), 500, 2000), Ok(700));
    let v = RawVec2 { x: RawScalar::Finite(-500), y: RawScalar::Finite(7) };
    assert_eq!(sanitize_vec2(v, -10, 10), Ok(Vec2i { x: -10, y: 7 }));
}

#[test]
fn ceiling_square_root_exact_values() {
    assert_eq!(isqrt_ceil(0), 0);
    assert_eq!(isqrt_ceil(1), 1);
    assert_eq!(isqrt_ceil(2), 2);
    assert_eq!(isqrt_ceil(4), 2);
    assert_eq!(isqrt_ceil(10), 4);
    assert_eq!(isqrt_ceil(1_000_000), 1000);
}

#[test]
fn clamp_length_leaves_short_vectors_alone() {
    let v = Vec2i { x: 3, y: 4 };
    assert_eq!(v.clamp_length_max(5), v);
}

#[test]
fn clamp_length_scales_long_vectors_down() {
    let v = Vec2i { x: 6, y: 8 };
    assert_eq!(v.clamp_length_max(5), Vec2i { x: 3, y: 4 });
    let w = Vec2i { x: 2000, y: 0 };
    assert_eq!(w.clamp_length_max(1500), Vec2i { x: 1500, y: 0 });
}

#[test]
fn directions_of_the_axes() {
    assert_eq!(angle_of(Vec2i { x: 1, y: 0 }), 0);
    assert_eq!(angle_of(Vec2i { x: 0, y: 5 }), 16384);
    assert_eq!(angle_of(Vec2i { x: -3, y: 0 }), 32768);
    assert_eq!(angle_of(Vec2i { x: 0, y: -2 }), 49152);
    assert_eq!(angle_of(Vec2i { x: 1, y: 1 }), 8192);
    assert_eq!(angle_of(Vec2i { x: 0, y: 0 }), 0);
}

#[test]
fn azimuth_check_wraps_around_the_circle() {
    assert!(within_azimuth(0, 0, 8192));
    assert!(within_azimuth(8192, 0, 8192));
    assert!(!within_azimuth(16384, 0, 8192));
    assert!(within_azimuth(65535, 0, 8192));
    assert!(within_azimuth(40000, 32768, 8192));
}

#[test]
fn score_ladder_exact_values() {
    assert_eq!(level_to_score(0), 0);
    assert_eq!(level_to_score(1), 0);
    assert_eq!(level_to_score(2), 20);
    assert_eq!(level_to_score(3), 80);
}
