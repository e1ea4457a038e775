use line_canvas::geometry::{
    distance, isqrt, px, rectangle_vertices, rotation, COORD_MAX, LINE_THICKNESS, SCALE,
};

#[test]
fn isqrt_small_values() {
    assert_eq!(isqrt(0), 0);
    assert_eq!(isqrt(1), 1);
    assert_eq!(isqrt(2), 1);
    assert_eq!(isqrt(3), 1);
    assert_eq!(isqrt(4), 2);
    assert_eq!(isqrt(8), 2);
    assert_eq!(isqrt(9), 3);
    assert_eq!(isqrt(10), 3);
    assert_eq!(isqrt(99), 9);
    assert_eq!(isqrt(100), 10);
}

#[test]
fn isqrt_large_values() {
    assert_eq!(isqrt(u64::MAX), 4_294_967_295);
    assert_eq!(isqrt(4_294_967_295 * 4_294_967_295), 4_294_967_295);
    assert_eq!(isqrt(1_000_000_000_000), 1_000_000);
    // the squared distance of the start-up scene's first line
    assert_eq!(isqrt(12_500_000_000), 111_803);
}

#[test]
fn px_converts_to_subpixels() {
    assert_eq!(SCALE, 1000);
    assert_eq!(px(300), 300_000);
    assert_eq!(px(-7), -7_000);
    assert_eq!(px(0), 0);
    assert_eq!(px(1_000_000), COORD_MAX);
}

#[test]
fn distance_pythagorean_triple() {
    // a 3-4-5 triangle, in whole pixels
    assert_eq!(distance(0, 0, 3000, 4000), 5000);
    assert_eq!(distance(3000, 4000, 0, 0), 5000);
    assert_eq!(distance(-3000, 0, 0, -4000), 5000);
}

#[test]
fn distance_zero_length() {
    assert_eq!(distance(123, 456, 123, 456), 0);
    assert_eq!(distance(0, 0, 0, 0), 0);
}

#[test]
fn distance_diagonal_rounds_down() {
    // sqrt(100^2 + 50^2) px = 111.8033... px -> 111803 subpixels
    assert_eq!(distance(300_000, 250_000, 400_000, 200_000), 111_803);
    // sqrt(2) px = 1.41421... px -> 1414 subpixels
    assert_eq!(distance(0, 0, 1000, 1000), 1414);
}

#[test]
fn rotation_axis_aligned() {
    // pointing along +x: angle 0, (cos, sin) = (1, 0)
    assert_eq!(rotation(30_000, 30_000, 70_000, 30_000), (1000, 0));
    // pointing along +y: angle pi/2, (cos, sin) = (0, 1)
    assert_eq!(rotation(0, 0, 0, 40_000), (0, 1000));
    // pointing along -x: angle pi, (cos, sin) = (-1, 0)
    assert_eq!(rotation(0, 0, -40_000, 0), (-1000, 0));
    // pointing along -y: angle -pi/2, (cos, sin) = (0, -1)
    assert_eq!(rotation(0, 0, 0, -40_000), (0, -1000));
}

#[test]
fn rotation_zero_vector_is_angle_zero() {
    assert_eq!(rotation(5, 5, 5, 5), (1000, 0));
}

#[test]
fn rotation_diagonal() {
    // angle atan2(-50, 100) = -0.4636 rad: cos = 0.8944, sin = -0.4472
    assert_eq!(rotation(300_000, 250_000, 400_000, 200_000), (894, -447));
    // angle pi/4: cos = sin = 0.7071
    assert_eq!(rotation(0, 0, 1000, 1000), (707, 707));
}

#[test]
fn rotation_subpixel_directions_keep_precision() {
    // directions shorter than one pixel are normalized at full precision
    assert_eq!(rotation(0, 0, 1, 1), (707, 707));
    assert_eq!(rotation(0, 0, 1, 2), (447, 894));
    assert_eq!(rotation(0, 0, -1, 1), (-707, 707));
    assert_eq!(rotation(0, 0, 3, 4), (600, 800));
    assert_eq!(rotation(0, 0, 999, 0), (1000, 0));
}

#[test]
fn rotation_norm_stays_near_unit() {
    // the squared norm never strays more than a few SCALE units from SCALE^2
    let dirs = [
        (1, 1),
        (1, 2),
        (2, 3),
        (5, 1),
        (7, 13),
        (999, 1),
        (1000, 1),
        (12_345, 678),
        (-3, 9_999),
        (1_000_000_000, -999_999_999),
    ];
    for &(x2, y2) in dirs.iter() {
        let (rx, ry) = rotation(0, 0, x2, y2);
        let n = rx * rx + ry * ry;
        assert!(n >= 1_000_000 - 4_001, "norm too small for ({x2}, {y2}): {n}");
        assert!(n <= 1_000_000 + 2_001, "norm too large for ({x2}, {y2}): {n}");
    }
}

#[test]
fn quad_swaps_width_and_height_axes() {
    let v = rectangle_vertices(111_803, 5000);
    assert_eq!(
        v,
        vec![0, 0, 5000, 0, 0, 111_803, 0, 111_803, 5000, 0, 5000, 111_803]
    );
    assert_eq!(LINE_THICKNESS, 5000);
}
