use open_combat::math::{abs_diff_i32, isqrt};
use open_combat::types::{distance_between_points, Angle, Distance, GridPoint, WorldPoint};

#[test]
fn isqrt_is_the_floor_of_the_square_root() {
    assert_eq!(isqrt(0), 0);
    assert_eq!(isqrt(1), 1);
    assert_eq!(isqrt(3), 1);
    assert_eq!(isqrt(4), 2);
    assert_eq!(isqrt(24), 4);
    assert_eq!(isqrt(25), 5);
    assert_eq!(isqrt(1_000_000_000_000), 1_000_000);
    assert_eq!(isqrt(999_999_999_999), 999_999);
    assert_eq!(isqrt((1u128 << 64) - 1), (1u64 << 32) - 1);
}

#[test]
fn abs_diff_covers_the_whole_range() {
    assert_eq!(abs_diff_i32(5, 3), 2);
    assert_eq!(abs_diff_i32(3, 5), 2);
    assert_eq!(abs_diff_i32(i32::MIN, i32::MAX), 4294967295);
}

#[test]
fn distance_is_euclidean_rounded_down() {
    let a = WorldPoint::new(0, 0);
    assert_eq!(distance_between_points(&a, &WorldPoint::new(3000, 4000)).millimeters, 5000);
    assert_eq!(distance_between_points(&a, &WorldPoint::new(1, 1)).millimeters, 1);
    assert_eq!(distance_between_points(&a, &WorldPoint::new(-2, 2)).millimeters, 2);
    assert_eq!(distance_between_points(&a, &a).millimeters, 0);
    let far = distance_between_points(
        &WorldPoint::new(i32::MIN, i32::MIN),
        &WorldPoint::new(i32::MAX, i32::MAX),
    );
    assert_eq!(far.millimeters, 6074000998);
}

#[test]
fn distance_in_metres_rounds_down() {
    assert_eq!(Distance::from_millimeters(1999).meters(), 1);
    assert_eq!(Distance::from_meters(12).millimeters(), 12000);
    assert_eq!(Distance::from_meters(u64::MAX).millimeters(), u64::MAX);
}

#[test]
fn chebyshev_distance_counts_king_moves() {
    assert_eq!(GridPoint::new(0, 0).chebyshev_to(&GridPoint::new(3, -7)), 7);
    assert_eq!(GridPoint::new(2, 2).chebyshev_to(&GridPoint::new(2, 2)), 0);
}

#[test]
fn squared_distance_is_exact() {
    assert_eq!(WorldPoint::new(1, 2).sq_dist_to(&WorldPoint::new(4, 6)), 25);
}

#[test]
fn angle_of_the_four_axes() {
    let o = WorldPoint::new(0, 0);
    assert_eq!(Angle::from_points(&WorldPoint::new(10, 0), &o), Angle(0));
    assert_eq!(Angle::from_points(&WorldPoint::new(0, 10), &o), Angle(90000));
    assert_eq!(Angle::from_points(&WorldPoint::new(-10, 0), &o), Angle(180000));
    assert_eq!(Angle::from_points(&WorldPoint::new(0, -10), &o), Angle(270000));
    assert_eq!(Angle::from_points(&o, &o), Angle(0));
}

#[test]
fn angle_of_the_diagonals() {
    let o = WorldPoint::new(100, 100);
    assert_eq!(Angle::from_points(&WorldPoint::new(150, 150), &o), Angle(45000));
    assert_eq!(Angle::from_points(&WorldPoint::new(50, 150), &o), Angle(135000));
    assert_eq!(Angle::from_points(&WorldPoint::new(50, 50), &o), Angle(225000));
    assert_eq!(Angle::from_points(&WorldPoint::new(150, 50), &o), Angle(315000));
}

#[test]
fn angle_is_measured_by_sixteenths_of_slope() {
    let o = WorldPoint::new(0, 0);
    // Slope 8/16.
    assert_eq!(Angle::from_points(&WorldPoint::new(200, 100), &o), Angle(26565));
    // Slope just under 8/16 falls back to 7/16.
    assert_eq!(Angle::from_points(&WorldPoint::new(201, 100), &o), Angle(23629));
    // Steeper than the diagonal: measured from the y axis.
    assert_eq!(Angle::from_points(&WorldPoint::new(100, 200), &o), Angle(90000 - 26565));
    // Fourth quadrant.
    assert_eq!(Angle::from_points(&WorldPoint::new(200, -100), &o), Angle(360000 - 26565));
    // A slope under a sixteenth counts as flat, also just below the axis.
    assert_eq!(Angle::from_points(&WorldPoint::new(1000, -1), &o), Angle(0));
}

#[test]
fn angle_stays_in_the_full_turn_at_the_ends_of_the_range() {
    let a = Angle::from_points(
        &WorldPoint::new(i32::MAX, i32::MIN),
        &WorldPoint::new(i32::MIN, i32::MAX),
    );
    assert_eq!(a, Angle(315000));
}
