use plt_escrow::calculate_distance;

#[test]
fn distance_of_three_four_five_triangle() {
    assert_eq!(calculate_distance(0, 0, 3, 4), 5);
    assert_eq!(calculate_distance(3, 4, 0, 0), 5);
    assert_eq!(calculate_distance(0, 0, 4, 3), 5);
}

#[test]
fn distance_to_the_same_point_is_zero() {
    assert_eq!(calculate_distance(0, 0, 0, 0), 0);
    assert_eq!(calculate_distance(-17, 42, -17, 42), 0);
    assert_eq!(calculate_distance(i64::MIN, i64::MAX, i64::MIN, i64::MAX), 0);
}

#[test]
fn distance_along_one_axis_is_the_difference() {
    assert_eq!(calculate_distance(0, 0, 0, 5), 5);
    assert_eq!(calculate_distance(0, 0, 0, 6), 6);
    assert_eq!(calculate_distance(0, 0, 6, 0), 6);
    assert_eq!(calculate_distance(10, -2, 10, 7), 9);
    assert_eq!(calculate_distance(0, 0, i64::MAX, 0), 9223372036854775807);
}

#[test]
fn distance_rounds_down() {
    // sqrt(2), sqrt(8), sqrt(24), sqrt(35)
    assert_eq!(calculate_distance(0, 0, 1, 1), 1);
    assert_eq!(calculate_distance(0, 0, 2, 2), 2);
    assert_eq!(calculate_distance(0, 0, 2, 4), 4);
    assert_eq!(calculate_distance(1, 1, 4, 6), 5);
    assert_eq!(calculate_distance(0, 0, 1000, 1000), 1414);
}

#[test]
fn distance_does_not_depend_on_direction() {
    assert_eq!(calculate_distance(-3, -4, 0, 0), 5);
    assert_eq!(calculate_distance(0, 0, -3, 4), 5);
    assert_eq!(calculate_distance(3, -4, 0, 0), 5);
    assert_eq!(
        calculate_distance(123456789, 555, -987654321, -444),
        calculate_distance(-987654321, -444, 123456789, 555)
    );
    assert_eq!(calculate_distance(123456789, 555, -987654321, -444), 1111111110);
}

#[test]
fn distance_across_the_whole_coordinate_range() {
    assert_eq!(calculate_distance(i64::MIN, 0, i64::MAX, 0), 18446744073709551615);
    assert_eq!(calculate_distance(0, i64::MAX, 0, i64::MIN), 18446744073709551615);
    assert_eq!(
        calculate_distance(i64::MIN, i64::MIN, i64::MAX, i64::MAX),
        26087635650665564423
    );
    assert_eq!(
        calculate_distance(i64::MAX, i64::MIN, i64::MIN, i64::MAX),
        26087635650665564423
    );
}

#[test]
fn distance_squared_brackets_the_sum_of_squares() {
    let points: [(i64, i64, i64, i64); 6] = [
        (0, 0, 7, 9),
        (-5, 12, 30, -41),
        (1_000_000, 2_000_000, -3_000_000, 4_000_000),
        (0, 0, 1, 0),
        (45_000_000, -93_000_000, 45_000_123, -93_000_456),
        (i64::MAX / 2, 0, 0, i64::MAX / 2),
    ];
    for (lat1, lng1, lat2, lng2) in points {
        let d = calculate_distance(lat1, lng1, lat2, lng2);
        let dlat = (lat1 as i128 - lat2 as i128).unsigned_abs();
        let dlng = (lng1 as i128 - lng2 as i128).unsigned_abs();
        let sum = dlat * dlat + dlng * dlng;
        assert!(d * d <= sum);
        assert!((d + 1) * (d + 1) > sum);
    }
}
