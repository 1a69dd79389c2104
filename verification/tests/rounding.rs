use teleop_core::rounding::{
    calculate_nearest_rounded_positions, get_nearest_rounded_positions, nearest_rounded_position,
};

#[test]
fn multiples_stay_put() {
    for x in [0i32, 1024, -1024, 2048, -4096, 1024 * 1000] {
        assert_eq!(nearest_rounded_position(x), x);
    }
}

#[test]
fn below_half_rounds_down_in_magnitude() {
    assert_eq!(nearest_rounded_position(511), 0);
    assert_eq!(nearest_rounded_position(-511), 0);
    assert_eq!(nearest_rounded_position(1535), 1024);
    assert_eq!(nearest_rounded_position(-1535), -1024);
}

#[test]
fn above_half_rounds_up_in_magnitude() {
    assert_eq!(nearest_rounded_position(513), 1024);
    assert_eq!(nearest_rounded_position(-513), -1024);
    assert_eq!(nearest_rounded_position(1600), 2048);
    assert_eq!(nearest_rounded_position(-1600), -2048);
}

#[test]
fn ties_round_away_from_zero() {
    assert_eq!(nearest_rounded_position(512), 1024);
    assert_eq!(nearest_rounded_position(-512), -1024);
    assert_eq!(nearest_rounded_position(1536), 2048);
    assert_eq!(nearest_rounded_position(-1536), -2048);
}

#[test]
fn rounding_twice_equals_rounding_once() {
    for x in [0i32, 37, -37, 511, 512, 513, -512, 777_777, -777_777] {
        let once = nearest_rounded_position(x);
        assert_eq!(nearest_rounded_position(once), once);
    }
}

#[test]
fn rounded_value_stays_within_half_a_quarter_turn() {
    for x in [0i32, 37, -37, 511, 512, 513, -512, 777_777, -777_777] {
        let r = nearest_rounded_position(x);
        assert!((r as i64 - x as i64).abs() <= 512);
    }
}

#[test]
fn vector_rounding_matches_scalar() {
    let pos = vec![0, 511, 512, -512, 1600, -1535];
    let expected = vec![0, 0, 1024, -1024, 2048, -1024];
    assert_eq!(calculate_nearest_rounded_positions(&pos), expected);
    assert_eq!(get_nearest_rounded_positions(&pos), expected);
}
