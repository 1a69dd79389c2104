use teleop_core::calibration::{
    calculate_corrections, detect_inversions, drive_mode_values, get_correction, invert,
    invert_appropriate_positions, wanted_pos1, wanted_pos2, wanted_position_1, wanted_position_2,
};

#[test]
fn wanted_pose_vectors() {
    assert_eq!(wanted_position_1(), vec![0, 0, 1024, 0, -1024, 0]);
    assert_eq!(wanted_position_2(), vec![1024, 1024, 0, -1024, 0, 1024]);
    assert_eq!(wanted_pos1(), wanted_position_1());
    assert_eq!(wanted_pos2(), wanted_position_2());
}

#[test]
fn inversion_keeps_inverted_and_negates_regular() {
    let pos = vec![100, -200, 300, 0];
    let flags = vec![true, false, false, true];
    let expected = vec![100, 200, -300, 0];
    assert_eq!(invert_appropriate_positions(&pos, &flags), expected);
    assert_eq!(invert(&pos, &flags), expected);
}

#[test]
fn corrections_cancel_an_exact_pose_one() {
    // A perfectly placed, perfectly assembled arm needs no correction.
    let rounded = wanted_position_1();
    let none = vec![false; 6];
    assert_eq!(calculate_corrections(&rounded, &none), vec![0; 6]);
}

#[test]
fn corrections_cancel_a_whole_turn_offset() {
    // Each joint reads one quarter turn high: the correction subtracts it.
    let rounded: Vec<i32> = wanted_position_1().iter().map(|x| x + 1024).collect();
    let none = vec![false; 6];
    assert_eq!(calculate_corrections(&rounded, &none), vec![-1024; 6]);
}

#[test]
fn corrections_follow_the_drive_direction() {
    let rounded = vec![1024, 0, 1024, -1024, 0, 2048];
    let flags = vec![true, false, false, true, false, true];
    // Inverted joints: rounded - wanted; regular joints: wanted - rounded.
    let expected = vec![1024 - 0, 0 - 0, 1024 - 1024, -1024 - 0, -1024 - 0, 2048 - 0];
    assert_eq!(calculate_corrections(&rounded, &flags), expected);
    assert_eq!(get_correction(&rounded, &flags), expected);
}

#[test]
fn matching_pose_two_is_not_flagged() {
    let rounded = wanted_position_2();
    assert_eq!(detect_inversions(&rounded), vec![false; 6]);
}

#[test]
fn negated_pose_two_is_flagged() {
    // Joints whose wanted pose-2 value is non-zero and whose reading is its
    // negation are exactly the flagged ones.
    let wanted = wanted_position_2();
    let rounded: Vec<i32> = wanted.iter().map(|x| -x).collect();
    let expected: Vec<bool> = wanted.iter().map(|&x| x != 0).collect();
    assert_eq!(detect_inversions(&rounded), expected);
    assert_eq!(expected, vec![true, true, false, true, false, true]);
}

#[test]
fn drive_modes_encode_flags_as_bits() {
    let flags = vec![false, true, true, false, false, true];
    assert_eq!(drive_mode_values(&flags), vec![0, 1, 1, 0, 0, 1]);
}
