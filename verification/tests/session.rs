use teleop_core::calibration::{wanted_position_1, wanted_position_2};
use teleop_core::session::{
    preparation_plan, zero_offsets, BusWrite, CalibrationSession, RegisterField, ServoFamily,
    WizardCommand, WizardStep,
};

fn homing_offsets(cmd: WizardCommand) -> Vec<i32> {
    match cmd {
        WizardCommand::WriteHomingOffsets(off) => off,
        WizardCommand::WriteDriveModes(_) => panic!("expected a homing-offset write"),
    }
}

fn drive_modes(cmd: WizardCommand) -> Vec<bool> {
    match cmd {
        WizardCommand::WriteDriveModes(flags) => flags,
        WizardCommand::WriteHomingOffsets(_) => panic!("expected a drive-mode write"),
    }
}

#[test]
fn a_new_session_awaits_pose_one() {
    let s = CalibrationSession::new();
    assert_eq!(s.step, WizardStep::AwaitPoseOne);
    assert_eq!(s.inverted, vec![false; 6]);
}

#[test]
fn zero_offsets_are_six_zeros() {
    assert_eq!(zero_offsets(), vec![0; 6]);
}

#[test]
fn wizard_cancels_whole_turn_offsets_on_a_straight_arm() {
    // Simulated arm: every joint is non-inverted and its mechanical zero
    // sits a whole number of quarter turns off.  A reading in pose p with
    // homing offset h is wanted_p + d + h.
    let d: Vec<i32> = vec![1024, -2048, 0, 3072, 1024, -1024];

    let mut session = CalibrationSession::new();

    // First homing pass: offsets are written starting from zero.
    let pose1: Vec<i32> = wanted_position_1().iter().zip(&d).map(|(w, di)| w + di).collect();
    let off1 = homing_offsets(session.submit_pose(&pose1));
    assert_eq!(off1, d.iter().map(|x| -x).collect::<Vec<i32>>());
    assert_eq!(session.step, WizardStep::AwaitPoseTwo);

    // With those offsets written, pose-1 readings land exactly on target.
    let corrected1: Vec<i32> = pose1.iter().zip(&off1).map(|(p, o)| p + o).collect();
    assert_eq!(corrected1, wanted_position_1());

    // Detection pass: pose-2 readings also land on target, so nothing is
    // flagged inverted.
    let pose2: Vec<i32> =
        wanted_position_2().iter().zip(&d).zip(&off1).map(|((w, di), o)| w + di + o).collect();
    assert_eq!(pose2, wanted_position_2());
    let flags = drive_modes(session.submit_pose(&pose2));
    assert_eq!(flags, vec![false; 6]);
    assert_eq!(session.step, WizardStep::AwaitPoseOneAgain);

    // Re-homing pass: offsets are reset to zero before the read, so the
    // readings repeat pose 1 and the final offsets repeat the first pass.
    let off2 = homing_offsets(session.submit_pose(&pose1));
    assert_eq!(off2, off1);
    assert_eq!(session.step, WizardStep::Done);

    // Post-write reads at pose 1 equal the wanted pose exactly.
    let final_read: Vec<i32> = pose1.iter().zip(&off2).map(|(p, o)| p + o).collect();
    assert_eq!(final_read, wanted_position_1());
}

#[test]
fn wizard_flags_a_mirrored_joint() {
    // After the first homing pass a joint mounted backwards shows the
    // negation of the wanted pose-2 value; the detection pass flags it.
    let mut session = CalibrationSession::new();
    let _ = session.submit_pose(&wanted_position_1());
    let mut pose2 = wanted_position_2();
    pose2[3] = -pose2[3];
    let flags = drive_modes(session.submit_pose(&pose2));
    assert_eq!(flags, vec![false, false, false, true, false, false]);
    assert_eq!(session.inverted, flags);
}

#[test]
fn rehoming_uses_the_recorded_flags() {
    let mut session = CalibrationSession::new();
    let _ = session.submit_pose(&wanted_position_1());
    let mut pose2 = wanted_position_2();
    pose2[0] = -pose2[0];
    let _ = session.submit_pose(&pose2);

    // Joint 0 is now recorded inverted: its re-homing correction keeps the
    // reading's sign instead of negating it.
    let pose1 = vec![2048, 0, 1024, 0, -1024, 0];
    let off = homing_offsets(session.submit_pose(&pose1));
    assert_eq!(off[0], 2048);
    assert_eq!(off[1..], vec![0, 0, 0, 0, 0][..]);
}

#[test]
fn rounding_absorbs_operator_imprecision() {
    // Readings up to an eighth of a turn off still calibrate exactly.
    let mut session = CalibrationSession::new();
    let pose1: Vec<i32> = wanted_position_1().iter().map(|w| w + 400).collect();
    let off = homing_offsets(session.submit_pose(&pose1));
    assert_eq!(off, vec![0; 6]);
}

fn check_write(w: &BusWrite, family: ServoFamily, ids: &[u8], field: RegisterField, value: i32) {
    assert_eq!(w.family, family);
    assert_eq!(w.ids, ids);
    assert_eq!(w.field, field);
    assert_eq!(w.value, value);
}

#[test]
fn master_preparation_plan() {
    let plan = preparation_plan(false);
    assert_eq!(plan.len(), 6);
    check_write(&plan[0], ServoFamily::Xl330, &[3, 4, 5, 6], RegisterField::TorqueEnable, 0);
    check_write(&plan[1], ServoFamily::Xl330, &[3, 4, 5, 6], RegisterField::OperatingMode, 4);
    check_write(&plan[2], ServoFamily::Xl330, &[1, 2], RegisterField::TorqueEnable, 0);
    check_write(&plan[3], ServoFamily::Xl330, &[1, 2], RegisterField::OperatingMode, 4);
    check_write(&plan[4], ServoFamily::Xl330, &[1, 2, 3, 4, 5, 6], RegisterField::DriveMode, 0);
    check_write(&plan[5], ServoFamily::Xl330, &[1, 2, 3, 4, 5, 6], RegisterField::HomingOffset, 0);
}

#[test]
fn puppet_preparation_plan() {
    let plan = preparation_plan(true);
    assert_eq!(plan.len(), 9);
    check_write(&plan[0], ServoFamily::Xl330, &[3, 4, 5, 6], RegisterField::TorqueEnable, 0);
    check_write(&plan[1], ServoFamily::Xl330, &[3, 4, 5, 6], RegisterField::OperatingMode, 4);
    check_write(&plan[2], ServoFamily::Xl430, &[1, 2], RegisterField::TorqueEnable, 0);
    check_write(&plan[3], ServoFamily::Xl430, &[1, 2], RegisterField::OperatingMode, 4);
    check_write(&plan[4], ServoFamily::Xl330, &[6], RegisterField::OperatingMode, 5);
    check_write(&plan[5], ServoFamily::Xl430, &[1, 2], RegisterField::DriveMode, 0);
    check_write(&plan[6], ServoFamily::Xl330, &[3, 4, 5, 6], RegisterField::DriveMode, 0);
    check_write(&plan[7], ServoFamily::Xl430, &[1, 2], RegisterField::HomingOffset, 0);
    check_write(&plan[8], ServoFamily::Xl330, &[3, 4, 5, 6], RegisterField::HomingOffset, 0);
}
