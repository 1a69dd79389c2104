//! The calibration wizard as a state machine.
//!
//! The wizard is strictly sequential: prepare the joints, then three passes,
//! each waiting for the operator to place the arm in a reference pose.  The
//! decisions live here as a step function from the captured pose to the next
//! register writes; performing the bus writes, the prompts and the reads is
//! the caller's job.  A failed bus operation simply abandons the session:
//! it holds no state worth persisting, only the writes already issued remain
//! on the devices.

use vstd::prelude::*;
use crate::calibration::{
    calculate_corrections, correction_for, detect_inversions, int_view, inversion_flag,
    wanted_pose_1, wanted_pose_2,
};
use crate::rounding::{calculate_nearest_rounded_positions, lemma_round_within_half,
    lemma_round_multiple_fixed, nearest_quarter};

verus! {

/// Which operator confirmation the wizard is waiting for next.
#[derive(Clone, Copy, PartialEq, Eq, Structural, Debug)]
pub enum WizardStep {
    /// First homing pass: the arm is to be placed in pose 1.
    AwaitPoseOne,
    /// Drive-mode detection pass: the arm is to be placed in pose 2.
    AwaitPoseTwo,
    /// Re-homing pass: the arm is to be placed back in pose 1.
    AwaitPoseOneAgain,
    /// Calibration is complete.
    Done,
}

/// The register writes the caller must perform after a pass.
pub enum WizardCommand {
    /// Persist these homing offsets, one per joint.
    WriteHomingOffsets(Vec<i32>),
    /// Persist these drive modes, one per joint: `true` is inverted.
    WriteDriveModes(Vec<bool>),
}

/// Readings a pass accepts: far enough from the tick range's ends that
/// rounding and the correction arithmetic stay in range.
pub open spec fn pose_in_range(pos: Seq<int>) -> bool {
    forall|i: int| 0 <= i < pos.len() ==> -(i32::MAX - 1536) <= #[trigger] pos[i] <= i32::MAX
        - 1536
}

/// Homing offsets a homing pass derives from raw pose-1 readings and the
/// inversion flags it assumes.
pub open spec fn offsets_for(pos: Seq<int>, inverted: Seq<bool>) -> Seq<int> {
    Seq::new(6, |i: int| correction_for(nearest_quarter(pos[i]), inverted[i], wanted_pose_1()[i]))
}

/// Inversion flags the detection pass derives from raw pose-2 readings.
pub open spec fn flags_for(pos: Seq<int>) -> Seq<bool> {
    Seq::new(6, |i: int| inversion_flag(nearest_quarter(pos[i]), wanted_pose_2()[i]))
}

/// One run of the calibration wizard for a six-joint arm.
pub struct CalibrationSession {
    /// The pass the wizard is waiting to perform.
    pub step: WizardStep,
    /// Inversion flags learned so far; all `false` until the detection pass.
    pub inverted: Vec<bool>,
}

impl CalibrationSession {
    /// A session holds one flag per joint.
    pub open spec fn wf(self) -> bool {
        self.inverted.len() == 6
    }

    /// Start a session: the first homing pass assumes no joint is inverted.
    pub fn new() -> (s: CalibrationSession)
        ensures
            s.wf(),
            s.step is AwaitPoseOne,
            forall|i: int| 0 <= i < 6 ==> !#[trigger] s.inverted[i],
    {
        let mut inverted: Vec<bool> = Vec::new();
        let mut j: usize = 0;
        while j < 6
            invariant
                j <= 6,
                inverted.len() == j,
                forall|i: int| 0 <= i < j ==> !#[trigger] inverted[i],
            decreases 6 - j,
        {
            inverted.push(false);
            j += 1;
        }
        CalibrationSession { step: WizardStep::AwaitPoseOne, inverted }
    }

    /// Feed the wizard the raw tick readings captured for the pass it is
    /// waiting on; it hands back the register writes to perform and moves to
    /// the next pass.
    ///
    /// The first homing pass derives offsets assuming no inversion; the
    /// detection pass derives and records the inversion flags; the re-homing
    /// pass derives the final offsets using the recorded flags.
    pub fn submit_pose(&mut self, pos: &Vec<i32>) -> (cmd: WizardCommand)
        requires
            old(self).wf(),
            !(old(self).step is Done),
            pos.len() == 6,
            pose_in_range(int_view(pos@)),
        ensures
            final(self).wf(),
            final(self).inverted.len() == 6,
            old(self).step is AwaitPoseOne ==> {
                &&& final(self).step is AwaitPoseTwo
                &&& final(self).inverted == old(self).inverted
                &&& cmd matches WizardCommand::WriteHomingOffsets(off) && int_view(off@)
                    == offsets_for(int_view(pos@), Seq::new(6, |i: int| false))
            },
            old(self).step is AwaitPoseTwo ==> {
                &&& final(self).step is AwaitPoseOneAgain
                &&& cmd matches WizardCommand::WriteDriveModes(flags) && flags@ == flags_for(
                    int_view(pos@),
                ) && final(self).inverted@ == flags@
            },
            old(self).step is AwaitPoseOneAgain ==> {
                &&& final(self).step is Done
                &&& final(self).inverted == old(self).inverted
                &&& cmd matches WizardCommand::WriteHomingOffsets(off) && int_view(off@)
                    == offsets_for(int_view(pos@), old(self).inverted@)
            },
    {
        proof {
            assert forall|i: int| 0 <= i < pos.len() implies -(i32::MAX - 1536)
                <= #[trigger] pos[i] <= i32::MAX - 1536 by {
                assert(int_view(pos@)[i] == pos[i] as int);
            }
        }
        let rounded = calculate_nearest_rounded_positions(pos);
        proof {
            assert forall|i: int| 0 <= i < 6 implies -(i32::MAX - 1024)
                <= #[trigger] rounded[i] <= i32::MAX - 1024 by {
                lemma_round_within_half(pos[i] as int);
            }
        }
        match self.step {
            WizardStep::AwaitPoseOne => {
                let mut none_inverted: Vec<bool> = Vec::new();
                let mut j: usize = 0;
                while j < 6
                    invariant
                        j <= 6,
                        none_inverted.len() == j,
                        forall|i: int| 0 <= i < j ==> !#[trigger] none_inverted[i],
                    decreases 6 - j,
                {
                    none_inverted.push(false);
                    j += 1;
                }
                let off = calculate_corrections(&rounded, &none_inverted);
                self.step = WizardStep::AwaitPoseTwo;
                proof {
                    assert(int_view(off@) =~= offsets_for(
                        int_view(pos@),
                        Seq::new(6, |i: int| false),
                    ));
                }
                WizardCommand::WriteHomingOffsets(off)
            },
            WizardStep::AwaitPoseTwo => {
                let flags = detect_inversions(&rounded);
                self.step = WizardStep::AwaitPoseOneAgain;
                self.inverted = clone_flags(&flags);
                proof {
                    assert(flags@ =~= flags_for(int_view(pos@)));
                }
                WizardCommand::WriteDriveModes(flags)
            },
            WizardStep::AwaitPoseOneAgain | WizardStep::Done => {
                let off = calculate_corrections(&rounded, &self.inverted);
                self.step = WizardStep::Done;
                proof {
                    assert(int_view(off@) =~= offsets_for(int_view(pos@), self.inverted@));
                }
                WizardCommand::WriteHomingOffsets(off)
            },
        }
    }
}

/// Copy a vector of inversion flags.
fn clone_flags(flags: &Vec<bool>) -> (r: Vec<bool>)
    ensures
        r@ == flags@,
{
    let mut r: Vec<bool> = Vec::new();
    let mut j: usize = 0;
    while j < flags.len()
        invariant
            j <= flags.len(),
            r.len() == j,
            forall|i: int| 0 <= i < j ==> #[trigger] r[i] == flags[i],
        decreases flags.len() - j,
    {
        r.push(flags[j]);
        j += 1;
    }
    proof {
        assert(r@ =~= flags@);
    }
    r
}

/// Calibration-correctness law, exact half: for a joint that is physically
/// non-inverted and whose raw pose-1 reading sits a whole number of quarter
/// turns away from the wanted pose-1 value, the homing pass computes a
/// correction under which the same reading becomes exactly the wanted
/// value.
pub proof fn lemma_calibration_corrects(d: int, j: int)
    requires
        0 <= j < 6,
        d % 1024 == 0,
        -(i32::MAX - 1536) <= wanted_pose_1()[j] + d <= i32::MAX - 1536,
    ensures
        ({
            let reading = wanted_pose_1()[j] + d;
            let corr = correction_for(nearest_quarter(reading), false, wanted_pose_1()[j]);
            reading + corr == wanted_pose_1()[j]
        }),
{
    let reading = wanted_pose_1()[j] + d;
    assert(reading % 1024 == 0);
    lemma_round_multiple_fixed(reading);
}

/// Calibration-correctness law, bounded half: whatever the raw pose-1
/// reading, the derived correction brings that reading within half a
/// quarter turn of the wanted pose-1 value.
pub proof fn lemma_calibration_within_half(reading: int, j: int)
    requires
        0 <= j < 6,
        -(i32::MAX - 1536) <= reading <= i32::MAX - 1536,
    ensures
        ({
            let corr = correction_for(nearest_quarter(reading), false, wanted_pose_1()[j]);
            -512 <= (reading + corr) - wanted_pose_1()[j] <= 512
        }),
{
    lemma_round_within_half(reading);
}

/// Calibration-correctness law at the session level: on a straight
/// (non-inverted) arm whose joints each sit a whole number of quarter turns
/// off, the first pass's offsets make every pose-1 reading exactly the
/// wanted pose-1 value, and corrected pose-2 readings leave no joint
/// flagged, so the re-homing pass repeats the first.
pub proof fn lemma_wizard_passes_cohere(d: Seq<int>)
    requires
        d.len() == 6,
        forall|j: int| 0 <= j < 6 ==> (#[trigger] d[j]) % 1024 == 0,
        forall|j: int| 0 <= j < 6 ==> -(i32::MAX - 1536) <= wanted_pose_1()[j] + #[trigger] d[j]
            <= i32::MAX - 1536,
    ensures
        ({
            let pose1 = Seq::new(6, |j: int| wanted_pose_1()[j] + d[j]);
            let off = offsets_for(pose1, Seq::new(6, |j: int| false));
            forall|j: int| 0 <= j < 6 ==> pose1[j] + #[trigger] off[j] == wanted_pose_1()[j]
        }),
        forall|j: int| 0 <= j < 6 ==> !(#[trigger] flags_for(wanted_pose_2())[j]),
{
    let pose1 = Seq::new(6, |j: int| wanted_pose_1()[j] + d[j]);
    let off = offsets_for(pose1, Seq::new(6, |j: int| false));
    assert forall|j: int| 0 <= j < 6 implies pose1[j] + #[trigger] off[j] == wanted_pose_1()[j] by {
        lemma_calibration_corrects(d[j], j);
    }
    assert forall|j: int| 0 <= j < 6 implies !(#[trigger] flags_for(wanted_pose_2())[j]) by {
        lemma_round_multiple_fixed(wanted_pose_2()[j]);
    }
}

/// A servo family on the bus; the two arms mix the two.
#[derive(Clone, Copy, PartialEq, Eq, Structural, Debug)]
pub enum ServoFamily {
    /// The lighter actuators, used for most joints.
    Xl330,
    /// The stronger actuators, used for the puppet arm's first two joints.
    Xl430,
}

/// A device register the preparation step writes.
#[derive(Clone, Copy, PartialEq, Eq, Structural, Debug)]
pub enum RegisterField {
    /// Torque on/off; must be off while configuring.
    TorqueEnable,
    /// Operating mode; extended position is `4`, current-based position `5`.
    OperatingMode,
    /// Drive mode; `1` inverts the direction.
    DriveMode,
    /// Homing offset in ticks, added to raw readings.
    HomingOffset,
}

/// One synchronous register write to a set of servo IDs, all receiving the
/// same value.
pub struct BusWrite {
    /// Servo family addressed by the write.
    pub family: ServoFamily,
    /// Bus IDs addressed, in order.
    pub ids: Vec<u8>,
    /// Register written.
    pub field: RegisterField,
    /// Value written to every addressed servo.
    pub value: i32,
}

/// What one planned write must be.
pub open spec fn write_is(
    w: BusWrite,
    family: ServoFamily,
    ids: Seq<u8>,
    field: RegisterField,
    value: int,
) -> bool {
    &&& w.family == family
    &&& w.ids@ == ids
    &&& w.field == field
    &&& w.value == value
}

/// The fixed preparation sequence run before the first pass: torque off
/// everywhere, every joint forced into extended-position mode (the puppet
/// gripper into current-based position mode), drive modes reset to
/// non-inverted and homing offsets to zero.
///
/// The master arm is all one servo family; the puppet arm drives its first
/// two joints with the stronger family, so its writes are split by family.
pub fn preparation_plan(puppet: bool) -> (plan: Vec<BusWrite>)
    ensures
        write_is(plan[0], ServoFamily::Xl330, seq![3u8, 4u8, 5u8, 6u8], RegisterField::TorqueEnable, 0),
        write_is(plan[1], ServoFamily::Xl330, seq![3u8, 4u8, 5u8, 6u8], RegisterField::OperatingMode, 4),
        !puppet ==> {
            &&& plan.len() == 6
            &&& write_is(plan[2], ServoFamily::Xl330, seq![1u8, 2u8], RegisterField::TorqueEnable, 0)
            &&& write_is(plan[3], ServoFamily::Xl330, seq![1u8, 2u8], RegisterField::OperatingMode, 4)
            &&& write_is(plan[4], ServoFamily::Xl330, seq![1u8, 2u8, 3u8, 4u8, 5u8, 6u8], RegisterField::DriveMode, 0)
            &&& write_is(plan[5], ServoFamily::Xl330, seq![1u8, 2u8, 3u8, 4u8, 5u8, 6u8], RegisterField::HomingOffset, 0)
        },
        puppet ==> {
            &&& plan.len() == 9
            &&& write_is(plan[2], ServoFamily::Xl430, seq![1u8, 2u8], RegisterField::TorqueEnable, 0)
            &&& write_is(plan[3], ServoFamily::Xl430, seq![1u8, 2u8], RegisterField::OperatingMode, 4)
            &&& write_is(plan[4], ServoFamily::Xl330, seq![6u8], RegisterField::OperatingMode, 5)
            &&& write_is(plan[5], ServoFamily::Xl430, seq![1u8, 2u8], RegisterField::DriveMode, 0)
            &&& write_is(plan[6], ServoFamily::Xl330, seq![3u8, 4u8, 5u8, 6u8], RegisterField::DriveMode, 0)
            &&& write_is(plan[7], ServoFamily::Xl430, seq![1u8, 2u8], RegisterField::HomingOffset, 0)
            &&& write_is(plan[8], ServoFamily::Xl330, seq![3u8, 4u8, 5u8, 6u8], RegisterField::HomingOffset, 0)
        },
{
    let mut plan: Vec<BusWrite> = Vec::new();
    let wrist_ids: Vec<u8> = vec![3, 4, 5, 6];
    let base_ids: Vec<u8> = vec![1, 2];
    let all_ids: Vec<u8> = vec![1, 2, 3, 4, 5, 6];
    let gripper_ids: Vec<u8> = vec![6];
    proof {
        assert(wrist_ids@ =~= seq![3u8, 4u8, 5u8, 6u8]);
        assert(base_ids@ =~= seq![1u8, 2u8]);
        assert(all_ids@ =~= seq![1u8, 2u8, 3u8, 4u8, 5u8, 6u8]);
        assert(gripper_ids@ =~= seq![6u8]);
    }
    plan.push(BusWrite {
        family: ServoFamily::Xl330,
        ids: clone_ids(&wrist_ids),
        field: RegisterField::TorqueEnable,
        value: 0,
    });
    plan.push(BusWrite {
        family: ServoFamily::Xl330,
        ids: clone_ids(&wrist_ids),
        field: RegisterField::OperatingMode,
        value: 4,
    });
    if !puppet {
        plan.push(BusWrite {
            family: ServoFamily::Xl330,
            ids: clone_ids(&base_ids),
            field: RegisterField::TorqueEnable,
            value: 0,
        });
        plan.push(BusWrite {
            family: ServoFamily::Xl330,
            ids: clone_ids(&base_ids),
            field: RegisterField::OperatingMode,
            value: 4,
        });
        plan.push(BusWrite {
            family: ServoFamily::Xl330,
            ids: clone_ids(&all_ids),
            field: RegisterField::DriveMode,
            value: 0,
        });
        plan.push(BusWrite {
            family: ServoFamily::Xl330,
            ids: clone_ids(&all_ids),
            field: RegisterField::HomingOffset,
            value: 0,
        });
    } else {
        plan.push(BusWrite {
            family: ServoFamily::Xl430,
            ids: clone_ids(&base_ids),
            field: RegisterField::TorqueEnable,
            value: 0,
        });
        plan.push(BusWrite {
            family: ServoFamily::Xl430,
            ids: clone_ids(&base_ids),
            field: RegisterField::OperatingMode,
            value: 4,
        });
        plan.push(BusWrite {
            family: ServoFamily::Xl330,
            ids: clone_ids(&gripper_ids),
            field: RegisterField::OperatingMode,
            value: 5,
        });
        plan.push(BusWrite {
            family: ServoFamily::Xl430,
            ids: clone_ids(&base_ids),
            field: RegisterField::DriveMode,
            value: 0,
        });
        plan.push(BusWrite {
            family: ServoFamily::Xl330,
            ids: clone_ids(&wrist_ids),
            field: RegisterField::DriveMode,
            value: 0,
        });
        plan.push(BusWrite {
            family: ServoFamily::Xl430,
            ids: clone_ids(&base_ids),
            field: RegisterField::HomingOffset,
            value: 0,
        });
        plan.push(BusWrite {
            family: ServoFamily::Xl330,
            ids: clone_ids(&wrist_ids),
            field: RegisterField::HomingOffset,
            value: 0,
        });
    }
    plan
}

/// Copy a vector of bus IDs.
fn clone_ids(ids: &Vec<u8>) -> (r: Vec<u8>)
    ensures
        r@ == ids@,
{
    let mut r: Vec<u8> = Vec::new();
    let mut j: usize = 0;
    while j < ids.len()
        invariant
            j <= ids.len(),
            r.len() == j,
            forall|i: int| 0 <= i < j ==> #[trigger] r[i] == ids[i],
        decreases ids.len() - j,
    {
        r.push(ids[j]);
        j += 1;
    }
    proof {
        assert(r@ =~= ids@);
    }
    r
}

/// The all-zero homing offsets written before each homing pass reads the
/// arm.
pub fn zero_offsets() -> (v: Vec<i32>)
    ensures
        v.len() == 6,
        forall|i: int| 0 <= i < 6 ==> #[trigger] v[i] == 0i32,
{
    let mut v: Vec<i32> = Vec::new();
    let mut j: usize = 0;
    while j < 6
        invariant
            j <= 6,
            v.len() == j,
            forall|i: int| 0 <= i < j ==> #[trigger] v[i] == 0i32,
        decreases 6 - j,
    {
        v.push(0);
        j += 1;
    }
    v
}

} // verus!
