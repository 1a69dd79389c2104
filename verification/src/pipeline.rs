//! The mirroring pipeline's forwarding step.
//!
//! A sampling thread reads the master arm at the bus's pace and queues each
//! position frame; a forwarding thread turns every queued frame into one
//! batched goal-position write for the puppet arm, in arrival order.  The
//! computation of that step is here: remap the gripper joint through the
//! configured [`GripperRange`], then, where the puppet has more joints than
//! the master, repeat the shared-axis values by the fixed duplication rule.
//! Threads, channels and the bus writes themselves stay with the caller.

use vstd::prelude::*;
use crate::gripper::GripperRange;

verus! {

/// Integer view of a frame of register values.
pub open spec fn frame_view(s: Seq<u32>) -> Seq<int> {
    s.map_values(|x: u32| x as int)
}

/// Fixed shape of one master-to-puppet forwarding step.
pub struct PipelineConfig {
    /// Index of the gripper joint in the master frame.
    pub gripper_index: usize,
    /// Whether the puppet arm repeats shared-axis joints: two puppet joints
    /// mechanically mirror master joint 1 and two mirror master joint 2.
    pub duplicate_shared: bool,
    /// Gripper pairing used by the remap.
    pub range: GripperRange,
}

impl PipelineConfig {
    /// A usable configuration has a usable gripper pairing.
    pub open spec fn wf(self) -> bool {
        self.range.wf()
    }
}

/// A master frame with its gripper entry remapped onto the puppet range.
pub open spec fn spec_remap_frame(pos: Seq<int>, cfg: PipelineConfig) -> Seq<int> {
    pos.update(
        cfg.gripper_index as int,
        cfg.range.remap_spec(pos[cfg.gripper_index as int]),
    )
}

/// The fixed shared-axis duplication rule: of a seven-entry frame, the
/// second and third entries both take the master's second joint and the
/// fourth and fifth both take the master's third, giving the puppet's nine.
pub open spec fn spec_duplicate_shared(pos: Seq<int>) -> Seq<int>
    recommends
        pos.len() == 7,
{
    seq![pos[0], pos[1], pos[1], pos[2], pos[2], pos[3], pos[4], pos[5], pos[6]]
}

/// What the forwarding step makes of one master frame.
pub open spec fn spec_forward(pos: Seq<int>, cfg: PipelineConfig) -> Seq<int> {
    let remapped = spec_remap_frame(pos, cfg);
    if cfg.duplicate_shared {
        spec_duplicate_shared(remapped)
    } else {
        remapped
    }
}

/// A frame the forwarding step accepts: the gripper entry exists, sits at or
/// above the master range and remaps into the register range, and a frame
/// to be duplicated has exactly the seven master joints.
pub open spec fn frame_ok(pos: Seq<int>, cfg: PipelineConfig) -> bool {
    &&& (cfg.gripper_index as int) < pos.len()
    &&& cfg.range.master_min <= pos[cfg.gripper_index as int]
    &&& cfg.range.remap_spec(pos[cfg.gripper_index as int]) <= u32::MAX
    &&& cfg.duplicate_shared ==> pos.len() == 7
}

/// Remap one master frame's gripper entry: the pre-duplication vector,
/// which is also what a publishing stage would emit as the goal-position
/// observable.
pub fn remap_frame(pos: &Vec<u32>, cfg: &PipelineConfig) -> (remapped: Vec<u32>)
    requires
        cfg.wf(),
        frame_ok(frame_view(pos@), *cfg),
    ensures
        frame_view(remapped@) == spec_remap_frame(frame_view(pos@), *cfg),
        remapped.len() == pos.len(),
{
    proof {
        assert forall|i: int| 0 <= i < pos.len() implies #[trigger] frame_view(pos@)[i] == pos[i]
            as int by {}
    }
    let mut remapped: Vec<u32> = Vec::new();
    let mut j: usize = 0;
    while j < pos.len()
        invariant
            j <= pos.len(),
            remapped.len() == j,
            forall|i: int| 0 <= i < j ==> #[trigger] remapped[i] == pos[i],
        decreases pos.len() - j,
    {
        remapped.push(pos[j]);
        j += 1;
    }
    let g = cfg.range.remap(remapped[cfg.gripper_index]);
    remapped.set(cfg.gripper_index, g);
    proof {
        assert(frame_view(remapped@) =~= spec_remap_frame(frame_view(pos@), *cfg));
    }
    remapped
}

/// Turn one master position frame into the puppet goal-position frame:
/// remap the gripper entry, then apply the duplication rule if the puppet
/// needs it.
pub fn forward_frame(pos: &Vec<u32>, cfg: &PipelineConfig) -> (goal: Vec<u32>)
    requires
        cfg.wf(),
        frame_ok(frame_view(pos@), *cfg),
    ensures
        frame_view(goal@) == spec_forward(frame_view(pos@), *cfg),
{
    let remapped = remap_frame(pos, cfg);
    if cfg.duplicate_shared {
        let mut out: Vec<u32> = Vec::new();
        out.push(remapped[0]);
        out.push(remapped[1]);
        out.push(remapped[1]);
        out.push(remapped[2]);
        out.push(remapped[2]);
        out.push(remapped[3]);
        out.push(remapped[4]);
        out.push(remapped[5]);
        out.push(remapped[6]);
        proof {
            assert(frame_view(out@) =~= spec_duplicate_shared(frame_view(remapped@)));
        }
        out
    } else {
        remapped
    }
}

/// Forward a scripted sequence of master frames.
///
/// Pipeline-ordering law: the forwarding step issues exactly one puppet
/// write per read, in the order the reads arrived, each the forwarding of
/// its read and nothing else — the channel between the two threads is
/// first-in first-out and drops nothing.
pub fn run_pipeline(reads: &Vec<Vec<u32>>, cfg: &PipelineConfig) -> (writes: Vec<Vec<u32>>)
    requires
        cfg.wf(),
        forall|i: int| 0 <= i < reads.len() ==> frame_ok(frame_view(#[trigger] reads[i]@), *cfg),
    ensures
        writes.len() == reads.len(),
        forall|i: int| 0 <= i < reads.len() ==> #[trigger] frame_view(writes[i]@) == spec_forward(
            frame_view(reads[i]@),
            *cfg,
        ),
{
    let mut writes: Vec<Vec<u32>> = Vec::new();
    let mut j: usize = 0;
    while j < reads.len()
        invariant
            j <= reads.len(),
            writes.len() == j,
            cfg.wf(),
            forall|i: int| 0 <= i < reads.len() ==> frame_ok(
                frame_view(#[trigger] reads[i]@),
                *cfg,
            ),
            forall|i: int| 0 <= i < j ==> #[trigger] frame_view(writes[i]@) == spec_forward(
                frame_view(reads[i]@),
                *cfg,
            ),
        decreases reads.len() - j,
    {
        let goal = forward_frame(&reads[j], cfg);
        writes.push(goal);
        j += 1;
    }
    writes
}

} // verus!
