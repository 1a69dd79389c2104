use teleop_core::gripper::GripperRange;
use teleop_core::pipeline::{forward_frame, remap_frame, run_pipeline, PipelineConfig};

// The raw-tick gripper pairing used by the tick-domain teleop program.
fn tick_range() -> GripperRange {
    GripperRange { master_min: 1965, master_max: 2554, puppet_min: 2500, puppet_max: 3145 }
}

fn nine_joint_config() -> PipelineConfig {
    // Nine-servo puppet fed from seven master readings: gripper last,
    // shared axes duplicated.
    PipelineConfig { gripper_index: 6, duplicate_shared: true, range: tick_range() }
}

#[test]
fn gripper_bounds_map_to_puppet_bounds() {
    let r = tick_range();
    assert_eq!(r.remap(1965), 2500);
    assert_eq!(r.remap(2554), 3145);
}

#[test]
fn gripper_remap_is_monotonic_between_bounds() {
    let r = tick_range();
    let mut last = r.remap(1965);
    for v in 1966..=2554 {
        let cur = r.remap(v);
        assert!(cur >= last);
        last = cur;
    }
    // Inputs past the master bound extrapolate rather than clamp.
    assert!(r.remap(3000) > 3145);
}

#[test]
fn gripper_remap_midpoint() {
    // Offset 294 of 589 scales to 294 * 645 / 589 = 321 (rounded down).
    let r = tick_range();
    assert_eq!(r.remap(2259), 2821);
}

#[test]
fn remapping_touches_only_the_gripper_entry() {
    let cfg = nine_joint_config();
    let master = vec![10, 20, 30, 40, 50, 60, 2554];
    let observable = remap_frame(&master, &cfg);
    assert_eq!(observable, vec![10, 20, 30, 40, 50, 60, 3145]);
}

#[test]
fn forwarding_remaps_and_duplicates_shared_axes() {
    let cfg = nine_joint_config();
    let master = vec![10, 20, 30, 40, 50, 60, 1965];
    let goal = forward_frame(&master, &cfg);
    assert_eq!(goal, vec![10, 20, 20, 30, 30, 40, 50, 60, 2500]);
}

#[test]
fn forwarding_without_duplication_keeps_the_frame_shape() {
    let cfg = PipelineConfig { gripper_index: 8, duplicate_shared: false, range: tick_range() };
    let master = vec![1, 2, 3, 4, 5, 6, 7, 8, 2554];
    let goal = forward_frame(&master, &cfg);
    assert_eq!(goal, vec![1, 2, 3, 4, 5, 6, 7, 8, 3145]);
}

#[test]
fn pipeline_writes_once_per_read_in_order() {
    let cfg = nine_joint_config();
    let reads = vec![
        vec![1, 2, 3, 4, 5, 6, 1965],
        vec![7, 8, 9, 10, 11, 12, 2554],
        vec![0, 0, 0, 0, 0, 0, 2259],
        vec![1, 2, 3, 4, 5, 6, 1965],
    ];
    let writes = run_pipeline(&reads, &cfg);
    assert_eq!(writes.len(), 4);
    assert_eq!(writes[0], vec![1, 2, 2, 3, 3, 4, 5, 6, 2500]);
    assert_eq!(writes[1], vec![7, 8, 8, 9, 9, 10, 11, 12, 3145]);
    assert_eq!(writes[2], vec![0, 0, 0, 0, 0, 0, 0, 0, 2821]);
    assert_eq!(writes[3], writes[0]);
}

#[test]
fn already_homed_arm_mirrors_to_zero() {
    // End to end: a homed, non-inverted master reads all zeros; the gripper
    // sits at its lower bound, which maps to the puppet's lower bound, and
    // the puppet write is all zeros.
    let cfg = PipelineConfig {
        gripper_index: 5,
        duplicate_shared: false,
        range: GripperRange { master_min: 0, master_max: 589, puppet_min: 0, puppet_max: 645 },
    };
    let master = vec![0, 0, 0, 0, 0, 0];
    let goal = forward_frame(&master, &cfg);
    assert_eq!(goal, vec![0, 0, 0, 0, 0, 0]);
}
