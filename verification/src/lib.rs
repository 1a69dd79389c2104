//! Core logic of a two-armed teleoperation rig: a human-driven master arm is
//! mirrored onto a puppet arm, both made of daisy-chained rotary actuators on
//! a serial bus.
//!
//! This crate holds the verified parts: the angle codec between register
//! values and signed ticks, the calibration wizard that derives per-joint
//! homing offsets and inversion flags from two reference poses, the gripper
//! range remap, and the per-tick forwarding step of the mirroring pipeline.
//! Bus transport, operator prompts and the event-bus publishing stage are
//! unverified glue that lives outside this crate and hands plain values in.

pub mod calibration;
pub mod cli;
pub mod codec;
pub mod gripper;
pub mod pipeline;
pub mod rounding;
pub mod session;
