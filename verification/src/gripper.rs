//! Gripper range remapping.
//!
//! The master and puppet grippers cover different stretches of the tick
//! range, so the master gripper's reading is remapped linearly onto the
//! puppet gripper's operating range before being forwarded.  No clamping is
//! performed: readings past the master bounds extrapolate linearly, the
//! master gripper's own mechanical stops being trusted to keep them in
//! range.

use vstd::prelude::*;
use vstd::arithmetic::div_mod::{lemma_div_is_ordered, lemma_div_by_multiple};
use vstd::arithmetic::mul::lemma_mul_inequality;

verus! {

/// The tick bounds of one master/puppet gripper pairing.
pub struct GripperRange {
    /// Lowest reading the master gripper produces.
    pub master_min: u32,
    /// Highest reading the master gripper produces.
    pub master_max: u32,
    /// Puppet goal position matching `master_min`.
    pub puppet_min: u32,
    /// Puppet goal position matching `master_max`.
    pub puppet_max: u32,
}

impl GripperRange {
    /// A usable pairing: the master range is non-empty (it is divided by)
    /// and the puppet range is not reversed.
    pub open spec fn wf(self) -> bool {
        &&& self.master_min < self.master_max
        &&& self.puppet_min <= self.puppet_max
    }

    /// The linear remap: the master reading's offset into its range, scaled
    /// by the ratio of the two range widths, shifted to the puppet's lower
    /// bound.
    pub open spec fn remap_spec(self, v: int) -> int {
        (v - self.master_min) * (self.puppet_max - self.puppet_min) / (self.master_max
            - self.master_min) + self.puppet_min
    }

    /// Remap a master gripper reading onto the puppet gripper's range.
    pub fn remap(&self, v: u32) -> (r: u32)
        requires
            self.wf(),
            v >= self.master_min,
            self.remap_spec(v as int) <= u32::MAX,
        ensures
            r as int == self.remap_spec(v as int),
    {
        let offset: u64 = (v - self.master_min) as u64;
        let puppet_width: u64 = (self.puppet_max - self.puppet_min) as u64;
        let master_width: u64 = (self.master_max - self.master_min) as u64;
        proof {
            assert(offset * puppet_width <= 0xffff_ffffu64 * 0xffff_ffffu64) by (nonlinear_arith)
                requires
                    offset <= 0xffff_ffffu64,
                    puppet_width <= 0xffff_ffffu64,
            ;
        }
        let scaled: u64 = (offset * puppet_width) / master_width;
        let shifted: u64 = scaled + self.puppet_min as u64;
        proof {
            assert(scaled <= offset * puppet_width) by {
                lemma_div_is_ordered(0, offset * puppet_width as int, master_width as int);
                assert(offset * puppet_width / (master_width as int) <= offset * puppet_width)
                    by (nonlinear_arith)
                    requires
                        master_width >= 1,
                        offset * puppet_width >= 0,
                ;
            }
        }
        shifted as u32
    }

    /// Remap law, lower anchor: the master range's lower bound maps exactly
    /// to the puppet range's lower bound.
    pub proof fn lemma_remap_min(self)
        requires
            self.wf(),
        ensures
            self.remap_spec(self.master_min as int) == self.puppet_min,
    {
        let width = self.master_max - self.master_min;
        assert(0int * (self.puppet_max - self.puppet_min) == 0);
        assert(0int / width == 0) by (nonlinear_arith)
            requires
                width >= 1,
        ;
    }

    /// Remap law, upper anchor: the master range's upper bound maps exactly
    /// to the puppet range's upper bound.
    pub proof fn lemma_remap_max(self)
        requires
            self.wf(),
        ensures
            self.remap_spec(self.master_max as int) == self.puppet_max,
    {
        let mw = self.master_max - self.master_min;
        let pw = self.puppet_max - self.puppet_min;
        lemma_div_by_multiple(pw as int, mw as int);
        assert(pw * mw == mw * pw) by (nonlinear_arith);
    }

    /// Remap law, monotonicity: a larger master reading never maps below a
    /// smaller one.
    pub proof fn lemma_remap_monotonic(self, v1: int, v2: int)
        requires
            self.wf(),
            v1 <= v2,
        ensures
            self.remap_spec(v1) <= self.remap_spec(v2),
    {
        let mw = self.master_max - self.master_min;
        let pw = self.puppet_max - self.puppet_min;
        lemma_mul_inequality(v1 - self.master_min, v2 - self.master_min, pw as int);
        lemma_div_is_ordered(
            (v1 - self.master_min) * pw,
            (v2 - self.master_min) * pw,
            mw as int,
        );
    }
}

} // verus!
