//! Bookkeeping of the sample-parallel render.
//!
//! The renderer draws one full image layer — one sample per pixel — per unit
//! of work, merges each finished layer into a shared accumulator under a
//! lock, and reports progress as layers complete.

use vstd::prelude::*;

verus! {

/// Whole-percent progress after `done` of `total` layers have merged.
pub fn progress_percent(done: u32, total: u32) -> (percent: u32)
    requires
        0 < total,
        done <= total,
    ensures
        percent == done as int * 100 / total as int,
        percent <= 100,
{
    proof {
        assert(done as int * 100 / total as int <= 100) by (nonlinear_arith)
            requires
                0 < total,
                done <= total,
        ;
    }
    ((done as u64 * 100) / total as u64) as u32
}

} // verus!
