//! The motion watcher: compares each three-axis sample against the previous
//! one and asks for a reset signal when the summed axis deltas exceed a fixed
//! tolerance. The baseline always advances to the newest sample, whether or
//! not the tolerance was exceeded; a failed sensor read is simply not handed
//! to the watcher, so the baseline then stays where it was.

use vstd::math::abs;
use vstd::prelude::*;

verus! {

/// Summed absolute axis deltas above this emit a reset signal.
pub const DIFFERENCE_TOLERANCE: i32 = 1000;

/// Task-local state of the periodic motion poll: the previous accepted
/// sample, the baseline the next sample is compared against.
pub struct MotionWatcher {
    pub prev_x: i16,
    pub prev_y: i16,
    pub prev_z: i16,
}

/// The motion measure between two samples: the sum of the absolute
/// per-axis differences.
pub open spec fn sample_delta(
    px: int, py: int, pz: int,
    x: int, y: int, z: int,
) -> int {
    (abs(x - px) + abs(y - py) + abs(z - pz)) as int
}

impl MotionWatcher {
    /// Starts watching with `(x, y, z)` as the baseline, so the first
    /// comparison is against a real sample rather than a zeroed one.
    pub fn new(x: i16, y: i16, z: i16) -> (w: MotionWatcher)
        ensures
            w.prev_x == x && w.prev_y == y && w.prev_z == z,
    {
        MotionWatcher { prev_x: x, prev_y: y, prev_z: z }
    }

    /// Takes one sample: reports whether the motion against the baseline
    /// exceeds the tolerance, and makes the sample the new baseline either
    /// way.
    pub fn observe(&mut self, x: i16, y: i16, z: i16) -> (emit: bool)
        ensures
            emit == (sample_delta(
                old(self).prev_x as int, old(self).prev_y as int, old(self).prev_z as int,
                x as int, y as int, z as int,
            ) > DIFFERENCE_TOLERANCE),
            final(self).prev_x == x && final(self).prev_y == y && final(self).prev_z == z,
    {
        let dx: i32 = x as i32 - self.prev_x as i32;
        let dy: i32 = y as i32 - self.prev_y as i32;
        let dz: i32 = z as i32 - self.prev_z as i32;
        let difference: i32 = abs_i32(dx) + abs_i32(dy) + abs_i32(dz);
        self.prev_x = x;
        self.prev_y = y;
        self.prev_z = z;
        difference > DIFFERENCE_TOLERANCE
    }
}

/// Absolute value of a small difference; the argument stays well inside the
/// range where negation cannot overflow.
fn abs_i32(v: i32) -> (r: i32)
    requires
        v > i32::MIN,
    ensures
        r == abs(v as int),
{
    if v < 0 { -v } else { v }
}

} // verus!
