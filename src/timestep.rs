use vstd::prelude::*;

verus! {

/// Longest frame time fed into the simulation (250 ms); longer stalls are clamped so
/// the simulation does not spiral trying to catch up.
pub const MAX_FRAME_NANOS: u64 = 250_000_000;

/// Accumulates real frame time and converts it into a whole number of fixed simulation
/// steps, carrying the remainder to the next frame.
pub struct FixedTimestep {
    accumulator: u64,
    delta: u64,
}

pub open spec fn clamp_frame(frame_nanos: u64) -> int {
    if frame_nanos > MAX_FRAME_NANOS {
        MAX_FRAME_NANOS as int
    } else {
        frame_nanos as int
    }
}

impl FixedTimestep {
    pub closed spec fn accumulated(&self) -> int {
        self.accumulator as int
    }

    pub closed spec fn step_nanos(&self) -> int {
        self.delta as int
    }

    pub open spec fn wf(&self) -> bool {
        0 < self.step_nanos() <= u64::MAX - MAX_FRAME_NANOS && 0 <= self.accumulated() < self.step_nanos()
    }

    pub fn new(delta_nanos: u64) -> (r: FixedTimestep)
        requires
            0 < delta_nanos <= u64::MAX - MAX_FRAME_NANOS,
        ensures
            r.wf(),
            r.accumulated() == 0,
            r.step_nanos() == delta_nanos,
    {
        FixedTimestep { accumulator: 0, delta: delta_nanos }
    }

    /// Adds one frame's time (clamped to `MAX_FRAME_NANOS`) and returns how many
    /// simulation steps are due; the time left over stays accumulated.
    pub fn advance(&mut self, frame_nanos: u64) -> (steps: u64)
        requires
            old(self).wf(),
        ensures
            final(self).wf(),
            final(self).step_nanos() == old(self).step_nanos(),
            steps * old(self).step_nanos() + final(self).accumulated() == old(self).accumulated()
                + clamp_frame(frame_nanos),
    {
        let frame = if frame_nanos > MAX_FRAME_NANOS {
            MAX_FRAME_NANOS
        } else {
            frame_nanos
        };
        let total = self.accumulator + frame;
        let steps = total / self.delta;
        self.accumulator = total % self.delta;
        proof {
            vstd::arithmetic::div_mod::lemma_fundamental_div_mod(total as int, self.delta as int);
            vstd::arithmetic::mul::lemma_mul_is_commutative(steps as int, self.delta as int);
        }
        steps
    }

    /// Time accumulated toward the next step.
    pub fn remainder(&self) -> (r: u64)
        ensures
            r == self.accumulated(),
    {
        self.accumulator
    }

    /// Length of one step.
    pub fn delta(&self) -> (r: u64)
        ensures
            r == self.step_nanos(),
    {
        self.delta
    }
}

} // verus!
