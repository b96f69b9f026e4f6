use vstd::prelude::*;

use crate::Clockable;

verus! {

/// The pacing rule of the clock that drives a CPU at a virtual frequency:
/// the CPU steps once the wall time since its last step exceeds the time
/// its last instruction would have taken. The caller measures the time.
pub struct Clock<C: Clockable> {
    pub mhz: usize,
    pub step_chunk: usize,
    pub nano_per_cycle: u128,
    pub last_cycle_count: u128,
    pub cpu: C,
}

impl<C: Clockable> Clock<C> {
    /// The bounds that keep the pacing arithmetic in range.
    pub open spec fn wf(&self) -> bool {
        &&& self.nano_per_cycle <= 1000
        &&& self.last_cycle_count <= usize::MAX
    }

    /// Whether `nano_delta` nanoseconds since the last step are enough for
    /// the next one.
    pub open spec fn is_due(&self, nano_delta: u128) -> bool {
        nano_delta > self.nano_per_cycle * self.last_cycle_count
    }

    /// A clock for `cpu` at `mhz` MHz that runs `step_chunk` polls per
    /// `cycle`; it counts the step before the first as one cycle.
    pub fn init(cpu: C, mhz: usize, step_chunk: usize) -> (r: Clock<C>)
        requires
            mhz > 0,
        ensures
            r.wf(),
            r.cpu == cpu,
            r.mhz == mhz,
            r.step_chunk == step_chunk,
            r.nano_per_cycle == 1000int / (mhz as int),
            r.last_cycle_count == 1,
    {
        Clock {
            cpu: cpu,
            mhz: mhz,
            step_chunk: step_chunk,
            last_cycle_count: 1,
            nano_per_cycle: 1000 / (mhz as u128),
        }
    }

    /// Whether `nano_delta` nanoseconds since the last step are enough for
    /// the next one.
    pub fn due(&self, nano_delta: u128) -> (r: bool)
        requires
            self.wf(),
        ensures
            r == self.is_due(nano_delta),
    {
        proof {
            assert(self.nano_per_cycle * self.last_cycle_count <= 1000 * (usize::MAX as int))
                by (nonlinear_arith)
                requires
                    self.nano_per_cycle <= 1000,
                    self.last_cycle_count <= usize::MAX,
            ;
        }
        nano_delta > self.nano_per_cycle * self.last_cycle_count
    }

    /// One poll of the pacing loop: steps the CPU when it is due, and then
    /// remembers how many cycles that step took. Returns whether it stepped.
    pub fn tick(&mut self, nano_delta: u128) -> (stepped: bool)
        requires
            old(self).wf(),
        ensures
            final(self).wf(),
            stepped == old(self).is_due(nano_delta),
            final(self).mhz == old(self).mhz,
            final(self).step_chunk == old(self).step_chunk,
            final(self).nano_per_cycle == old(self).nano_per_cycle,
            !stepped ==> final(self).last_cycle_count == old(self).last_cycle_count,
            !stepped ==> final(self).cpu == old(self).cpu,
    {
        if self.due(nano_delta) {
            let n = self.cpu.step();
            self.last_cycle_count = n as u128;
            true
        } else {
            false
        }
    }
}

} // verus!
