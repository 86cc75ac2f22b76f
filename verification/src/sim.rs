//! A software-clock-backed timer and alarm over a simulated monotonic tick
//! source.
//!
//! [`SimTimer`] carries the ticks elapsed since its epoch directly: `start`
//! zeroes them, [`SimTimer::advance`] models the tick source running, and a
//! `wait_until_*` suspension is modelled as the source running exactly up to
//! the alarm's deadline.  The measurable window is the full 32-bit range; a
//! 64-bit elapsed count keeps the overflowed state observable far past it.
//! A binding backed by a real monotonic clock performs the same validation
//! and deadline arithmetic and parks the task until the deadline instead.

use vstd::prelude::*;

use crate::convert::{
    lemma_deadline_within_bound, ticks_to_unit_checked, unit_bound_u32, unit_to_ticks_u64,
};
use crate::{Alarm, OverflowError, Timer};

verus! {

/// A timer and alarm over a simulated monotonic tick source.
pub struct SimTimer {
    /// Ticks seen since the last `start`.
    pub elapsed_raw: u64,
    /// Ticks per second of the source.
    pub rate: u32,
}

impl SimTimer {
    /// A timer over a source that ticks `rate` times per second, with its
    /// epoch just established.
    pub fn new(rate: u32) -> (r: SimTimer)
        requires
            1 <= rate,
        ensures
            r.wf(),
            !r.overflowed(),
            r.ticks_spec() == 0,
            r.rate_spec() == rate as int,
    {
        SimTimer { elapsed_raw: 0, rate }
    }

    /// Let `n` ticks of the source pass.  Far past the measurable window the
    /// count saturates; by then the timer is long overflowed and stays so.
    pub fn advance(&mut self, n: u64)
        requires
            old(self).wf(),
        ensures
            final(self).wf(),
            final(self).rate_spec() == old(self).rate_spec(),
            final(self).max_ticks_spec() == old(self).max_ticks_spec(),
            final(self).ticks_spec() == (if old(self).ticks_spec() + n <= u64::MAX as int {
                old(self).ticks_spec() + n
            } else {
                u64::MAX as int
            }),
            old(self).overflowed() ==> final(self).overflowed(),
    {
        if n <= u64::MAX - self.elapsed_raw {
            self.elapsed_raw = self.elapsed_raw + n;
        } else {
            self.elapsed_raw = u64::MAX;
        }
    }
}

impl Timer for SimTimer {
    /// The source ticks at least once per second.
    open spec fn wf(&self) -> bool {
        1 <= self.rate
    }

    /// The configured source rate.
    open spec fn rate_spec(&self) -> int {
        self.rate as int
    }

    /// The full 32-bit window.
    open spec fn max_ticks_spec(&self) -> int {
        u32::MAX as int
    }

    /// The ticks seen since the epoch.
    open spec fn ticks_spec(&self) -> int {
        self.elapsed_raw as int
    }

    /// More ticks have passed than a 32-bit count can report.
    open spec fn overflowed(&self) -> bool {
        self.elapsed_raw > u32::MAX as u64
    }

    proof fn wf_implies_bounds(&self) {
    }

    fn start(&mut self) {
        self.elapsed_raw = 0;
    }

    fn tickrate(&self) -> (r: u32) {
        self.rate
    }

    fn elapsed_ticks(&self) -> (r: Result<u32, OverflowError>) {
        if self.elapsed_raw > u32::MAX as u64 {
            Err(OverflowError)
        } else {
            Ok(self.elapsed_raw as u32)
        }
    }

    fn elapsed_micros(&self) -> (r: Result<u32, OverflowError>) {
        match self.elapsed_ticks() {
            Err(e) => Err(e),
            Ok(t) => ticks_to_unit_checked(t, 1_000_000, self.rate),
        }
    }

    fn elapsed_millis(&self) -> (r: Result<u32, OverflowError>) {
        match self.elapsed_ticks() {
            Err(e) => Err(e),
            Ok(t) => ticks_to_unit_checked(t, 1000, self.rate),
        }
    }

    fn elapsed_secs(&self) -> (r: Result<u32, OverflowError>) {
        match self.elapsed_ticks() {
            Err(e) => Err(e),
            Ok(t) => ticks_to_unit_checked(t, 1, self.rate),
        }
    }

    fn max_micros(&self) -> (r: u32) {
        unit_bound_u32(u32::MAX, 1_000_000, self.rate)
    }

    fn max_millis(&self) -> (r: u32) {
        unit_bound_u32(u32::MAX, 1000, self.rate)
    }

    fn max_secs(&self) -> (r: u32) {
        unit_bound_u32(u32::MAX, 1, self.rate)
    }

    fn max_ticks(&self) -> (r: u32) {
        u32::MAX
    }
}

impl SimTimer {
    /// The shared suspension step: run the source up to `deadline` ticks
    /// since the epoch, unless it is already there or past it.
    fn run_to_deadline(&mut self, deadline: u64)
        requires
            old(self).wf(),
            deadline <= u32::MAX as u64,
        ensures
            final(self).wf(),
            final(self).rate == old(self).rate,
            final(self).overflowed() == old(self).overflowed(),
            final(self).ticks_spec() == (if old(self).ticks_spec() >= deadline as int {
                old(self).ticks_spec()
            } else {
                deadline as int
            }),
    {
        if self.elapsed_raw < deadline {
            self.elapsed_raw = deadline;
        }
    }
}

impl Alarm for SimTimer {
    fn wait_until_ticks(&mut self, value: u32) -> (r: Result<(), OverflowError>) {
        self.run_to_deadline(value as u64);
        Ok(())
    }

    fn wait_until_micros(&mut self, value: u32) -> (r: Result<(), OverflowError>) {
        let bound: u32 = unit_bound_u32(u32::MAX, 1_000_000, self.rate);
        if value > bound {
            return Err(OverflowError);
        }
        let deadline: u64 = unit_to_ticks_u64(value, 1_000_000, self.rate);
        proof {
            lemma_deadline_within_bound(
                value as int,
                1_000_000,
                self.rate as int,
                u32::MAX as int,
            );
        }
        self.run_to_deadline(deadline);
        Ok(())
    }

    fn wait_until_millis(&mut self, value: u32) -> (r: Result<(), OverflowError>) {
        let bound: u32 = unit_bound_u32(u32::MAX, 1000, self.rate);
        if value > bound {
            return Err(OverflowError);
        }
        let deadline: u64 = unit_to_ticks_u64(value, 1000, self.rate);
        proof {
            lemma_deadline_within_bound(value as int, 1000, self.rate as int, u32::MAX as int);
        }
        self.run_to_deadline(deadline);
        Ok(())
    }

    fn wait_until_secs(&mut self, value: u32) -> (r: Result<(), OverflowError>) {
        let bound: u32 = unit_bound_u32(u32::MAX, 1, self.rate);
        if value > bound {
            return Err(OverflowError);
        }
        let deadline: u64 = unit_to_ticks_u64(value, 1, self.rate);
        proof {
            lemma_deadline_within_bound(value as int, 1, self.rate as int, u32::MAX as int);
        }
        self.run_to_deadline(deadline);
        Ok(())
    }
}

} // verus!
