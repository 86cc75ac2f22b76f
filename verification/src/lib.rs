//! Elapsed-time measurement against a free-running tick counter, and alarms
//! that suspend a task until a point in time relative to the counter's start.
//!
//! The `Timer` trait is the measurement contract: `start` establishes an
//! epoch, `elapsed_*` report the time since it, and `max_*` give the
//! inclusive bounds a caller may measure or wait for before the counter
//! overflows.  The `Alarm` trait extends it with `wait_until_*`.  All unit
//! conversions go through the overflow-safe arithmetic in [`convert`].

use vstd::prelude::*;

pub mod convert;
pub mod one_pulse;
pub mod sim;

verus! {

/// The counter has overflowed: either it ran past its maximum since the last
/// `start`, or a requested value exceeds what the counter width and tick rate
/// can represent.
#[derive(Clone, Copy, PartialEq, Eq, Structural, Debug, Default)]
pub struct OverflowError;

/// What an `elapsed_micros`/`elapsed_millis`/`elapsed_secs` call must return
/// from a timer whose counter holds `ticks` at `rate` ticks per second, for
/// `factor` units per second: the exact floored conversion of the elapsed
/// ticks when the counter has not overflowed and the value fits in 32 bits,
/// and `OverflowError` otherwise.
pub open spec fn elapsed_outcome_matches(
    overflowed: bool,
    ticks: int,
    rate: int,
    factor: int,
    r: Result<u32, OverflowError>,
) -> bool {
    match r {
        Ok(v) => !overflowed && crate::convert::ticks_to_unit(ticks, factor, rate)
            <= u32::MAX as int && v as int == crate::convert::ticks_to_unit(ticks, factor, rate),
        Err(_) => overflowed || crate::convert::ticks_to_unit(ticks, factor, rate)
            > u32::MAX as int,
    }
}

/// What a `wait_until_*` call must do to the elapsed ticks, going from
/// `pre_ticks` to `post_ticks`: succeed exactly when the requested `value`
/// is within `bound` (the matching `max_*` bound), and then advance the
/// elapsed ticks to `deadline` unless they had already reached it; fail with
/// no suspension and no change otherwise.  The epoch is never touched:
/// elapsed time keeps accumulating from the same `start`.
pub open spec fn wait_outcome_matches(
    pre_ticks: int,
    post_ticks: int,
    deadline: int,
    bound: int,
    value: u32,
    r: Result<(), OverflowError>,
) -> bool {
    match r {
        Ok(_) => value as int <= bound && post_ticks == (if pre_ticks >= deadline {
            pre_ticks
        } else {
            deadline
        }),
        Err(_) => value as int > bound && post_ticks == pre_ticks,
    }
}

/// A timer that can be started from 0 and keeps track of the time until it
/// overflows.
///
/// The abstract state of an implementation is given by its spec members: a
/// tick rate, an inclusive tick bound, the elapsed ticks since the last
/// `start`, and whether the counter has overflowed since then.
pub trait Timer: Sized {
    /// The implementation's well-formedness invariant.
    spec fn wf(&self) -> bool;

    /// Ticks per second; constant for a configured instance.
    spec fn rate_spec(&self) -> int;

    /// The inclusive maximum tick count measurable before overflow.
    spec fn max_ticks_spec(&self) -> int;

    /// Elapsed ticks since the last `start`.
    spec fn ticks_spec(&self) -> int;

    /// Whether the counter overflowed since the last `start`.
    spec fn overflowed(&self) -> bool;

    /// Bounds every well-formed implementation must give its abstract state.
    proof fn wf_implies_bounds(&self)
        requires
            self.wf(),
        ensures
            1 <= self.rate_spec() <= u32::MAX as int,
            0 <= self.ticks_spec(),
            0 < self.max_ticks_spec() <= u32::MAX as int,
            !self.overflowed() ==> self.ticks_spec() <= self.max_ticks_spec(),
    ;

    /// Start or restart the timer at 0, clearing any overflow.
    fn start(&mut self)
        requires
            old(self).wf(),
        ensures
            final(self).wf(),
            !final(self).overflowed(),
            final(self).ticks_spec() == 0,
            final(self).rate_spec() == old(self).rate_spec(),
            final(self).max_ticks_spec() == old(self).max_ticks_spec(),
    ;

    /// Get the amount of ticks per second.
    fn tickrate(&self) -> (r: u32)
        requires
            self.wf(),
        ensures
            r as int == self.rate_spec(),
    ;

    /// Return the number of elapsed ticks, or `OverflowError` once the
    /// counter has overflowed.
    fn elapsed_ticks(&self) -> (r: Result<u32, OverflowError>)
        requires
            self.wf(),
        ensures
            (match r {
                Ok(t) => !self.overflowed() && t as int == self.ticks_spec(),
                Err(_) => self.overflowed(),
            }),
    ;

    /// Return the number of elapsed microseconds, rounded down.
    fn elapsed_micros(&self) -> (r: Result<u32, OverflowError>)
        requires
            self.wf(),
        ensures
            elapsed_outcome_matches(
                self.overflowed(),
                self.ticks_spec(),
                self.rate_spec(),
                1_000_000,
                r,
            ),
    ;

    /// Return the number of elapsed milliseconds, rounded down.
    fn elapsed_millis(&self) -> (r: Result<u32, OverflowError>)
        requires
            self.wf(),
        ensures
            elapsed_outcome_matches(
                self.overflowed(),
                self.ticks_spec(),
                self.rate_spec(),
                1000,
                r,
            ),
    ;

    /// Return the number of elapsed seconds, rounded down.
    fn elapsed_secs(&self) -> (r: Result<u32, OverflowError>)
        requires
            self.wf(),
        ensures
            elapsed_outcome_matches(
                self.overflowed(),
                self.ticks_spec(),
                self.rate_spec(),
                1,
                r,
            ),
    ;

    /// The (inclusive) maximum number of microseconds that can pass before
    /// the overflow occurs.
    fn max_micros(&self) -> (r: u32)
        requires
            self.wf(),
        ensures
            r as int == crate::convert::unit_bound(
                self.max_ticks_spec(),
                1_000_000,
                self.rate_spec(),
            ),
    ;

    /// The (inclusive) maximum number of milliseconds that can pass before
    /// the overflow occurs.
    fn max_millis(&self) -> (r: u32)
        requires
            self.wf(),
        ensures
            r as int == crate::convert::unit_bound(self.max_ticks_spec(), 1000, self.rate_spec()),
    ;

    /// The (inclusive) maximum number of seconds that can pass before the
    /// overflow occurs.
    fn max_secs(&self) -> (r: u32)
        requires
            self.wf(),
        ensures
            r as int == crate::convert::unit_bound(self.max_ticks_spec(), 1, self.rate_spec()),
    ;

    /// The (inclusive) maximum number of ticks that can pass before the
    /// overflow occurs.
    fn max_ticks(&self) -> (r: u32)
        requires
            self.wf(),
        ensures
            r as int == self.max_ticks_spec(),
    ;
}

/// An alarm: a timer that can additionally be waited on.
///
/// Each `wait_until_*` suspends the caller until the elapsed time since the
/// current epoch reaches `value`, returning immediately if it already has.
/// A value above the matching `max_*` bound fails with `OverflowError` and
/// no suspension.  Waiting never restarts the timer: epoch control stays
/// with the caller.
pub trait Alarm: Timer {
    /// Wait until the timer reaches the alarm specified in ticks since the
    /// timer has started.
    fn wait_until_ticks(&mut self, value: u32) -> (r: Result<(), OverflowError>)
        requires
            old(self).wf(),
        ensures
            final(self).wf(),
            final(self).rate_spec() == old(self).rate_spec(),
            final(self).max_ticks_spec() == old(self).max_ticks_spec(),
            final(self).overflowed() == old(self).overflowed(),
            wait_outcome_matches(
                old(self).ticks_spec(),
                final(self).ticks_spec(),
                value as int,
                old(self).max_ticks_spec(),
                value,
                r,
            ),
    ;

    /// Wait until the timer reaches the alarm specified in microseconds
    /// since the timer has started.
    fn wait_until_micros(&mut self, value: u32) -> (r: Result<(), OverflowError>)
        requires
            old(self).wf(),
        ensures
            final(self).wf(),
            final(self).rate_spec() == old(self).rate_spec(),
            final(self).max_ticks_spec() == old(self).max_ticks_spec(),
            final(self).overflowed() == old(self).overflowed(),
            wait_outcome_matches(
                old(self).ticks_spec(),
                final(self).ticks_spec(),
                crate::convert::unit_to_ticks(value as int, 1_000_000, old(self).rate_spec()),
                crate::convert::unit_bound(
                    old(self).max_ticks_spec(),
                    1_000_000,
                    old(self).rate_spec(),
                ),
                value,
                r,
            ),
    ;

    /// Wait until the timer reaches the alarm specified in milliseconds
    /// since the timer has started.
    fn wait_until_millis(&mut self, value: u32) -> (r: Result<(), OverflowError>)
        requires
            old(self).wf(),
        ensures
            final(self).wf(),
            final(self).rate_spec() == old(self).rate_spec(),
            final(self).max_ticks_spec() == old(self).max_ticks_spec(),
            final(self).overflowed() == old(self).overflowed(),
            wait_outcome_matches(
                old(self).ticks_spec(),
                final(self).ticks_spec(),
                crate::convert::unit_to_ticks(value as int, 1000, old(self).rate_spec()),
                crate::convert::unit_bound(old(self).max_ticks_spec(), 1000, old(self).rate_spec()),
                value,
                r,
            ),
    ;

    /// Wait until the timer reaches the alarm specified in seconds since the
    /// timer has started.
    fn wait_until_secs(&mut self, value: u32) -> (r: Result<(), OverflowError>)
        requires
            old(self).wf(),
        ensures
            final(self).wf(),
            final(self).rate_spec() == old(self).rate_spec(),
            final(self).max_ticks_spec() == old(self).max_ticks_spec(),
            final(self).overflowed() == old(self).overflowed(),
            wait_outcome_matches(
                old(self).ticks_spec(),
                final(self).ticks_spec(),
                crate::convert::unit_to_ticks(value as int, 1, old(self).rate_spec()),
                crate::convert::unit_bound(old(self).max_ticks_spec(), 1, old(self).rate_spec()),
                value,
                r,
            ),
    ;
}

} // verus!
