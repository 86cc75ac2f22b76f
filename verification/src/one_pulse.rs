//! A one-pulse timer driver for a 16-bit auto-reload counter peripheral.
//!
//! The peripheral is represented by [`TimerRegs`], a register block whose
//! operations are modelled one by one: control bits, the auto-reload and
//! counter registers, the prescaler, the update flag, and a forced update
//! event.  Counting itself is modelled by [`TimerRegs::count`], so the
//! driver can be exercised against the simulated block; a hardware binding
//! performs the same sequence of operations on a memory-mapped peripheral.
//!
//! [`OnePulseTimer`] programs the block the way a measurement window wants
//! it: update events from counter overflow only, one-pulse mode so overflow
//! halts the counter as a stable, observable terminal state, and the
//! auto-reload register at the full 16-bit maximum.  No alarm is provided:
//! a bare counter peripheral has no compare channel to wake a waiter with.

use vstd::prelude::*;

use crate::convert::{ticks_to_unit_checked, unit_bound_u32};
use crate::{OverflowError, Timer};

verus! {

/// The register block of a 16-bit auto-reload counter peripheral.
pub struct TimerRegs {
    /// Update events are requested by counter overflow only, not by
    /// reconfiguration.
    pub urs_counter_only: bool,
    /// One-pulse mode: the counter halts at the update event instead of
    /// wrapping and running on.
    pub one_pulse: bool,
    /// Update events are disabled altogether; the flag stays untouched.
    pub update_disable: bool,
    /// The counter is counting.
    pub counter_enable: bool,
    /// Auto-reload value: the counter counts through `0..=arr`.
    pub arr: u16,
    /// The free-running counter.
    pub cnt: u16,
    /// Update flag: latched when the counter overflows, and spuriously by a
    /// forced update event.
    pub uif: bool,
    /// Prescaler divisor minus one.
    pub psc: u16,
    /// The peripheral's input clock frequency in Hz.
    pub clock_hz: u32,
}

impl TimerRegs {
    /// The registers after the counter has seen `n` (post-prescaler) ticks:
    /// within the reload window the counter just advances; past it an update
    /// event fires, which latches the flag (unless updates are disabled) and,
    /// in one-pulse mode, halts the counter at 0.
    pub open spec fn counted(self, n: int) -> TimerRegs {
        if !self.counter_enable || n <= 0 {
            self
        } else if self.cnt + n <= self.arr {
            TimerRegs { cnt: (self.cnt + n) as u16, ..self }
        } else if self.one_pulse {
            TimerRegs {
                cnt: 0,
                uif: self.uif || !self.update_disable,
                counter_enable: false,
                ..self
            }
        } else {
            TimerRegs {
                cnt: ((self.cnt + n) % (self.arr + 1)) as u16,
                uif: self.uif || !self.update_disable,
                ..self
            }
        }
    }

    /// A fresh peripheral at its reset values, fed by a `clock_hz` source
    /// through the prescaler divisor `psc + 1`.
    pub fn new(clock_hz: u32, psc: u16) -> (r: TimerRegs)
        ensures
            r == (TimerRegs {
                urs_counter_only: false,
                one_pulse: false,
                update_disable: false,
                counter_enable: false,
                arr: 0xFFFF,
                cnt: 0,
                uif: false,
                psc,
                clock_hz,
            }),
    {
        TimerRegs {
            urs_counter_only: false,
            one_pulse: false,
            update_disable: false,
            counter_enable: false,
            arr: 0xFFFF,
            cnt: 0,
            uif: false,
            psc,
            clock_hz,
        }
    }

    /// Write the control bits in one register access.
    pub fn configure_ctrl(&mut self, urs_counter_only: bool, one_pulse: bool, update_disable: bool)
        ensures
            *final(self) == (TimerRegs { urs_counter_only, one_pulse, update_disable, ..*old(self) }),
    {
        self.urs_counter_only = urs_counter_only;
        self.one_pulse = one_pulse;
        self.update_disable = update_disable;
    }

    /// Program the auto-reload register.
    pub fn write_arr(&mut self, value: u16)
        ensures
            *final(self) == (TimerRegs { arr: value, ..*old(self) }),
    {
        self.arr = value;
    }

    /// Force an immediate update event: the counter is reinitialised so the
    /// programmed reload value takes effect now, and the update flag is
    /// spuriously latched by the event itself (unless updates are disabled).
    pub fn generate_update(&mut self)
        ensures
            *final(self) == (TimerRegs {
                cnt: 0,
                uif: old(self).uif || !old(self).update_disable,
                ..*old(self)
            }),
    {
        self.cnt = 0;
        if !self.update_disable {
            self.uif = true;
        }
    }

    /// Clear the update flag in the status register.
    pub fn clear_uif(&mut self)
        ensures
            *final(self) == (TimerRegs { uif: false, ..*old(self) }),
    {
        self.uif = false;
    }

    /// Reset the counter register.
    pub fn reset_cnt(&mut self)
        ensures
            *final(self) == (TimerRegs { cnt: 0, ..*old(self) }),
    {
        self.cnt = 0;
    }

    /// Start counting.
    pub fn enable(&mut self)
        ensures
            *final(self) == (TimerRegs { counter_enable: true, ..*old(self) }),
    {
        self.counter_enable = true;
    }

    /// Read the update flag.
    pub fn read_uif(&self) -> (r: bool)
        ensures
            r == self.uif,
    {
        self.uif
    }

    /// Read the counter register.
    pub fn read_cnt(&self) -> (r: u16)
        ensures
            r == self.cnt,
    {
        self.cnt
    }

    /// Read the prescaler register.
    pub fn read_psc(&self) -> (r: u16)
        ensures
            r == self.psc,
    {
        self.psc
    }

    /// Query the peripheral's input clock frequency.
    pub fn clock_frequency(&self) -> (r: u32)
        ensures
            r == self.clock_hz,
    {
        self.clock_hz
    }

    /// Let `n` ticks reach the counter, as the hardware would count them.
    pub fn count(&mut self, n: u32)
        ensures
            *final(self) == old(self).counted(n as int),
    {
        if !self.counter_enable || n == 0 {
            return ;
        }
        let total: u64 = self.cnt as u64 + n as u64;
        if total <= self.arr as u64 {
            self.cnt = total as u16;
        } else if self.one_pulse {
            self.cnt = 0;
            if !self.update_disable {
                self.uif = true;
            }
            self.counter_enable = false;
        } else {
            let wrapped: u64 = total % (self.arr as u64 + 1);
            self.cnt = wrapped as u16;
            if !self.update_disable {
                self.uif = true;
            }
        }
    }
}

/// Law: the latched overflow is terminal under counting.  Once the update
/// flag is set, no amount of further ticks clears it; by the contract of
/// `elapsed_ticks`, every elapsed-time query keeps failing until `start`
/// re-arms the counter.
pub proof fn lemma_overflow_latch_terminal(regs: TimerRegs, n: int)
    requires
        regs.uif,
    ensures
        regs.counted(n).uif,
{
}

/// Law: while the flag stays clear and the window is not exhausted,
/// counting is exact: `n` further ticks make the counter read `n` higher.
pub proof fn lemma_counting_exact(regs: TimerRegs, n: int)
    requires
        regs.counter_enable,
        !regs.uif,
        !regs.update_disable,
        0 <= n,
        regs.cnt + n <= regs.arr,
    ensures
        regs.counted(n).cnt == regs.cnt + n,
        !regs.counted(n).uif,
        regs.counted(n).counter_enable,
{
}

/// The `Timer` implementation over the one-pulse peripheral: a 16-bit
/// measurement window whose overflow is a latched, terminal state.
pub struct OnePulseTimer {
    /// The peripheral's registers.
    pub regs: TimerRegs,
}

impl OnePulseTimer {
    /// Take a fresh peripheral into a timer.  The clock must be no slower
    /// than the prescaler divisor, so the tick rate is at least 1 Hz.
    pub fn new(clock_hz: u32, psc: u16) -> (r: OnePulseTimer)
        requires
            psc as int + 1 <= clock_hz as int,
        ensures
            r.wf(),
            !r.overflowed(),
            r.ticks_spec() == 0,
            r.rate_spec() == clock_hz as int / (psc as int + 1),
    {
        OnePulseTimer { regs: TimerRegs::new(clock_hz, psc) }
    }

    /// Let `n` ticks reach the counter.  This models the passage of time on
    /// the simulated block; with the latch set it changes nothing, so the
    /// overflowed state is terminal until the next `start`.
    pub fn advance(&mut self, n: u32)
        requires
            old(self).wf(),
        ensures
            final(self).wf(),
            final(self).regs == old(self).regs.counted(n as int),
            final(self).rate_spec() == old(self).rate_spec(),
            final(self).max_ticks_spec() == old(self).max_ticks_spec(),
            old(self).overflowed() ==> final(self).overflowed(),
    {
        self.regs.count(n);
    }
}

impl Timer for OnePulseTimer {
    /// The clock outruns the prescaler, and the reload register spans the
    /// full 16-bit window.
    open spec fn wf(&self) -> bool {
        &&& self.regs.psc as int + 1 <= self.regs.clock_hz as int
        &&& self.regs.arr == 0xFFFFu16
    }

    /// The source clock divided down by the prescaler.
    open spec fn rate_spec(&self) -> int {
        self.regs.clock_hz as int / (self.regs.psc as int + 1)
    }

    /// The counter is 16 bits wide.
    open spec fn max_ticks_spec(&self) -> int {
        0xFFFF
    }

    /// The counter register itself.
    open spec fn ticks_spec(&self) -> int {
        self.regs.cnt as int
    }

    /// The latched update flag.
    open spec fn overflowed(&self) -> bool {
        self.regs.uif
    }

    proof fn wf_implies_bounds(&self) {
        vstd::arithmetic::div_mod::lemma_div_non_zero(
            self.regs.clock_hz as int,
            self.regs.psc as int + 1,
        );
        vstd::arithmetic::div_mod::lemma_div_is_ordered_by_denominator(
            self.regs.clock_hz as int,
            1,
            self.regs.psc as int + 1,
        );
    }

    /// Re-arm the measurement window, as one indivisible reconfiguration:
    /// update requests from counter overflow only, one-pulse mode on, the
    /// reload register at the 16-bit maximum, a forced update event so the
    /// reload takes effect now, the spurious flag that event latches cleared
    /// again, and the counter reset and started.
    fn start(&mut self)
        ensures
            final(self).regs == (TimerRegs {
                urs_counter_only: true,
                one_pulse: true,
                update_disable: false,
                counter_enable: true,
                arr: 0xFFFF,
                cnt: 0,
                uif: false,
                psc: old(self).regs.psc,
                clock_hz: old(self).regs.clock_hz,
            }),
    {
        self.regs.configure_ctrl(true, true, false);
        self.regs.write_arr(0xFFFF);
        self.regs.generate_update();
        self.regs.clear_uif();
        self.regs.reset_cnt();
        self.regs.enable();
    }

    fn tickrate(&self) -> (r: u32) {
        proof {
            self.wf_implies_bounds();
        }
        self.regs.clock_frequency() / (self.regs.read_psc() as u32 + 1)
    }

    /// Overflow is read before the counter: a set flag means the window was
    /// exhausted, whatever the halted counter register still holds.
    fn elapsed_ticks(&self) -> (r: Result<u32, OverflowError>) {
        if self.regs.read_uif() {
            return Err(OverflowError);
        }
        Ok(self.regs.read_cnt() as u32)
    }

    fn elapsed_micros(&self) -> (r: Result<u32, OverflowError>) {
        proof {
            self.wf_implies_bounds();
        }
        match self.elapsed_ticks() {
            Err(e) => Err(e),
            Ok(t) => ticks_to_unit_checked(t, 1_000_000, self.tickrate()),
        }
    }

    fn elapsed_millis(&self) -> (r: Result<u32, OverflowError>) {
        proof {
            self.wf_implies_bounds();
        }
        match self.elapsed_ticks() {
            Err(e) => Err(e),
            Ok(t) => ticks_to_unit_checked(t, 1000, self.tickrate()),
        }
    }

    fn elapsed_secs(&self) -> (r: Result<u32, OverflowError>) {
        proof {
            self.wf_implies_bounds();
        }
        match self.elapsed_ticks() {
            Err(e) => Err(e),
            Ok(t) => ticks_to_unit_checked(t, 1, self.tickrate()),
        }
    }

    fn max_micros(&self) -> (r: u32) {
        proof {
            self.wf_implies_bounds();
        }
        unit_bound_u32(0xFFFF, 1_000_000, self.tickrate())
    }

    fn max_millis(&self) -> (r: u32) {
        proof {
            self.wf_implies_bounds();
        }
        unit_bound_u32(0xFFFF, 1000, self.tickrate())
    }

    fn max_secs(&self) -> (r: u32) {
        proof {
            self.wf_implies_bounds();
        }
        unit_bound_u32(0xFFFF, 1, self.tickrate())
    }

    fn max_ticks(&self) -> (r: u32) {
        0xFFFF
    }
}

} // verus!
