use ticktimer::convert::{ticks_to_unit_checked, unit_bound_u32, unit_to_ticks_u64};
use ticktimer::one_pulse::{OnePulseTimer, TimerRegs};
use ticktimer::sim::SimTimer;
use ticktimer::{Alarm, OverflowError, Timer};

#[test]
fn convert_exact() {
    assert_eq!(ticks_to_unit_checked(25_000, 1_000_000, 100_000), Ok(250_000));
    assert_eq!(ticks_to_unit_checked(25_000, 1000, 100_000), Ok(250));
    assert_eq!(ticks_to_unit_checked(25_000, 1, 100_000), Ok(0));
    assert_eq!(ticks_to_unit_checked(0, 1_000_000, 1), Ok(0));
}

#[test]
fn convert_wide_intermediate() {
    // 65535 ticks at 100 kHz: the product 65_535_000_000 is far past 32 bits,
    // yet the conversion is exact.
    assert_eq!(ticks_to_unit_checked(65_535, 1_000_000, 100_000), Ok(655_350));
    assert_eq!(ticks_to_unit_checked(65_535, 1_000_000, 1_000_000), Ok(65_535));
    assert_eq!(ticks_to_unit_checked(u32::MAX, 1_000_000, 1_000_000), Ok(u32::MAX));
}

#[test]
fn convert_overflow_reported() {
    // 65535 ticks at 1 Hz span 65_535_000_000 microseconds: not representable
    // in 32 bits, so the conversion reports the overflow.
    assert_eq!(ticks_to_unit_checked(65_535, 1_000_000, 1), Err(OverflowError));
    assert_eq!(ticks_to_unit_checked(65_535, 1_000_000, 15), Err(OverflowError));
    assert_eq!(ticks_to_unit_checked(65_535, 1_000_000, 16), Ok(4_095_937_500));
}

#[test]
fn unit_bound_exact_and_saturated() {
    assert_eq!(unit_bound_u32(65_535, 1000, 100_000), 655);
    assert_eq!(unit_bound_u32(65_535, 1, 100_000), 0);
    assert_eq!(unit_bound_u32(65_535, 1_000_000, 100_000), 655_350);
    // At 1 Hz the exact microsecond bound of a 32-bit window does not fit in
    // 32 bits: the bound saturates.
    assert_eq!(unit_bound_u32(u32::MAX, 1_000_000, 1), u32::MAX);
    assert_eq!(unit_bound_u32(u32::MAX, 1, 1000), 4_294_967);
}

#[test]
fn unit_to_ticks_rounds_up() {
    assert_eq!(unit_to_ticks_u64(250_000, 1_000_000, 100_000), 25_000);
    // One microsecond at 3 Hz is a fraction of a tick: the deadline rounds
    // up to the first tick that reaches it.
    assert_eq!(unit_to_ticks_u64(1, 1_000_000, 3), 1);
    assert_eq!(unit_to_ticks_u64(0, 1_000_000, 3), 0);
    assert_eq!(unit_to_ticks_u64(1, 1, 1000), 1000);
}

#[test]
fn start_resets_driver() {
    let mut t = OnePulseTimer::new(100_000, 0);
    t.start();
    assert_eq!(t.elapsed_ticks(), Ok(0));
    assert_eq!(t.elapsed_micros(), Ok(0));
}

#[test]
fn driver_counts_exactly() {
    // 100 kHz, 250 ms worth of ticks.
    let mut t = OnePulseTimer::new(100_000, 0);
    t.start();
    t.advance(25_000);
    assert_eq!(t.elapsed_ticks(), Ok(25_000));
    assert_eq!(t.elapsed_micros(), Ok(250_000));
    assert_eq!(t.elapsed_millis(), Ok(250));
    assert_eq!(t.elapsed_secs(), Ok(0));
}

#[test]
fn driver_overflow_is_terminal() {
    // 65536 ticks exhaust the 16-bit window: every elapsed query fails until
    // the next start.
    let mut t = OnePulseTimer::new(100_000, 0);
    t.start();
    t.advance(65_536);
    assert_eq!(t.elapsed_ticks(), Err(OverflowError));
    assert_eq!(t.elapsed_micros(), Err(OverflowError));
    assert_eq!(t.elapsed_millis(), Err(OverflowError));
    assert_eq!(t.elapsed_secs(), Err(OverflowError));
    t.advance(10_000);
    assert_eq!(t.elapsed_ticks(), Err(OverflowError));
    t.start();
    assert_eq!(t.elapsed_ticks(), Ok(0));
}

#[test]
fn driver_overflow_at_exact_boundary() {
    let mut t = OnePulseTimer::new(100_000, 0);
    t.start();
    t.advance(65_535);
    assert_eq!(t.elapsed_ticks(), Ok(65_535));
    t.advance(1);
    assert_eq!(t.elapsed_ticks(), Err(OverflowError));
}

#[test]
fn driver_tickrate_from_prescaler() {
    // 8 MHz clock behind a divide-by-8 prescaler: 1 MHz ticks.
    let mut t = OnePulseTimer::new(8_000_000, 7);
    assert_eq!(t.tickrate(), 1_000_000);
    t.start();
    t.advance(65_535);
    assert_eq!(t.elapsed_micros(), Ok(65_535));
    assert_eq!(t.elapsed_millis(), Ok(65));
}

#[test]
fn driver_bounds_consistent() {
    let t = OnePulseTimer::new(100_000, 0);
    assert_eq!(t.max_ticks(), 65_535);
    assert_eq!(t.max_micros(), 655_350);
    assert_eq!(t.max_millis(), 655);
    assert_eq!(t.max_secs(), 0);
    let max_ticks = t.max_ticks() as u64;
    assert_eq!(t.max_micros() as u64, max_ticks * 1_000_000 / 100_000);
    assert_eq!(t.max_millis() as u64, max_ticks * 1000 / 100_000);
    assert_eq!(t.max_secs() as u64, max_ticks / 100_000);
}

#[test]
fn regs_reset_values() {
    let r = TimerRegs::new(1_000_000, 0);
    assert_eq!(r.arr, 0xFFFF);
    assert_eq!(r.cnt, 0);
    assert!(!r.uif);
    assert!(!r.counter_enable);
    assert!(!r.one_pulse);
}

#[test]
fn regs_forced_update_latches_and_clears() {
    let mut r = TimerRegs::new(1_000_000, 0);
    r.generate_update();
    assert!(r.uif);
    assert_eq!(r.cnt, 0);
    r.clear_uif();
    assert!(!r.uif);
}

#[test]
fn regs_free_running_wraps() {
    // Without one-pulse mode the counter wraps silently and keeps running;
    // this is exactly what the driver's start sequence avoids.
    let mut r = TimerRegs::new(1_000_000, 0);
    r.write_arr(99);
    r.enable();
    r.count(250);
    assert_eq!(r.cnt, 50);
    assert!(r.uif);
    assert!(r.counter_enable);
}

#[test]
fn regs_one_pulse_halts() {
    let mut r = TimerRegs::new(1_000_000, 0);
    r.configure_ctrl(true, true, false);
    r.write_arr(99);
    r.enable();
    r.count(250);
    assert_eq!(r.cnt, 0);
    assert!(r.uif);
    assert!(!r.counter_enable);
}

#[test]
fn sim_wait_until_secs_suspends() {
    let mut s = SimTimer::new(1000);
    s.start();
    assert_eq!(s.wait_until_secs(1), Ok(()));
    assert_eq!(s.elapsed_ticks(), Ok(1000));
    assert_eq!(s.elapsed_secs(), Ok(1));
    assert_eq!(s.elapsed_millis(), Ok(1000));
}

#[test]
fn sim_wait_out_of_range_fails_without_suspension() {
    let mut s = SimTimer::new(1000);
    s.start();
    s.advance(42);
    assert_eq!(s.max_secs(), 4_294_967);
    assert_eq!(s.wait_until_secs(4_294_968), Err(OverflowError));
    assert_eq!(s.elapsed_ticks(), Ok(42));
}

#[test]
fn sim_wait_already_past_returns_immediately() {
    let mut s = SimTimer::new(1000);
    s.start();
    s.advance(5000);
    assert_eq!(s.wait_until_secs(1), Ok(()));
    assert_eq!(s.elapsed_ticks(), Ok(5000));
}

#[test]
fn sim_abandoned_wait_keeps_epoch() {
    // A wait for 1 s races a competing event that fires at 200 ms and loses:
    // the wait is abandoned (never completes), the counter is untouched, and
    // a following shorter wait still measures from the original epoch.
    let mut s = SimTimer::new(1000);
    s.start();
    s.advance(200);
    assert_eq!(s.wait_until_millis(100), Ok(()));
    assert_eq!(s.elapsed_ticks(), Ok(200));
    assert_eq!(s.elapsed_millis(), Ok(200));
}

#[test]
fn sim_wait_deadline_rounds_up() {
    let mut s = SimTimer::new(3);
    s.start();
    assert_eq!(s.wait_until_micros(1), Ok(()));
    assert_eq!(s.elapsed_ticks(), Ok(1));
    assert_eq!(s.elapsed_micros(), Ok(333_333));
}

#[test]
fn sim_wait_until_ticks_never_fails() {
    let mut s = SimTimer::new(1000);
    s.start();
    assert_eq!(s.wait_until_ticks(u32::MAX), Ok(()));
    assert_eq!(s.elapsed_ticks(), Ok(u32::MAX));
}

#[test]
fn sim_overflow_and_restart() {
    let mut s = SimTimer::new(1000);
    s.start();
    s.advance(u32::MAX as u64 + 1);
    assert_eq!(s.elapsed_ticks(), Err(OverflowError));
    assert_eq!(s.elapsed_secs(), Err(OverflowError));
    s.start();
    assert_eq!(s.elapsed_ticks(), Ok(0));
}

#[test]
fn sim_micros_conversion_overflow_reported() {
    // 500 kHz ticks: u32::MAX ticks span more microseconds than 32 bits
    // hold, while the tick count itself is still representable.
    let mut s = SimTimer::new(500_000);
    s.start();
    s.advance(u32::MAX as u64);
    assert_eq!(s.elapsed_ticks(), Ok(u32::MAX));
    assert_eq!(s.elapsed_micros(), Err(OverflowError));
    assert_eq!(s.elapsed_millis(), Ok(8_589_934));
    assert_eq!(s.elapsed_secs(), Ok(8589));
}

#[test]
fn overflow_error_is_plain() {
    let e = OverflowError;
    let f = e;
    assert_eq!(e, f);
    assert_eq!(OverflowError::default(), e);
    assert_eq!(format!("{:?}", e), "OverflowError");
}
