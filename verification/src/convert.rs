//! Overflow-safe conversion between tick counts and time units.
//!
//! A tick count `t` at a rate of `rate` ticks per second spans
//! `floor(t * factor / rate)` units, where `factor` is the number of units
//! per second (1 for seconds, 1000 for milliseconds, 1_000_000 for
//! microseconds).  The products involved exceed 32 bits long before the
//! operands do, so every executable conversion works on a 64-bit
//! intermediate.

use vstd::prelude::*;

use crate::OverflowError;

verus! {

/// `floor(ticks * factor / rate)`: the whole time units spanned by `ticks`.
pub open spec fn ticks_to_unit(ticks: int, factor: int, rate: int) -> int {
    (ticks * factor) / rate
}

/// `ceil(value * rate / factor)`: the smallest tick count whose unit
/// conversion reaches `value` units.
pub open spec fn unit_to_ticks(value: int, factor: int, rate: int) -> int {
    (value * rate + (factor - 1)) / factor
}

/// The inclusive unit bound derived from a tick bound, saturated to what a
/// 32-bit result can carry.
pub open spec fn unit_bound(max_ticks: int, factor: int, rate: int) -> int {
    if ticks_to_unit(max_ticks, factor, rate) <= u32::MAX as int {
        ticks_to_unit(max_ticks, factor, rate)
    } else {
        u32::MAX as int
    }
}

/// Convert a tick count to whole time units, reporting an overflow instead
/// of truncating when the exact value does not fit in 32 bits.
pub fn ticks_to_unit_checked(ticks: u32, factor: u32, rate: u32) -> (r: Result<
    u32,
    OverflowError,
>)
    requires
        1 <= rate,
        1 <= factor <= 1_000_000,
    ensures
        match r {
            Ok(v) => ticks_to_unit(ticks as int, factor as int, rate as int) <= u32::MAX as int
                && v as int == ticks_to_unit(ticks as int, factor as int, rate as int),
            Err(_) => ticks_to_unit(ticks as int, factor as int, rate as int) > u32::MAX as int,
        },
{
    proof {
        assert((ticks as int) * (factor as int) <= (u32::MAX as int) * 1_000_000)
            by (nonlinear_arith)
            requires
                ticks <= u32::MAX,
                factor <= 1_000_000,
        ;
    }
    let wide: u64 = (ticks as u64) * (factor as u64);
    let q: u64 = wide / (rate as u64);
    proof {
        vstd::arithmetic::div_mod::lemma_div_is_ordered_by_denominator(wide as int, 1, rate as int);
    }
    if q > u32::MAX as u64 {
        Err(OverflowError)
    } else {
        Ok(q as u32)
    }
}

/// The inclusive unit bound before overflow, derived from the tick bound and
/// saturated to `u32::MAX`.
pub fn unit_bound_u32(max_ticks: u32, factor: u32, rate: u32) -> (r: u32)
    requires
        1 <= rate,
        1 <= factor <= 1_000_000,
    ensures
        r as int == unit_bound(max_ticks as int, factor as int, rate as int),
{
    proof {
        assert((max_ticks as int) * (factor as int) <= (u32::MAX as int) * 1_000_000)
            by (nonlinear_arith)
            requires
                max_ticks <= u32::MAX,
                factor <= 1_000_000,
        ;
    }
    let wide: u64 = (max_ticks as u64) * (factor as u64);
    let q: u64 = wide / (rate as u64);
    if q > u32::MAX as u64 {
        u32::MAX
    } else {
        q as u32
    }
}

/// The tick deadline for an alarm of `value` units: the smallest tick count
/// whose unit conversion reaches `value`, computed on a 64-bit intermediate.
pub fn unit_to_ticks_u64(value: u32, factor: u32, rate: u32) -> (r: u64)
    requires
        1 <= rate,
        1 <= factor <= 1_000_000,
    ensures
        r as int == unit_to_ticks(value as int, factor as int, rate as int),
{
    proof {
        assert((value as int) * (rate as int) <= (u32::MAX as int) * (u32::MAX as int))
            by (nonlinear_arith)
            requires
                value <= u32::MAX,
                rate <= u32::MAX,
        ;
        assert((u32::MAX as int) * (u32::MAX as int) + 1_000_000 < u64::MAX as int)
            by (nonlinear_arith);
    }
    ((value as u64) * (rate as u64) + (factor as u64 - 1)) / (factor as u64)
}

/// Law: a pre-validated alarm value keeps its deadline within the counter's
/// window.  If `value` units do not exceed the unit bound derived from
/// `max_ticks`, the tick deadline that reaches `value` does not exceed
/// `max_ticks` either, so waiting for it cannot itself overflow the counter.
pub proof fn lemma_deadline_within_bound(value: int, factor: int, rate: int, max_ticks: int)
    requires
        1 <= rate,
        1 <= factor,
        0 <= max_ticks,
        0 <= value <= u32::MAX as int,
        value <= unit_bound(max_ticks, factor, rate),
    ensures
        0 <= unit_to_ticks(value, factor, rate) <= max_ticks,
{
    let q = (max_ticks * factor) / rate;
    assert(value <= q);
    vstd::arithmetic::mul::lemma_mul_inequality(value, q, rate);
    vstd::arithmetic::div_mod::lemma_fundamental_div_mod(max_ticks * factor, rate);
    vstd::arithmetic::div_mod::lemma_mod_bound(max_ticks * factor, rate);
    vstd::arithmetic::mul::lemma_mul_nonnegative(max_ticks, factor);
    assert(q * rate <= max_ticks * factor);
    assert(value * rate + (factor - 1) <= max_ticks * factor + (factor - 1));
    vstd::arithmetic::div_mod::lemma_div_is_ordered(
        value * rate + (factor - 1),
        max_ticks * factor + (factor - 1),
        factor,
    );
    vstd::arithmetic::div_mod::lemma_div_multiples_vanish_fancy(max_ticks, factor - 1, factor);
    vstd::arithmetic::mul::lemma_mul_is_commutative(factor, max_ticks);
    vstd::arithmetic::mul::lemma_mul_nonnegative(value, rate);
    vstd::arithmetic::div_mod::lemma_div_pos_is_pos(value * rate + (factor - 1), factor);
}

/// Law: an alarm wait reaches its value.  Once the elapsed ticks have
/// reached the deadline for `value` units, the floored unit conversion of
/// the elapsed ticks reports at least `value` — a completed wait has really
/// waited the requested time, up to tick resolution.
pub proof fn lemma_deadline_reaches_value(value: int, factor: int, rate: int, ticks: int)
    requires
        1 <= rate,
        1 <= factor,
        0 <= value,
        unit_to_ticks(value, factor, rate) <= ticks,
    ensures
        ticks_to_unit(ticks, factor, rate) >= value,
{
    let c = (value * rate + (factor - 1)) / factor;
    vstd::arithmetic::mul::lemma_mul_nonnegative(value, rate);
    vstd::arithmetic::div_mod::lemma_div_pos_is_pos(value * rate + (factor - 1), factor);
    vstd::arithmetic::mul::lemma_mul_inequality(c, ticks, factor);
    vstd::arithmetic::div_mod::lemma_fundamental_div_mod(value * rate + (factor - 1), factor);
    vstd::arithmetic::div_mod::lemma_mod_bound(value * rate + (factor - 1), factor);
    assert(c * factor == factor * c);
    assert(c * factor >= value * rate);
    assert(ticks * factor >= value * rate);
    vstd::arithmetic::div_mod::lemma_div_is_ordered(value * rate, ticks * factor, rate);
    vstd::arithmetic::div_mod::lemma_div_multiples_vanish(value, rate);
    vstd::arithmetic::mul::lemma_mul_is_commutative(value, rate);
}

/// Law: each derived unit bound is internally consistent with the tick
/// bound it comes from: it equals `floor(max_ticks * factor / rate)`
/// whenever that quotient is representable in 32 bits.
pub proof fn lemma_unit_bound_consistent(max_ticks: int, factor: int, rate: int)
    requires
        1 <= rate,
        1 <= factor,
        0 <= max_ticks,
        ticks_to_unit(max_ticks, factor, rate) <= u32::MAX as int,
    ensures
        unit_bound(max_ticks, factor, rate) == ticks_to_unit(max_ticks, factor, rate),
{
}

/// Law: for a 16-bit counter the derived second and millisecond bounds are
/// always exactly `floor(max_ticks * factor / rate)`, and the microsecond
/// bound is as soon as the tick rate is at least 16 Hz (below that the exact
/// bound exceeds 32 bits and saturates).
pub proof fn lemma_bounds_consistent_16bit(rate: int)
    requires
        1 <= rate,
    ensures
        unit_bound(65535, 1, rate) == ticks_to_unit(65535, 1, rate),
        unit_bound(65535, 1000, rate) == ticks_to_unit(65535, 1000, rate),
        rate >= 16 ==> unit_bound(65535, 1_000_000, rate) == ticks_to_unit(65535, 1_000_000, rate),
{
    vstd::arithmetic::div_mod::lemma_div_is_ordered_by_denominator(65535int, 1, rate);
    vstd::arithmetic::div_mod::lemma_div_is_ordered_by_denominator(65535000int, 1, rate);
    if rate >= 16 {
        vstd::arithmetic::div_mod::lemma_div_is_ordered_by_denominator(65535000000int, 16, rate);
        assert(ticks_to_unit(65535, 1_000_000, rate) <= 65535000000int / 16);
    }
}

} // verus!
