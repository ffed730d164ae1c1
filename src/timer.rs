//! Timer arithmetic: the clock in milliseconds and the next timer deadline.
use vstd::prelude::*;
use crate::config::{MSEC_PER_SEC, TICKS_PER_SEC};

verus! {

/// The clock reading `ticks` of a clock running at `clock_freq` Hz, in
/// milliseconds.
pub open spec fn ms_of(ticks: u64, clock_freq: u64) -> int {
    ticks as int / (clock_freq as int / MSEC_PER_SEC as int)
}

/// The clock reading `ticks` in milliseconds.
pub fn time_ms(ticks: u64, clock_freq: u64) -> (r: u64)
    requires
        clock_freq >= MSEC_PER_SEC,
    ensures
        r == ms_of(ticks, clock_freq),
{
    ticks / (clock_freq / MSEC_PER_SEC as u64)
}

/// The timer deadline one tick period (`1 / TICKS_PER_SEC` s) after `now`.
pub fn next_trigger(now: u64, clock_freq: u64) -> (r: u64)
    requires
        now + clock_freq / (TICKS_PER_SEC as u64) <= u64::MAX,
    ensures
        r == now + clock_freq / (TICKS_PER_SEC as u64),
{
    now + clock_freq / TICKS_PER_SEC as u64
}

/// The clock in milliseconds never runs backwards: a later reading gives no
/// smaller time.
pub proof fn lemma_time_ms_monotonic(t1: u64, t2: u64, clock_freq: u64)
    requires
        clock_freq >= MSEC_PER_SEC,
        t1 <= t2,
    ensures
        ms_of(t1, clock_freq) <= ms_of(t2, clock_freq),
{
    let d = clock_freq as int / MSEC_PER_SEC as int;
    assert(d >= 1) by (nonlinear_arith)
        requires
            clock_freq >= 1000,
            d == clock_freq as int / 1000,
    ;
    vstd::arithmetic::div_mod::lemma_div_is_ordered(t1 as int, t2 as int, d);
}

} // verus!
