//! Animation clock: from a utilization sample to the delay before the next
//! frame, and the cyclic frame counter.
//!
//! Utilization is carried in tenths of a percent, `0..=1000`.
use vstd::prelude::*;

use crate::resources::FRAME_COUNT;

verus! {

/// Largest utilization, in tenths of a percent (100.0%).
pub const MAX_UTILIZATION: u32 = 1000;

/// Shortest delay between two frames, in milliseconds.
pub const MIN_DURATION_MS: u64 = 50;

/// Longest delay between two frames, in milliseconds.
pub const MAX_DURATION_MS: u64 = 200;

/// `500 / max(u / 5, 0.01)` milliseconds for a utilization of `u` percent,
/// i.e. `2500 / u`, or `25000 / t` for `t` tenths; truncated and clamped to
/// `[50, 200]`.  A zero load stands for the `0.01` floor and gives the longest delay.
pub open spec fn duration_ms(tenths: nat) -> nat {
    if tenths == 0 {
        MAX_DURATION_MS as nat
    } else {
        let raw = 25000nat / tenths;
        if raw < MIN_DURATION_MS {
            MIN_DURATION_MS as nat
        } else if raw > MAX_DURATION_MS {
            MAX_DURATION_MS as nat
        } else {
            raw
        }
    }
}

/// A raw reading (tenths of a percent, possibly out of range) clamped to `[0, 1000]`.
pub open spec fn clamped_utilization(raw: int) -> nat {
    if raw < 0 {
        0
    } else if raw > MAX_UTILIZATION {
        MAX_UTILIZATION as nat
    } else {
        raw as nat
    }
}

/// The frame that follows `frame` in the cycle.
pub open spec fn next_frame_spec(frame: nat) -> nat {
    (frame + 1) % (FRAME_COUNT as nat)
}

/// The frame reached from `frame` after `n` ticks.
pub open spec fn frame_after(frame: nat, n: nat) -> nat
    decreases n,
{
    if n == 0 {
        frame
    } else {
        next_frame_spec(frame_after(frame, (n - 1) as nat))
    }
}

/// Inter-frame delay in milliseconds for a utilization of `tenths` tenths of a percent.
/// Higher load gives a shorter delay.  The input is taken as it is: no clamping
/// happens here.
pub fn calculate_duration(tenths: u32) -> (ms: u64)
    ensures
        ms == duration_ms(tenths as nat),
{
    if tenths == 0 {
        MAX_DURATION_MS
    } else {
        let raw: u32 = 25000 / tenths;
        if (raw as u64) < MIN_DURATION_MS {
            MIN_DURATION_MS
        } else if (raw as u64) > MAX_DURATION_MS {
            MAX_DURATION_MS
        } else {
            raw as u64
        }
    }
}

/// Clamps a raw reading in tenths of a percent to `[0, 1000]`.
pub fn clamp_utilization(raw: i64) -> (t: u32)
    ensures
        t == clamped_utilization(raw as int),
        t <= MAX_UTILIZATION,
{
    if raw < 0 {
        0
    } else if raw > MAX_UTILIZATION as i64 {
        MAX_UTILIZATION
    } else {
        raw as u32
    }
}

/// The frame that follows `frame` in the animation cycle.
pub fn next_frame(frame: usize) -> (r: usize)
    requires
        frame < FRAME_COUNT,
    ensures
        r == next_frame_spec(frame as nat),
        r < FRAME_COUNT,
{
    (frame + 1) % FRAME_COUNT
}

/// Every utilization in `[0, 100%]` gets a delay within `[50, 200]` ms, and a
/// higher utilization never gets a longer delay.
pub proof fn lemma_duration_bounded_and_non_increasing(t1: nat, t2: nat)
    requires
        t1 <= t2 <= MAX_UTILIZATION,
    ensures
        MIN_DURATION_MS <= duration_ms(t1) <= MAX_DURATION_MS,
        MIN_DURATION_MS <= duration_ms(t2) <= MAX_DURATION_MS,
        duration_ms(t2) <= duration_ms(t1),
{
    if t1 > 0 {
        vstd::arithmetic::div_mod::lemma_div_is_ordered_by_denominator(25000, t1 as int, t2 as int);
    }
}

/// No load gives the longest delay, full load the shortest.
pub proof fn lemma_duration_at_bounds()
    ensures
        duration_ms(0) == 200,
        duration_ms(MAX_UTILIZATION as nat) == 50,
{
    assert(25000nat / 1000nat == 25);
}

/// After as many ticks as there are frames, the counter is back where it started.
pub proof fn lemma_frame_cycle(frame: nat)
    requires
        frame < FRAME_COUNT,
    ensures
        frame_after(frame, FRAME_COUNT as nat) == frame,
{
    lemma_frame_after_is_offset(frame, FRAME_COUNT as nat);
    vstd::arithmetic::div_mod::lemma_mod_add_multiples_vanish(frame as int, FRAME_COUNT as int);
    vstd::arithmetic::div_mod::lemma_small_mod(frame, FRAME_COUNT as nat);
}

/// `n` ticks move the counter `n` places forward, modulo the cycle.
pub proof fn lemma_frame_after_is_offset(frame: nat, n: nat)
    requires
        frame < FRAME_COUNT,
    ensures
        frame_after(frame, n) == (frame + n) % (FRAME_COUNT as nat),
    decreases n,
{
    if n == 0 {
        vstd::arithmetic::div_mod::lemma_small_mod(frame, FRAME_COUNT as nat);
    } else {
        lemma_frame_after_is_offset(frame, (n - 1) as nat);
        vstd::arithmetic::div_mod::lemma_add_mod_noop(
            (frame + n - 1) as int,
            1,
            FRAME_COUNT as int,
        );
        vstd::arithmetic::div_mod::lemma_small_mod(1, FRAME_COUNT as nat);
    }
}

} // verus!
