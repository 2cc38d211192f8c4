//! Exponential moving average over per-frame durations.
//!
//! Each host frame tick hands the timer the current monotonic timestamp in
//! nanoseconds. The first tick only seeds the baseline; every later tick
//! folds the delta since the previous tick into a smoothed value with
//! `s' = ((f - 1) * s + delta) / f` for a smoothing factor `f`.

use vstd::prelude::*;

verus! {

/// The smoothing factor used when the host configures none.
pub const DEFAULT_SMOOTHING_FACTOR: u64 = 8;

/// One update of the moving average: the previous smoothed value `s` keeps
/// weight `f - 1` out of `f`, the new sample `d` gets weight `1`.
pub open spec fn ema_step(s: int, d: int, f: int) -> int {
    ((f - 1) * s + d) / f
}

/// The smoothed value after `k` updates that all carry the same sample `d`.
pub open spec fn ema_iter(s: int, d: int, f: int, k: nat) -> int
    decreases k,
{
    if k == 0 {
        s
    } else {
        ema_step(ema_iter(s, d, f, (k - 1) as nat), d, f)
    }
}

/// Distance between two integers.
pub open spec fn dist(a: int, b: int) -> int {
    if a >= b {
        a - b
    } else {
        b - a
    }
}

/// One update keeps the smoothed value between the old value and the sample.
pub proof fn lemma_ema_step_between(s: int, d: int, f: int)
    requires
        0 <= s,
        0 <= d,
        1 <= f,
    ensures
        s <= d ==> s <= ema_step(s, d, f) <= d,
        d <= s ==> d <= ema_step(s, d, f) <= s,
{
    let n = (f - 1) * s + d;
    assert(s <= d ==> (f - 1) * s + d <= f * d && f * s <= (f - 1) * s + d) by (nonlinear_arith)
        requires
            1 <= f,
    ;
    assert(d <= s ==> (f - 1) * s + d <= f * s && f * d <= (f - 1) * s + d) by (nonlinear_arith)
        requires
            1 <= f,
    ;
    if s <= d {
        vstd::arithmetic::div_mod::lemma_div_is_ordered(f * s, n, f);
        vstd::arithmetic::div_mod::lemma_div_is_ordered(n, f * d, f);
        vstd::arithmetic::div_mod::lemma_div_by_multiple(s, f);
        vstd::arithmetic::div_mod::lemma_div_by_multiple(d, f);
        assert(s * f == f * s && d * f == f * d) by (nonlinear_arith);
    } else {
        vstd::arithmetic::div_mod::lemma_div_is_ordered(f * d, n, f);
        vstd::arithmetic::div_mod::lemma_div_is_ordered(n, f * s, f);
        vstd::arithmetic::div_mod::lemma_div_by_multiple(s, f);
        vstd::arithmetic::div_mod::lemma_div_by_multiple(d, f);
        assert(s * f == f * s && d * f == f * d) by (nonlinear_arith);
    }
}

/// One update never moves the smoothed value away from the sample, and moves
/// it strictly closer whenever it is at least `f` away.
pub proof fn lemma_ema_step_closer(s: int, d: int, f: int)
    requires
        0 <= s,
        0 <= d,
        1 <= f,
    ensures
        dist(ema_step(s, d, f), d) <= dist(s, d),
        f <= dist(s, d) ==> dist(ema_step(s, d, f), d) <= dist(s, d) - 1,
{
    let n = (f - 1) * s + d;
    lemma_ema_step_between(s, d, f);
    if d < s {
        assert((f - 1) * s + d <= f * s - 1 && f * s - 1 == f * (s - 1) + (f - 1)) by (nonlinear_arith)
            requires
                1 <= f,
                d < s,
        ;
        vstd::arithmetic::div_mod::lemma_div_multiples_vanish_fancy(s - 1, f - 1, f);
        vstd::arithmetic::div_mod::lemma_div_is_ordered(n, f * s - 1, f);
    } else if f <= d - s {
        assert(f * (s + 1) <= (f - 1) * s + d && f * (s + 1) == (s + 1) * f) by (nonlinear_arith)
            requires
                1 <= f,
                f <= d - s,
        ;
        vstd::arithmetic::div_mod::lemma_div_by_multiple(s + 1, f);
        vstd::arithmetic::div_mod::lemma_div_is_ordered(f * (s + 1), n, f);
    }
}

/// The larger of two integers.
pub open spec fn int_max(a: int, b: int) -> int {
    if a >= b {
        a
    } else {
        b
    }
}

/// The smoothing filter converges toward a constant input stream: after `k`
/// updates that all carry the same sample `d`, the smoothed value is within
/// `f - 1` of `d` as soon as `k` reaches the initial distance, and the
/// distance to `d` never grows along the way.
pub proof fn lemma_ema_converges(s: int, d: int, f: int, k: nat)
    requires
        0 <= s,
        0 <= d,
        1 <= f,
    ensures
        0 <= ema_iter(s, d, f, k),
        dist(ema_iter(s, d, f, k), d) <= int_max(dist(s, d) - k, f - 1),
        dist(s, d) <= k ==> dist(ema_iter(s, d, f, k), d) <= f - 1,
    decreases k,
{
    if k == 0 {
    } else {
        let p = ema_iter(s, d, f, (k - 1) as nat);
        lemma_ema_converges(s, d, f, (k - 1) as nat);
        lemma_ema_step_closer(p, d, f);
        lemma_ema_step_between(p, d, f);
        if dist(p, d) <= f - 1 {
            assert(dist(ema_iter(s, d, f, k), d) <= f - 1);
        } else {
            assert(dist(ema_iter(s, d, f, k), d) <= dist(s, d) - k);
        }
    }
}

/// One executable update of the moving average. The intermediate product is
/// computed in 128 bits, so no input combination overflows.
pub fn ema_update(s: u64, d: u64, f: u64) -> (r: u64)
    requires
        1 <= f,
    ensures
        r == ema_step(s as int, d as int, f as int),
{
    proof {
        assert((f - 1) * (s as int) + d < 0x100000000000000000000000000000000) by (nonlinear_arith)
            requires
                f <= 0xffffffffffffffff,
                s <= 0xffffffffffffffff,
                d <= 0xffffffffffffffff,
                1 <= f,
        ;
        lemma_ema_step_between(s as int, d as int, f as int);
    }
    let wide: u128 = (f as u128 - 1) * (s as u128) + (d as u128);
    let q: u128 = wide / (f as u128);
    q as u64
}

/// Smoothed frame-time estimator fed by monotonic timestamps.
///
/// `smoothed` is the current moving average of frame deltas and
/// `last_frame_start` the timestamp of the previous tick, both in
/// nanoseconds. The very first tick seeds the baseline timestamp and leaves
/// the average untouched.
pub struct FrameTimer {
    pub last_frame_start: Option<u64>,
    pub smoothed: u64,
    pub factor: u64,
}

/// The delta between two successive timestamps; a clock that jumped backward
/// yields zero rather than an underflow.
pub open spec fn delta_of(now: u64, prev: u64) -> int {
    if now >= prev {
        now - prev
    } else {
        0
    }
}

impl FrameTimer {
    /// The smoothing factor must be positive, or the update would divide by
    /// zero.
    pub open spec fn wf(self) -> bool {
        1 <= self.factor
    }

    pub fn new(factor: u64) -> (t: FrameTimer)
        requires
            1 <= factor,
        ensures
            t.wf(),
            t.factor == factor,
            t.smoothed == 0,
            t.last_frame_start is None,
    {
        FrameTimer { last_frame_start: None, smoothed: 0, factor }
    }

    /// Feed one frame tick at monotonic timestamp `now`. The first tick only
    /// records the baseline; every later tick folds the delta since the
    /// previous tick into the moving average.
    pub fn tick(&mut self, now: u64)
        requires
            old(self).wf(),
        ensures
            final(self).wf(),
            final(self).factor == old(self).factor,
            final(self).last_frame_start == Some(now),
            old(self).last_frame_start is None ==> final(self).smoothed == old(self).smoothed,
            old(self).last_frame_start matches Some(prev) ==> final(self).smoothed == ema_step(
                old(self).smoothed as int,
                delta_of(now, prev),
                old(self).factor as int,
            ),
    {
        match self.last_frame_start {
            None => {
                self.last_frame_start = Some(now);
            },
            Some(prev) => {
                self.last_frame_start = Some(now);
                let delta: u64 = if now >= prev {
                    now - prev
                } else {
                    0
                };
                self.smoothed = ema_update(self.smoothed, delta, self.factor);
            },
        }
    }

    /// The current smoothed frame time in nanoseconds.
    pub fn smoothed_frame_time(&self) -> (r: u64)
        ensures
            r == self.smoothed,
    {
        self.smoothed
    }
}

} // verus!
