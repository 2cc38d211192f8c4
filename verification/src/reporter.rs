//! Model of the periodic frame-time reporting loop.
//!
//! Client and server each run an asynchronous loop: every iteration reads
//! the latest smoothed frame time, publishes it (as a network message on the
//! client, as a synchronized value on the server), then reads the configured
//! report interval and sleeps for it. An absent interval means the feature
//! was switched off: the loop publishes once more in that iteration and then
//! stops, so it sends exactly one report after the interval disappears.

use vstd::prelude::*;

verus! {

/// What one loop iteration observes: the smoothed frame time and the report
/// interval, either of which may be absent from the shared state.
/// Both are in nanoseconds.
pub struct ReportTick {
    pub frame_time: Option<u64>,
    pub interval: Option<u64>,
}

/// What one loop iteration does: publish `frame_time`, then either sleep for
/// `sleep` and go around again, or stop when `sleep` is absent.
pub struct ReportAction {
    pub frame_time: u64,
    pub sleep: Option<u64>,
}

/// An absent frame time is published as zero.
pub open spec fn frame_time_or_zero(t: Option<u64>) -> u64 {
    match t {
        Some(v) => v,
        None => 0,
    }
}

/// How many reports the loop publishes when it observes `ticks` in order:
/// one per iteration, up to and including the first iteration whose interval
/// is absent.
pub open spec fn reports_sent(ticks: Seq<ReportTick>) -> nat
    decreases ticks.len(),
{
    if ticks.len() == 0 {
        0
    } else if ticks[0].interval is None {
        1
    } else {
        1 + reports_sent(ticks.skip(1))
    }
}

/// One iteration of the reporting loop: always publish the latest frame
/// time (zero when absent), and keep running exactly as long as an interval
/// is configured.
pub fn reporter_step(frame_time: Option<u64>, interval: Option<u64>) -> (a: ReportAction)
    ensures
        a.frame_time == frame_time_or_zero(frame_time),
        a.sleep == interval,
{
    let t: u64 = match frame_time {
        Some(v) => v,
        None => 0,
    };
    ReportAction { frame_time: t, sleep: interval }
}

/// Run the reporting loop over a finite trace of observations and collect
/// the published frame times. The result holds one value per iteration that
/// ran, each the observed frame time with absence defaulted to zero.
pub fn run_reporting_loop(ticks: &Vec<ReportTick>) -> (sent: Vec<u64>)
    ensures
        sent@.len() == reports_sent(ticks@),
        forall|i: int| 0 <= i < sent@.len() ==> sent@[i] == frame_time_or_zero(
            ticks@[i].frame_time,
        ),
{
    let mut sent: Vec<u64> = Vec::new();
    let mut i: usize = 0;
    proof {
        assert(ticks@.skip(0) =~= ticks@);
    }
    while i < ticks.len()
        invariant
            i <= ticks@.len(),
            sent@.len() == i,
            reports_sent(ticks@) == i + reports_sent(ticks@.skip(i as int)),
            forall|j: int| 0 <= j < i ==> sent@[j] == frame_time_or_zero(ticks@[j].frame_time),
        decreases ticks@.len() - i,
    {
        let a = reporter_step(ticks[i].frame_time, ticks[i].interval);
        sent.push(a.frame_time);
        let stop = ticks[i].interval.is_none();
        proof {
            assert(ticks@.skip(i as int)[0] == ticks@[i as int]);
            assert(ticks@.skip(i as int).skip(1) =~= ticks@.skip(i + 1));
        }
        i = i + 1;
        if stop {
            return sent;
        }
    }
    proof {
        assert(ticks@.skip(i as int) =~= Seq::<ReportTick>::empty());
    }
    sent
}

/// Reporting stops exactly one tick after the interval becomes absent: when
/// iteration `k` is the first to observe no interval, exactly `k + 1`
/// reports go out, whatever comes later in the trace.
pub proof fn lemma_reporting_stops(ticks: Seq<ReportTick>, k: int)
    requires
        0 <= k < ticks.len(),
        ticks[k].interval is None,
        forall|j: int| 0 <= j < k ==> ticks[j].interval is Some,
    ensures
        reports_sent(ticks) == k + 1,
    decreases k,
{
    if k == 0 {
    } else {
        assert(ticks.skip(1)[k - 1] == ticks[k]);
        assert(forall|j: int| 0 <= j < k - 1 ==> ticks.skip(1)[j] == ticks[j + 1]);
        lemma_reporting_stops(ticks.skip(1), k - 1);
    }
}

/// A loop whose interval never disappears publishes one report for every
/// iteration it observes.
pub proof fn lemma_reporting_runs_on(ticks: Seq<ReportTick>)
    requires
        forall|j: int| 0 <= j < ticks.len() ==> ticks[j].interval is Some,
    ensures
        reports_sent(ticks) == ticks.len(),
    decreases ticks.len(),
{
    if ticks.len() > 0 {
        assert(forall|j: int| 0 <= j < ticks.skip(1).len() ==> ticks.skip(1)[j] == ticks[j + 1]);
        lemma_reporting_runs_on(ticks.skip(1));
    }
}

} // verus!
