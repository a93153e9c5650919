//! The result of one polling cycle: the values of every job that was asked
//! for, and how many requests were made and failed.

use vstd::prelude::*;
use crate::history::JobHistory;
use crate::naming::Metric;
use crate::reducer::{reduce, spec_reduce, WindowMetrics};
use crate::request::{decimal, push_decimal, FetchError};
use vstd::string::StringExecFns;

verus! {

/// The request time recorded when the clock could not be read.
pub const CLOCK_FAILURE: i64 = -1;

/// The five values of one job: the window's counts and the time its request
/// took, in milliseconds.
#[derive(Clone, Copy, Debug, PartialEq, Eq, Structural)]
pub struct JobGauges {
    pub metrics: WindowMetrics,
    pub reqtime_ms: i64,
}

/// A count as a gauge shows it: itself, or the largest gauge value where it
/// is larger than that.
pub open spec fn gauge_of_count(c: usize) -> i64 {
    if c <= i64::MAX {
        c as i64
    } else {
        i64::MAX
    }
}

/// The request time that stands for a reading of the clock: the elapsed
/// milliseconds, at most the largest gauge value, or `CLOCK_FAILURE` when the
/// clock could not be read.
pub open spec fn spec_latency_ms(elapsed: Option<u128>) -> i64 {
    match elapsed {
        None => CLOCK_FAILURE,
        Some(ms) => if ms <= i64::MAX {
            ms as i64
        } else {
            i64::MAX
        },
    }
}

/// The values that one job's request gives: the reduction of the history it
/// brought, or all zeros where it failed, and the time it took.
pub open spec fn spec_job_gauges(
    response: Result<JobHistory, FetchError>,
    elapsed: Option<u128>,
    window_size: usize,
) -> JobGauges {
    JobGauges {
        metrics: match response {
            Ok(history) => spec_reduce(history@, window_size),
            Err(_) => WindowMetrics::spec_zero(),
        },
        reqtime_ms: spec_latency_ms(elapsed),
    }
}

impl JobGauges {
    /// All counts zero and a request time of zero: what is published for a
    /// job before its first cycle.
    pub open spec fn spec_zero() -> JobGauges {
        JobGauges { metrics: WindowMetrics::spec_zero(), reqtime_ms: 0 }
    }

    #[verifier::when_used_as_spec(spec_zero)]
    pub fn zero() -> (g: JobGauges)
        ensures
            g == Self::spec_zero(),
    {
        JobGauges { metrics: WindowMetrics::zero(), reqtime_ms: 0 }
    }

    /// The value that is published for `metric`.
    pub open spec fn spec_value(self, metric: Metric) -> i64 {
        match metric {
            Metric::Total => gauge_of_count(self.metrics.total),
            Metric::Success => gauge_of_count(self.metrics.success),
            Metric::Failure => gauge_of_count(self.metrics.failure),
            Metric::Unstable => gauge_of_count(self.metrics.unstable),
            Metric::RequestTime => self.reqtime_ms,
        }
    }

    #[verifier::when_used_as_spec(spec_value)]
    pub fn value(self, metric: Metric) -> (v: i64)
        ensures
            v == self.spec_value(metric),
    {
        match metric {
            Metric::Total => count_to_gauge(self.metrics.total),
            Metric::Success => count_to_gauge(self.metrics.success),
            Metric::Failure => count_to_gauge(self.metrics.failure),
            Metric::Unstable => count_to_gauge(self.metrics.unstable),
            Metric::RequestTime => self.reqtime_ms,
        }
    }
}

fn count_to_gauge(c: usize) -> (v: i64)
    ensures
        v == gauge_of_count(c),
{
    let wide: u64 = c as u64;
    if wide <= 0x7fff_ffff_ffff_ffff {
        wide as i64
    } else {
        0x7fff_ffff_ffff_ffff
    }
}

/// Turns a reading of the clock into a request time.
pub fn latency_ms(elapsed: Option<u128>) -> (ms: i64)
    ensures
        ms == spec_latency_ms(elapsed),
{
    match elapsed {
        None => CLOCK_FAILURE,
        Some(ms) => if ms <= 0x7fff_ffff_ffff_ffff {
            ms as i64
        } else {
            0x7fff_ffff_ffff_ffff
        },
    }
}

/// Computes the values that one job's request gives.
pub fn job_gauges(
    response: &Result<JobHistory, FetchError>,
    elapsed: Option<u128>,
    window_size: usize,
) -> (g: JobGauges)
    ensures
        g == spec_job_gauges(*response, elapsed, window_size),
{
    let metrics = match response {
        Ok(history) => reduce(history, window_size),
        Err(_) => WindowMetrics::zero(),
    };
    JobGauges { metrics, reqtime_ms: latency_ms(elapsed) }
}

/// The line that reports the counts of `job` after its request.
pub open spec fn spec_summary_line(job: Seq<char>, metrics: WindowMetrics) -> Seq<char> {
    job + ": ok "@ + decimal(metrics.success as nat) + "/ nok "@ + decimal(metrics.failure as nat)
        + "/ unstable "@ + decimal(metrics.unstable as nat) + "/ total "@ + decimal(
        metrics.total as nat,
    )
}

/// Writes the line that reports the counts of `job` after its request.
pub fn summary_line(job: &str, metrics: WindowMetrics) -> (line: String)
    ensures
        line@ == spec_summary_line(job@, metrics),
{
    let mut line = String::from_str(job);
    line.append(": ok ");
    push_decimal(&mut line, metrics.success);
    line.append("/ nok ");
    push_decimal(&mut line, metrics.failure);
    line.append("/ unstable ");
    push_decimal(&mut line, metrics.unstable);
    line.append("/ total ");
    push_decimal(&mut line, metrics.total);
    line
}

/// The values of one job in a snapshot.
#[derive(Clone, Debug, PartialEq, Eq)]
struct SnapshotEntry {
    job: String,
    gauges: JobGauges,
}

/// The result of one polling cycle.
///
/// It holds one entry for every request of the cycle, in the order in which
/// the requests were made. Where a job was asked for more than once, the last
/// entry is the one that is looked up.
#[derive(Clone, Debug, PartialEq, Eq)]
pub struct CycleSnapshot {
    entries: Vec<SnapshotEntry>,
    requests_failed: usize,
}

/// A snapshot as contracts see it.
pub struct SnapshotView {
    /// Job name and values of every request, in the order of the requests.
    pub entries: Seq<(Seq<char>, JobGauges)>,
    /// How many of the requests failed.
    pub requests_failed: nat,
}

/// The values of the last entry of `entries` that is named `job`.
pub open spec fn lookup_last(entries: Seq<(Seq<char>, JobGauges)>, job: Seq<char>) -> Option<
    JobGauges,
>
    decreases entries.len(),
{
    if entries.len() == 0 {
        None
    } else if entries.last().0 == job {
        Some(entries.last().1)
    } else {
        lookup_last(entries.drop_last(), job)
    }
}

impl SnapshotView {
    /// The snapshot of a cycle that has made no request yet.
    pub open spec fn empty() -> SnapshotView {
        SnapshotView { entries: Seq::empty(), requests_failed: 0 }
    }

    /// The names of the jobs, one for every request, in order.
    pub open spec fn jobs(self) -> Seq<Seq<char>> {
        Seq::new(self.entries.len(), |i: int| self.entries[i].0)
    }

    /// How many requests the cycle made.
    pub open spec fn requests_attempted(self) -> nat {
        self.entries.len()
    }

    /// What holds of every snapshot that this library builds: no more
    /// requests failed than were made.
    pub open spec fn wf(self) -> bool {
        self.requests_failed <= self.requests_attempted()
    }

    /// The values recorded for `job`, if it was asked for.
    pub open spec fn lookup(self, job: Seq<char>) -> Option<JobGauges> {
        lookup_last(self.entries, job)
    }

    /// The snapshot after one more request, for `job`, that gave `gauges`.
    pub open spec fn recorded(self, job: Seq<char>, gauges: JobGauges, failed: bool) -> SnapshotView {
        SnapshotView {
            entries: self.entries.push((job, gauges)),
            requests_failed: if failed {
                self.requests_failed + 1
            } else {
                self.requests_failed
            },
        }
    }
}

impl View for CycleSnapshot {
    type V = SnapshotView;

    closed spec fn view(&self) -> SnapshotView {
        SnapshotView {
            entries: Seq::new(
                self.entries@.len(),
                |i: int| (self.entries@[i].job@, self.entries@[i].gauges),
            ),
            requests_failed: self.requests_failed as nat,
        }
    }
}

impl CycleSnapshot {
    /// The snapshot of a cycle that has made no request yet.
    pub fn new() -> (s: CycleSnapshot)
        ensures
            s@ == SnapshotView::empty(),
            s@.wf(),
    {
        let s = CycleSnapshot { entries: Vec::new(), requests_failed: 0 };
        proof {
            assert(s@.entries =~= Seq::empty());
        }
        s
    }

    /// Records the outcome of the request for `job`: its values, computed
    /// from the response (all zeros where it failed) and from the reading of
    /// the clock, are appended, and a failed request is counted as such.
    /// Returns the values that were recorded.
    pub fn record(
        &mut self,
        job: &String,
        response: &Result<JobHistory, FetchError>,
        elapsed: Option<u128>,
        window_size: usize,
    ) -> (g: JobGauges)
        requires
            old(self)@.wf(),
        ensures
            g == spec_job_gauges(*response, elapsed, window_size),
            final(self)@ == old(self)@.recorded(job@, g, response.is_err()),
            final(self)@.wf(),
    {
        let g = job_gauges(response, elapsed, window_size);
        self.entries.push(SnapshotEntry { job: job.clone(), gauges: g });
        let made: usize = self.entries.len();
        assert(self.requests_failed < made);
        if response.is_err() {
            self.requests_failed = self.requests_failed + 1;
        }
        proof {
            assert(final(self)@.entries =~= old(self)@.entries.push((job@, g)));
        }
        g
    }

    /// How many requests the cycle made.
    pub fn requests_attempted(&self) -> (n: usize)
        ensures
            n == self@.requests_attempted(),
    {
        self.entries.len()
    }

    /// How many of the cycle's requests failed.
    pub fn requests_failed(&self) -> (n: usize)
        ensures
            n == self@.requests_failed,
    {
        self.requests_failed
    }

    /// The name of the job of the `i`-th request.
    pub fn job_at(&self, i: usize) -> (job: &String)
        requires
            i < self@.entries.len(),
        ensures
            job@ == self@.entries[i as int].0,
    {
        &self.entries[i].job
    }

    /// The values of the `i`-th request.
    pub fn gauges_at(&self, i: usize) -> (g: JobGauges)
        requires
            i < self@.entries.len(),
        ensures
            g == self@.entries[i as int].1,
    {
        self.entries[i].gauges
    }

    /// The values recorded for `job`: those of its last request, or `None`
    /// where the cycle made no request for it.
    pub fn lookup(&self, job: &String) -> (r: Option<JobGauges>)
        ensures
            r == self@.lookup(job@),
    {
        let mut i: usize = self.entries.len();
        proof {
            assert(self@.entries.take(i as int) =~= self@.entries);
        }
        while i > 0
            invariant
                i <= self.entries@.len(),
                self@.lookup(job@) == lookup_last(self@.entries.take(i as int), job@),
            decreases i,
        {
            proof {
                assert(self@.entries.take(i as int).drop_last() =~= self@.entries.take(i - 1));
            }
            i = i - 1;
            if self.entries[i].job == *job {
                return Some(self.entries[i].gauges);
            }
        }
        None
    }
}

/// A job has values in a snapshot exactly when a request was made for it.
pub proof fn lemma_lookup_some_iff_asked(s: SnapshotView, job: Seq<char>)
    ensures
        s.lookup(job).is_some() <==> s.jobs().contains(job),
    decreases s.entries.len(),
{
    if s.entries.len() > 0 {
        let rest = SnapshotView { entries: s.entries.drop_last(), requests_failed: s.requests_failed };
        lemma_lookup_some_iff_asked(rest, job);
        let last = s.entries.len() - 1;
        if s.entries.last().0 == job {
            assert(s.jobs()[last] == job);
        } else {
            if rest.jobs().contains(job) {
                let i = choose|i: int| 0 <= i < rest.jobs().len() && rest.jobs()[i] == job;
                assert(s.jobs()[i] == job);
            }
            if s.jobs().contains(job) {
                let i = choose|i: int| 0 <= i < s.jobs().len() && s.jobs()[i] == job;
                assert(rest.jobs()[i] == job);
            }
        }
    }
}

} // verus!
