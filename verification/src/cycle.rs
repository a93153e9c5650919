//! One polling cycle: every configured job is asked for once, its request is
//! timed, and what it brought is reduced and recorded.

use vstd::prelude::*;
use std::time::{Duration, SystemTime, SystemTimeError};
use crate::history::JobHistory;
use crate::reducer::{spec_reduce, WindowMetrics};
use crate::request::FetchError;
use crate::snapshot::{lemma_lookup_some_iff_asked, CycleSnapshot, SnapshotView, CLOCK_FAILURE};

verus! {

/// `std::time::SystemTime`, a reading of the system clock. Nothing is known
/// of what a value holds.
#[verifier::external_type_specification]
#[verifier::external_body]
pub struct ExSystemTime(SystemTime);

/// `std::time::SystemTimeError`, the error of a clock that went backwards.
#[verifier::external_type_specification]
#[verifier::external_body]
pub struct ExSystemTimeError(SystemTimeError);

/// `SystemTime::now` of std reads the system clock. Nothing is claimed of
/// the reading.
pub assume_specification[ SystemTime::now ]() -> SystemTime;

/// `SystemTime::elapsed` of std gives the time that has passed since the
/// reading, or an error where the clock has gone backwards since. Nothing is
/// claimed of which it gives.
pub assume_specification[ SystemTime::elapsed ](start: &SystemTime) -> Result<
    Duration,
    SystemTimeError,
>;

/// `Duration::as_millis` of std gives the whole milliseconds of a duration.
/// Nothing is claimed of the number.
pub assume_specification[ Duration::as_millis ](d: &Duration) -> u128;

/// The names of the configured jobs, as sequences of characters.
pub open spec fn job_names(jobs: Seq<String>) -> Seq<Seq<char>> {
    Seq::new(jobs.len(), |i: int| jobs[i]@)
}

/// How many of `results` are failures.
pub open spec fn count_failed(results: Seq<Result<JobHistory, FetchError>>) -> nat
    decreases results.len(),
{
    if results.len() == 0 {
        0
    } else {
        count_failed(results.drop_last()) + if results.last().is_err() {
            1nat
        } else {
            0nat
        }
    }
}

/// The counts that a job's request gives: the reduction of the history it
/// brought, or all zeros where it failed.
pub open spec fn spec_job_metrics(
    response: Result<JobHistory, FetchError>,
    window_size: usize,
) -> WindowMetrics {
    match response {
        Ok(history) => spec_reduce(history@, window_size),
        Err(_) => WindowMetrics::spec_zero(),
    }
}

/// True when `snapshot` is what a cycle over `jobs` records if the requests
/// bring `results`, one for each job and in the jobs' order: an entry for every
/// job, under its name, with the counts that its result gives and with a
/// request time that is a number of milliseconds or `CLOCK_FAILURE`; and as
/// many failed requests as there are failures among the results.
pub open spec fn is_cycle_outcome(
    jobs: Seq<String>,
    window_size: usize,
    results: Seq<Result<JobHistory, FetchError>>,
    snapshot: SnapshotView,
) -> bool {
    &&& results.len() == jobs.len()
    &&& snapshot.entries.len() == jobs.len()
    &&& forall|i: int|
        0 <= i < jobs.len() ==> {
            &&& (#[trigger] snapshot.entries[i]).0 == jobs[i]@
            &&& snapshot.entries[i].1.metrics == spec_job_metrics(results[i], window_size)
            &&& snapshot.entries[i].1.reqtime_ms >= CLOCK_FAILURE
        }
    &&& snapshot.requests_failed == count_failed(results)
}

/// No more results are failures than there are results.
pub proof fn lemma_count_failed_bounded(results: Seq<Result<JobHistory, FetchError>>)
    ensures
        count_failed(results) <= results.len(),
    decreases results.len(),
{
    if results.len() > 0 {
        lemma_count_failed_bounded(results.drop_last());
    }
}

/// Whatever the requests of a cycle bring, its snapshot counts as many
/// requests as there are configured jobs and no more failures than requests,
/// and it holds values for exactly the configured jobs, however many of the
/// requests failed.
pub proof fn law_cycle_covers_jobs(
    jobs: Seq<String>,
    window_size: usize,
    results: Seq<Result<JobHistory, FetchError>>,
    snapshot: SnapshotView,
)
    requires
        is_cycle_outcome(jobs, window_size, results, snapshot),
    ensures
        snapshot.requests_attempted() == jobs.len(),
        snapshot.requests_failed <= snapshot.requests_attempted(),
        snapshot.jobs() == job_names(jobs),
        snapshot.jobs().to_set() == job_names(jobs).to_set(),
        forall|job: Seq<char>| snapshot.lookup(job).is_some() <==> job_names(jobs).contains(job),
{
    lemma_count_failed_bounded(results);
    assert(snapshot.jobs() =~= job_names(jobs));
    assert forall|job: Seq<char>| snapshot.lookup(job).is_some() <==> job_names(jobs).contains(
        job,
    ) by {
        lemma_lookup_some_iff_asked(snapshot, job);
    }
}

/// A job whose request failed has all-zero counts in the snapshot, whatever
/// the other requests brought; one whose request succeeded has the reduction
/// of its history.
pub proof fn law_failures_are_isolated(
    jobs: Seq<String>,
    window_size: usize,
    results: Seq<Result<JobHistory, FetchError>>,
    snapshot: SnapshotView,
    i: int,
)
    requires
        is_cycle_outcome(jobs, window_size, results, snapshot),
        0 <= i < jobs.len(),
    ensures
        snapshot.entries[i].0 == jobs[i]@,
        results[i].is_err() ==> snapshot.entries[i].1.metrics == WindowMetrics::spec_zero(),
        results[i] matches Ok(history) ==> snapshot.entries[i].1.metrics == spec_reduce(
            history@,
            window_size,
        ),
{
}

/// Runs one cycle: asks `fetch` for the history of every job of `jobs`, in
/// order and once each, times each request, and records what it gave. A
/// request that fails is counted and leaves all-zero counts for its job; it
/// stops nothing. A clock that cannot be read leaves `CLOCK_FAILURE` as the
/// request time.
pub fn run_cycle<F>(jobs: &Vec<String>, fetch: F, window_size: usize) -> (snapshot: CycleSnapshot)
    where F: Fn(&String) -> Result<JobHistory, FetchError>
    requires
        forall|i: int| 0 <= i < jobs@.len() ==> call_requires(fetch, (&#[trigger] jobs@[i],)),
    ensures
        snapshot@.wf(),
        snapshot@.requests_attempted() == jobs@.len(),
        snapshot@.requests_failed <= snapshot@.requests_attempted(),
        snapshot@.jobs() == job_names(jobs@),
        exists|results: Seq<Result<JobHistory, FetchError>>|
            {
                &&& is_cycle_outcome(jobs@, window_size, results, snapshot@)
                &&& forall|i: int|
                    0 <= i < jobs@.len() ==> call_ensures(fetch, (&jobs@[i],), #[trigger] results[i])
            },
{
    let mut snapshot = CycleSnapshot::new();
    let ghost mut results: Seq<Result<JobHistory, FetchError>> = Seq::empty();
    let n: usize = jobs.len();
    let mut i: usize = 0;
    while i < n
        invariant
            n == jobs@.len(),
            i <= n,
            snapshot@.wf(),
            results.len() == i,
            is_cycle_outcome(jobs@.take(i as int), window_size, results, snapshot@),
            forall|k: int| 0 <= k < i ==> call_ensures(fetch, (&jobs@[k],), #[trigger] results[k]),
            forall|k: int| 0 <= k < jobs@.len() ==> call_requires(fetch, (&#[trigger] jobs@[k],)),
        decreases n - i,
    {
        let job = &jobs[i];
        let started = SystemTime::now();
        let response = fetch(job);
        let elapsed = match started.elapsed() {
            Ok(d) => Some(d.as_millis()),
            Err(_) => None,
        };
        let ghost before = snapshot@;
        let ghost earlier = results;
        snapshot.record(job, &response, elapsed, window_size);
        proof {
            results = results.push(response);
            assert(results.drop_last() =~= earlier);
            assert(jobs@.take(i + 1).len() == i + 1);
            assert forall|k: int| 0 <= k < i + 1 implies {
                &&& (#[trigger] snapshot@.entries[k]).0 == jobs@.take(i + 1)[k]@
                &&& snapshot@.entries[k].1.metrics == spec_job_metrics(results[k], window_size)
                &&& snapshot@.entries[k].1.reqtime_ms >= CLOCK_FAILURE
            } by {
                if k < i {
                    assert(snapshot@.entries[k] == before.entries[k]);
                    assert(jobs@.take(i as int)[k] == jobs@[k]);
                }
            }
        }
        i = i + 1;
    }
    proof {
        assert(jobs@.take(n as int) =~= jobs@);
        lemma_count_failed_bounded(results);
        assert(snapshot@.jobs() =~= job_names(jobs@));
    }
    snapshot
}

} // verus!
