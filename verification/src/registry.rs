//! The published values: one group of five for every configured job, made
//! once and overwritten by every cycle.

use vstd::prelude::*;
use crate::cycle::job_names;
use crate::naming::Metric;
use crate::snapshot::{lemma_lookup_some_iff_asked, CycleSnapshot, JobGauges, SnapshotView};

verus! {

/// The published values of one job.
#[derive(Clone, Debug, PartialEq, Eq)]
struct GaugeEntry {
    job: String,
    gauges: JobGauges,
}

/// The published values of all configured jobs. The jobs are fixed when the
/// set is made; publishing changes values only.
#[derive(Clone, Debug, PartialEq, Eq)]
pub struct PublishedGaugeSet {
    entries: Vec<GaugeEntry>,
}

impl View for PublishedGaugeSet {
    type V = Seq<(Seq<char>, JobGauges)>;

    closed spec fn view(&self) -> Seq<(Seq<char>, JobGauges)> {
        Seq::new(self.entries@.len(), |i: int| (self.entries@[i].job@, self.entries@[i].gauges))
    }
}

/// The set as it is made for `jobs`: an entry for each, in order, with every
/// value zero.
pub open spec fn spec_initialize(jobs: Seq<Seq<char>>) -> Seq<(Seq<char>, JobGauges)> {
    Seq::new(jobs.len(), |i: int| (jobs[i], JobGauges::spec_zero()))
}

/// True when `set` has an entry for `job`.
pub open spec fn has_job(set: Seq<(Seq<char>, JobGauges)>, job: Seq<char>) -> bool {
    exists|i: int| 0 <= i < set.len() && (#[trigger] set[i]).0 == job
}

/// True when the set and the snapshot speak of the same jobs: the snapshot
/// has values for every job of the set, and every job of the snapshot is one
/// of the set.
pub open spec fn spec_same_jobs(set: Seq<(Seq<char>, JobGauges)>, snapshot: SnapshotView) -> bool {
    &&& forall|i: int| 0 <= i < set.len() ==> snapshot.lookup((#[trigger] set[i]).0).is_some()
    &&& forall|k: int|
        0 <= k < snapshot.entries.len() ==> has_job(set, (#[trigger] snapshot.entries[k]).0)
}

/// The values of one entry after `snapshot` was published: those that the
/// snapshot holds for the entry's job.
pub open spec fn published_entry(entry: (Seq<char>, JobGauges), snapshot: SnapshotView) -> (
    Seq<char>,
    JobGauges,
) {
    match snapshot.lookup(entry.0) {
        Some(gauges) => (entry.0, gauges),
        None => entry,
    }
}

/// The set after `snapshot` was published: the same jobs in the same order,
/// each with the values that the snapshot holds for it.
pub open spec fn spec_publish(set: Seq<(Seq<char>, JobGauges)>, snapshot: SnapshotView) -> Seq<
    (Seq<char>, JobGauges),
> {
    Seq::new(set.len(), |i: int| published_entry(set[i], snapshot))
}

/// The values published for `job`: those of the first entry of that name.
pub open spec fn spec_published(set: Seq<(Seq<char>, JobGauges)>, job: Seq<char>) -> Option<
    JobGauges,
>
    decreases set.len(),
{
    if set.len() == 0 {
        None
    } else if set.first().0 == job {
        Some(set.first().1)
    } else {
        spec_published(set.drop_first(), job)
    }
}

impl PublishedGaugeSet {
    /// Makes the set for `jobs`: an entry for each, in order, with every
    /// value zero.
    pub fn initialize(jobs: &Vec<String>) -> (set: PublishedGaugeSet)
        ensures
            set@ == spec_initialize(job_names(jobs@)),
    {
        let mut entries: Vec<GaugeEntry> = Vec::new();
        let n: usize = jobs.len();
        let mut i: usize = 0;
        while i < n
            invariant
                n == jobs@.len(),
                i <= n,
                entries@.len() == i,
                forall|k: int|
                    0 <= k < i ==> (#[trigger] entries@[k]).job@ == jobs@[k]@ && entries@[k].gauges
                        == JobGauges::spec_zero(),
            decreases n - i,
        {
            entries.push(GaugeEntry { job: jobs[i].clone(), gauges: JobGauges::zero() });
            i = i + 1;
        }
        let set = PublishedGaugeSet { entries };
        proof {
            assert(set@ =~= spec_initialize(job_names(jobs@)));
        }
        set
    }

    /// How many entries the set has.
    pub fn len(&self) -> (n: usize)
        ensures
            n == self@.len(),
    {
        self.entries.len()
    }

    /// The job of the `i`-th entry.
    pub fn job_at(&self, i: usize) -> (job: &String)
        requires
            i < self@.len(),
        ensures
            job@ == self@[i as int].0,
    {
        &self.entries[i].job
    }

    /// The values of the `i`-th entry.
    pub fn gauges_at(&self, i: usize) -> (g: JobGauges)
        requires
            i < self@.len(),
        ensures
            g == self@[i as int].1,
    {
        self.entries[i].gauges
    }

    /// Tests whether the set has an entry for `job`.
    pub fn has_entry(&self, job: &String) -> (b: bool)
        ensures
            b == has_job(self@, job@),
    {
        let n: usize = self.entries.len();
        let mut i: usize = 0;
        while i < n
            invariant
                n == self@.len(),
                n == self.entries@.len(),
                i <= n,
                forall|k: int| 0 <= k < i ==> (#[trigger] self@[k]).0 != job@,
            decreases n - i,
        {
            if self.entries[i].job == *job {
                assert(self@[i as int].0 == job@);
                return true;
            }
            assert(self@[i as int].0 != job@);
            i = i + 1;
        }
        false
    }

    /// The values published for `job`, or `None` where the set has no entry
    /// for it.
    pub fn published(&self, job: &String) -> (r: Option<JobGauges>)
        ensures
            r == spec_published(self@, job@),
    {
        let n: usize = self.entries.len();
        let mut i: usize = 0;
        proof {
            assert(self@.skip(0) =~= self@);
        }
        while i < n
            invariant
                n == self@.len(),
                n == self.entries@.len(),
                i <= n,
                spec_published(self@, job@) == spec_published(self@.skip(i as int), job@),
            decreases n - i,
        {
            proof {
                assert(self@.skip(i as int).drop_first() =~= self@.skip(i + 1));
                assert(self@.skip(i as int).first() == self@[i as int]);
            }
            if self.entries[i].job == *job {
                return Some(self.entries[i].gauges);
            }
            i = i + 1;
        }
        None
    }

    /// The value published for `metric` of `job`, or `None` where the set has
    /// no entry for the job.
    pub fn value(&self, job: &String, metric: Metric) -> (r: Option<i64>)
        ensures
            r == match spec_published(self@, job@) {
                Some(gauges) => Some(gauges.spec_value(metric)),
                None => None,
            },
    {
        match self.published(job) {
            Some(gauges) => Some(gauges.value(metric)),
            None => None,
        }
    }

    /// Tests whether the set and `snapshot` speak of the same jobs.
    pub fn same_jobs(&self, snapshot: &CycleSnapshot) -> (b: bool)
        ensures
            b == spec_same_jobs(self@, snapshot@),
    {
        let n: usize = self.entries.len();
        let mut i: usize = 0;
        while i < n
            invariant
                n == self@.len(),
                n == self.entries@.len(),
                i <= n,
                forall|k: int| 0 <= k < i ==> snapshot@.lookup((#[trigger] self@[k]).0).is_some(),
            decreases n - i,
        {
            assert(self@[i as int].0 == self.entries@[i as int].job@);
            if snapshot.lookup(&self.entries[i].job).is_none() {
                return false;
            }
            i = i + 1;
        }
        let m: usize = snapshot.requests_attempted();
        let mut k: usize = 0;
        while k < m
            invariant
                m == snapshot@.entries.len(),
                k <= m,
                forall|j: int| 0 <= j < k ==> has_job(self@, (#[trigger] snapshot@.entries[j]).0),
            decreases m - k,
        {
            if !self.has_entry(snapshot.job_at(k)) {
                return false;
            }
            k = k + 1;
        }
        true
    }

    /// Overwrites every value of every job with what `snapshot` holds for
    /// that job. The set and the snapshot must speak of the same jobs.
    pub fn publish(&mut self, snapshot: &CycleSnapshot)
        requires
            spec_same_jobs(old(self)@, snapshot@),
        ensures
            final(self)@ == spec_publish(old(self)@, snapshot@),
    {
        let n: usize = self.entries.len();
        let mut i: usize = 0;
        while i < n
            invariant
                n == old(self)@.len(),
                self@.len() == n,
                i <= n,
                spec_same_jobs(old(self)@, snapshot@),
                forall|k: int|
                    0 <= k < i ==> #[trigger] self@[k] == published_entry(old(self)@[k], snapshot@),
                forall|k: int| i <= k < n ==> #[trigger] self@[k] == old(self)@[k],
            decreases n - i,
        {
            let ghost before = self@;
            assert(before[i as int] == old(self)@[i as int]);
            let found = snapshot.lookup(&self.entries[i].job);
            match found {
                Some(gauges) => {
                    self.entries[i].gauges = gauges;
                },
                None => {},
            }
            proof {
                assert(self@[i as int] == published_entry(old(self)@[i as int], snapshot@));
                assert forall|k: int| 0 <= k < n && k != i implies #[trigger] self@[k]
                    == before[k] by {}
            }
            i = i + 1;
        }
        proof {
            assert(self@ =~= spec_publish(old(self)@, snapshot@));
        }
    }
}

/// Publishing changes no job: the set keeps its length and every entry its
/// name.
pub proof fn law_publish_keeps_jobs(set: Seq<(Seq<char>, JobGauges)>, snapshot: SnapshotView)
    ensures
        spec_publish(set, snapshot).len() == set.len(),
        forall|i: int| 0 <= i < set.len() ==> (#[trigger] spec_publish(set, snapshot)[i]).0 == set[i].0,
        forall|job: Seq<char>| has_job(spec_publish(set, snapshot), job) <==> has_job(set, job),
{
    let after = spec_publish(set, snapshot);
    assert forall|job: Seq<char>| has_job(after, job) <==> has_job(set, job) by {
        if has_job(after, job) {
            let i = choose|i: int| 0 <= i < after.len() && (#[trigger] after[i]).0 == job;
            assert(set[i].0 == job);
        }
        if has_job(set, job) {
            let i = choose|i: int| 0 <= i < set.len() && (#[trigger] set[i]).0 == job;
            assert(after[i].0 == job);
        }
    }
}

/// Publishing a snapshot a second time changes nothing: the set is as it
/// was after the first time.
pub proof fn law_publish_idempotent(set: Seq<(Seq<char>, JobGauges)>, snapshot: SnapshotView)
    ensures
        spec_publish(spec_publish(set, snapshot), snapshot) == spec_publish(set, snapshot),
{
    assert(spec_publish(spec_publish(set, snapshot), snapshot) =~= spec_publish(set, snapshot));
}

/// After a snapshot that speaks of the set's jobs was published, nothing is
/// left of what was published before it: the set is as if only this snapshot
/// had ever been published.
pub proof fn law_last_publish_wins(
    set: Seq<(Seq<char>, JobGauges)>,
    earlier: SnapshotView,
    later: SnapshotView,
)
    requires
        spec_same_jobs(set, later),
    ensures
        spec_publish(spec_publish(set, earlier), later) == spec_publish(set, later),
{
    assert forall|i: int| 0 <= i < set.len() implies #[trigger] spec_publish(
        spec_publish(set, earlier),
        later,
    )[i] == spec_publish(set, later)[i] by {
        assert(later.lookup(set[i].0).is_some());
    }
    assert(spec_publish(spec_publish(set, earlier), later) =~= spec_publish(set, later));
}

/// After a snapshot that has values for every job of the set was published,
/// the values published for a job of the set are those that the snapshot
/// holds for it.
pub proof fn law_published_is_snapshot(
    set: Seq<(Seq<char>, JobGauges)>,
    snapshot: SnapshotView,
    job: Seq<char>,
)
    requires
        forall|i: int| 0 <= i < set.len() ==> snapshot.lookup((#[trigger] set[i]).0).is_some(),
        has_job(set, job),
    ensures
        spec_published(spec_publish(set, snapshot), job) == snapshot.lookup(job),
    decreases set.len(),
{
    let after = spec_publish(set, snapshot);
    let i = choose|i: int| 0 <= i < set.len() && (#[trigger] set[i]).0 == job;
    assert(after.first() == published_entry(set.first(), snapshot));
    assert(snapshot.lookup(set[0].0).is_some());
    if set.first().0 != job {
        let rest = set.drop_first();
        assert(after.drop_first() =~= spec_publish(rest, snapshot));
        assert forall|k: int| 0 <= k < rest.len() implies snapshot.lookup(
            (#[trigger] rest[k]).0,
        ).is_some() by {
            assert(rest[k] == set[k + 1]);
        }
        assert(rest[i - 1].0 == job);
        law_published_is_snapshot(rest, snapshot, job);
    }
}

/// A set made for a list of jobs and a snapshot with one entry for each job
/// of that list, in order, speak of the same jobs: such a snapshot can always
/// be published to such a set, and still can after any other was published.
pub proof fn law_snapshot_fits_registry(
    jobs: Seq<Seq<char>>,
    snapshot: SnapshotView,
    published_before: SnapshotView,
)
    requires
        snapshot.jobs() == jobs,
    ensures
        spec_same_jobs(spec_initialize(jobs), snapshot),
        spec_same_jobs(spec_publish(spec_initialize(jobs), published_before), snapshot),
{
    let set = spec_initialize(jobs);
    let later = spec_publish(set, published_before);
    assert forall|i: int| 0 <= i < set.len() implies snapshot.lookup((#[trigger] set[i]).0).is_some()
        && snapshot.lookup((#[trigger] later[i]).0).is_some() by {
        lemma_lookup_some_iff_asked(snapshot, jobs[i]);
        assert(snapshot.jobs()[i] == jobs[i]);
    }
    assert forall|k: int| 0 <= k < snapshot.entries.len() implies has_job(
        set,
        (#[trigger] snapshot.entries[k]).0,
    ) && has_job(later, snapshot.entries[k].0) by {
        assert(snapshot.jobs()[k] == snapshot.entries[k].0);
        assert(set[k].0 == jobs[k]);
        assert(later[k].0 == jobs[k]);
    }
}

} // verus!
