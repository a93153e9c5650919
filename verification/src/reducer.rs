//! Reduction of one job's build history to windowed outcome counts.

use vstd::prelude::*;
use vstd::slice::slice_subrange;
use vstd::string::StringExecFns;
use crate::history::{BuildRecord, JobHistory};

verus! {

/// Outcome counts over the most recent builds of one job.
///
/// `total` is the size of the window that was observed, or zero when the
/// history was too short to form one. Builds without a label, or with a label
/// other than the three named here, count in `total` only.
#[derive(Clone, Copy, Debug, PartialEq, Eq, Structural)]
pub struct WindowMetrics {
    pub total: usize,
    pub success: usize,
    pub failure: usize,
    pub unstable: usize,
}

impl WindowMetrics {
    /// The "not enough data" value: every count is zero.
    pub open spec fn spec_zero() -> WindowMetrics {
        WindowMetrics { total: 0, success: 0, failure: 0, unstable: 0 }
    }

    #[verifier::when_used_as_spec(spec_zero)]
    pub fn zero() -> (m: WindowMetrics)
        ensures
            m == Self::spec_zero(),
    {
        WindowMetrics { total: 0, success: 0, failure: 0, unstable: 0 }
    }

    /// The named counts never add up to more than the total.
    pub open spec fn consistent(self) -> bool {
        self.success + self.failure + self.unstable <= self.total
    }
}

/// The label of a build that succeeded.
pub open spec fn success_label() -> Seq<char> {
    "SUCCESS"@
}

/// The label of a build that failed.
pub open spec fn failure_label() -> Seq<char> {
    "FAILURE"@
}

/// The label of a build that passed with warnings.
pub open spec fn unstable_label() -> Seq<char> {
    "UNSTABLE"@
}

/// The most recent `n` builds: the trailing `n` records of `builds`, in their
/// order; empty when there are fewer than `n`.
pub open spec fn window(builds: Seq<BuildRecord>, n: nat) -> Seq<BuildRecord> {
    if builds.len() < n {
        Seq::empty()
    } else {
        builds.subrange(builds.len() - n, builds.len() as int)
    }
}

/// How many of `builds` carry exactly the label `label`.
pub open spec fn count_outcome(builds: Seq<BuildRecord>, label: Seq<char>) -> nat
    decreases builds.len(),
{
    if builds.len() == 0 {
        0
    } else {
        count_outcome(builds.drop_last(), label) + if builds.last().has_outcome(label) {
            1nat
        } else {
            0nat
        }
    }
}

/// The value that `reduce` owes for `builds` and a window of `n`: all zeros
/// when there are fewer than `n` builds, otherwise `n` as total and the counts
/// of the three labels over the trailing window.
pub open spec fn spec_reduce(builds: Seq<BuildRecord>, n: usize) -> WindowMetrics {
    if builds.len() < n {
        WindowMetrics::spec_zero()
    } else {
        WindowMetrics {
            total: n,
            success: count_outcome(window(builds, n as nat), success_label()) as usize,
            failure: count_outcome(window(builds, n as nat), failure_label()) as usize,
            unstable: count_outcome(window(builds, n as nat), unstable_label()) as usize,
        }
    }
}

/// No label is counted more often than there are builds.
pub proof fn lemma_count_bounded(builds: Seq<BuildRecord>, label: Seq<char>)
    ensures
        count_outcome(builds, label) <= builds.len(),
    decreases builds.len(),
{
    if builds.len() > 0 {
        lemma_count_bounded(builds.drop_last(), label);
    }
}

/// Counting over a prefix that grows by one build adds that build's share.
proof fn lemma_count_step(builds: Seq<BuildRecord>, k: int, label: Seq<char>)
    requires
        0 <= k < builds.len(),
    ensures
        count_outcome(builds.take(k + 1), label) == count_outcome(builds.take(k), label) + if builds[k].has_outcome(
            label,
        ) {
            1nat
        } else {
            0nat
        },
{
    assert(builds.take(k + 1).drop_last() =~= builds.take(k));
}

/// The most recent `n` builds of `history`, in their order; none when the
/// history is shorter than `n`.
pub fn recent_builds(history: &JobHistory, n: usize) -> (recent: &[BuildRecord])
    ensures
        recent@ == window(history@, n as nat),
{
    let len: usize = history.builds.len();
    if len < n {
        slice_subrange(history.builds.as_slice(), 0, 0)
    } else {
        slice_subrange(history.builds.as_slice(), len - n, len)
    }
}

/// Counts the builds labeled `label` among the last `n` of `history`; zero
/// when the history is shorter than `n`.
pub fn count_in_window(history: &JobHistory, n: usize, label: &String) -> (c: usize)
    ensures
        c == count_outcome(window(history@, n as nat), label@),
        c <= n,
{
    let len: usize = history.builds.len();
    if len < n {
        return 0;
    }
    let start: usize = len - n;
    let ghost w = window(history@, n as nat);
    let mut c: usize = 0;
    let mut k: usize = 0;
    while k < n
        invariant
            len == history.builds.len(),
            n <= len,
            start == len - n,
            w == window(history@, n as nat),
            w.len() == n,
            k <= n,
            c == count_outcome(w.take(k as int), label@),
            c <= k,
        decreases n - k,
    {
        proof {
            lemma_count_step(w, k as int, label@);
        }
        if history.builds[start + k].is_labeled(label) {
            c = c + 1;
        }
        k = k + 1;
    }
    proof {
        assert(w.take(n as int) =~= w);
    }
    c
}

/// Reduces a history to the counts over its most recent `window_size` builds.
///
/// A history shorter than the window gives the all-zero value. Otherwise the
/// total is the window's size, and each named count is the number of builds in
/// the trailing window that carry that label.
pub fn reduce(history: &JobHistory, window_size: usize) -> (m: WindowMetrics)
    ensures
        m == spec_reduce(history@, window_size),
        m.consistent(),
        m.total == 0 || m.total == window_size,
{
    if history.builds.len() < window_size {
        return WindowMetrics::zero();
    }
    let success = count_in_window(history, window_size, &String::from_str("SUCCESS"));
    let failure = count_in_window(history, window_size, &String::from_str("FAILURE"));
    let unstable = count_in_window(history, window_size, &String::from_str("UNSTABLE"));
    proof {
        lemma_labels_distinct();
        lemma_three_counts_bounded(
            window(history@, window_size as nat),
            success_label(),
            failure_label(),
            unstable_label(),
        );
    }
    WindowMetrics { total: window_size, success, failure, unstable }
}

/// The three named labels differ from one another.
pub proof fn lemma_labels_distinct()
    ensures
        success_label() != failure_label(),
        success_label() != unstable_label(),
        failure_label() != unstable_label(),
{
    reveal_strlit("SUCCESS");
    reveal_strlit("FAILURE");
    reveal_strlit("UNSTABLE");
    assert(success_label()[0] == 'S');
    assert(failure_label()[0] == 'F');
    assert(unstable_label()[0] == 'U');
}

/// A build carries at most one label, so the counts of three different
/// labels together never exceed the number of builds.
pub proof fn lemma_three_counts_bounded(
    builds: Seq<BuildRecord>,
    a: Seq<char>,
    b: Seq<char>,
    c: Seq<char>,
)
    requires
        a != b,
        a != c,
        b != c,
    ensures
        count_outcome(builds, a) + count_outcome(builds, b) + count_outcome(builds, c)
            <= builds.len(),
    decreases builds.len(),
{
    if builds.len() > 0 {
        lemma_three_counts_bounded(builds.drop_last(), a, b, c);
    }
}

/// A history shorter than the window reduces to all zeros.
pub proof fn law_short_history_is_zero(builds: Seq<BuildRecord>, n: usize)
    requires
        builds.len() < n,
    ensures
        spec_reduce(builds, n) == WindowMetrics::spec_zero(),
        spec_reduce(builds, n).total == 0,
        spec_reduce(builds, n).success == 0,
        spec_reduce(builds, n).failure == 0,
        spec_reduce(builds, n).unstable == 0,
{
}

/// A history of exactly the window's size reduces to that size as total, and
/// to the number of its builds that carry a label as that label's count.
pub proof fn law_exact_window(builds: Seq<BuildRecord>, n: usize)
    requires
        builds.len() == n,
    ensures
        spec_reduce(builds, n).total == n,
        spec_reduce(builds, n).success == count_outcome(builds, success_label()),
        spec_reduce(builds, n).failure == count_outcome(builds, failure_label()),
        spec_reduce(builds, n).unstable == count_outcome(builds, unstable_label()),
{
    assert(window(builds, n as nat) =~= builds);
    lemma_count_bounded(builds, success_label());
    lemma_count_bounded(builds, failure_label());
    lemma_count_bounded(builds, unstable_label());
}

/// In every reduction the named counts sum to at most the total, and the
/// total is either zero or the window's size.
pub proof fn law_counts_within_total(builds: Seq<BuildRecord>, n: usize)
    ensures
        spec_reduce(builds, n).success + spec_reduce(builds, n).failure + spec_reduce(
            builds,
            n,
        ).unstable <= spec_reduce(builds, n).total,
        spec_reduce(builds, n).total == 0 || spec_reduce(builds, n).total == n,
{
    if builds.len() >= n {
        lemma_labels_distinct();
        lemma_three_counts_bounded(
            window(builds, n as nat),
            success_label(),
            failure_label(),
            unstable_label(),
        );
    }
}

/// Only the most recent builds count: whatever older builds stand before the
/// last `n`, the reduction is that of the last `n` alone.
pub proof fn law_only_recent_builds_count(
    older: Seq<BuildRecord>,
    recent: Seq<BuildRecord>,
    n: usize,
)
    requires
        recent.len() == n,
    ensures
        spec_reduce(older + recent, n) == spec_reduce(recent, n),
{
    assert(window(older + recent, n as nat) =~= recent);
    assert(window(recent, n as nat) =~= recent);
}

} // verus!
