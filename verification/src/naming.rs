//! Names under which the values of a job are published.

use vstd::prelude::*;
use vstd::string::{StrSliceExecFns, StringExecFns};

verus! {

/// `String::push` of std appends one character to the end of the string.
pub assume_specification[ String::push ](s: &mut String, ch: char)
    ensures
        final(s)@ == old(s)@.push(ch),
;

/// The five values published for every job.
#[derive(Clone, Copy, Debug, PartialEq, Eq, Structural)]
pub enum Metric {
    Total,
    Success,
    Failure,
    Unstable,
    RequestTime,
}

impl Metric {
    /// The suffix that follows the job's name in the published name.
    pub open spec fn spec_suffix(self) -> Seq<char> {
        match self {
            Metric::Total => "total"@,
            Metric::Success => "success"@,
            Metric::Failure => "failure"@,
            Metric::Unstable => "unstable"@,
            Metric::RequestTime => "reqtime_ms"@,
        }
    }

    /// What the help line says after the job's name.
    pub open spec fn spec_help(self) -> Seq<char> {
        match self {
            Metric::Total => "last builds total"@,
            Metric::Success => "last builds with SUCCESS"@,
            Metric::Failure => "last builds with FAILURE"@,
            Metric::Unstable => "last builds with UNSTABLE"@,
            Metric::RequestTime => "how long the last Jenkins API request took"@,
        }
    }

    pub fn suffix(self) -> (s: &'static str)
        ensures
            s@ == self.spec_suffix(),
    {
        match self {
            Metric::Total => "total",
            Metric::Success => "success",
            Metric::Failure => "failure",
            Metric::Unstable => "unstable",
            Metric::RequestTime => "reqtime_ms",
        }
    }

    pub fn help(self) -> (s: &'static str)
        ensures
            s@ == self.spec_help(),
    {
        match self {
            Metric::Total => "last builds total",
            Metric::Success => "last builds with SUCCESS",
            Metric::Failure => "last builds with FAILURE",
            Metric::Unstable => "last builds with UNSTABLE",
            Metric::RequestTime => "how long the last Jenkins API request took",
        }
    }

    /// All five metrics, in the order in which they are registered.
    pub fn all() -> (v: Vec<Metric>)
        ensures
            v@ == seq![
                Metric::Total,
                Metric::Success,
                Metric::Failure,
                Metric::Unstable,
                Metric::RequestTime,
            ],
    {
        vec![Metric::Total, Metric::Success, Metric::Failure, Metric::Unstable, Metric::RequestTime]
    }
}

/// A character of a job's name as it stands in a published name: a hyphen
/// becomes an underscore, every other character stays.
pub open spec fn sanitized_char(c: char) -> char {
    if c == '-' {
        '_'
    } else {
        c
    }
}

/// A job's name with every hyphen replaced by an underscore.
pub open spec fn sanitized(job: Seq<char>) -> Seq<char> {
    Seq::new(job.len(), |i: int| sanitized_char(job[i]))
}

/// The published name of one value of one job.
pub open spec fn spec_metric_name(job: Seq<char>, metric: Metric) -> Seq<char> {
    sanitized(job) + seq!['_'] + metric.spec_suffix()
}

/// The help line of one value of one job.
pub open spec fn spec_metric_help(job: Seq<char>, metric: Metric) -> Seq<char> {
    job + seq![' '] + metric.spec_help()
}

/// Replaces every hyphen of `job` by an underscore.
pub fn sanitize(job: &str) -> (out: String)
    ensures
        out@ == sanitized(job@),
{
    let n: usize = job.unicode_len();
    let mut out = String::new();
    let mut i: usize = 0;
    while i < n
        invariant
            n == job@.len(),
            i <= n,
            out@ == sanitized(job@).take(i as int),
        decreases n - i,
    {
        let c = job.get_char(i);
        if c == '-' {
            out.push('_');
        } else {
            out.push(c);
        }
        proof {
            assert(sanitized(job@).take(i + 1) =~= sanitized(job@).take(i as int).push(
                sanitized_char(job@[i as int]),
            ));
        }
        i = i + 1;
    }
    proof {
        assert(sanitized(job@).take(n as int) =~= sanitized(job@));
    }
    out
}

/// The name under which `metric` of `job` is published.
pub fn metric_name(job: &str, metric: Metric) -> (name: String)
    ensures
        name@ == spec_metric_name(job@, metric),
{
    let mut name = sanitize(job);
    name.push('_');
    name.append(metric.suffix());
    name
}

/// The help line that goes with `metric` of `job`.
pub fn metric_help(job: &str, metric: Metric) -> (help: String)
    ensures
        help@ == spec_metric_help(job@, metric),
{
    let mut help = String::from_str(job);
    help.push(' ');
    help.append(metric.help());
    help
}

/// Sanitizing changes no length and leaves no hyphen behind; a name without
/// a hyphen is left as it is.
pub proof fn law_sanitized(job: Seq<char>)
    ensures
        sanitized(job).len() == job.len(),
        !sanitized(job).contains('-'),
        !job.contains('-') ==> sanitized(job) == job,
        sanitized(sanitized(job)) == sanitized(job),
{
    if !job.contains('-') {
        assert(sanitized(job) =~= job);
    }
    assert(sanitized(sanitized(job)) =~= sanitized(job));
}

} // verus!
