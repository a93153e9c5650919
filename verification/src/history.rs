//! Build records as the job server reports them, and how a response to a
//! build-list request is turned into a history or a fetch error.

use vstd::prelude::*;

verus! {

/// One historical build of a job.
#[derive(Clone, Debug, PartialEq, Eq)]
pub struct BuildRecord {
    pub id: String,
    pub number: usize,
    /// The outcome label, absent while the build runs or when it is unknown.
    pub result: Option<String>,
    pub timestamp: usize,
    pub duration: usize,
}

impl BuildRecord {
    /// The outcome label as a sequence of characters, if the build has one.
    pub open spec fn outcome(self) -> Option<Seq<char>> {
        match self.result {
            Some(r) => Some(r@),
            None => None,
        }
    }

    /// True when the build carries exactly the label `label` (case matters).
    pub open spec fn has_outcome(self, label: Seq<char>) -> bool {
        self.outcome() == Some(label)
    }

    /// Tests whether the build carries exactly the label `label`.
    pub fn is_labeled(&self, label: &String) -> (b: bool)
        ensures
            b == self.has_outcome(label@),
    {
        match &self.result {
            Some(r) => *r == *label,
            None => false,
        }
    }
}

/// The builds of one job, oldest first, as the server returned them.
#[derive(Clone, Debug, PartialEq, Eq)]
pub struct JobHistory {
    pub builds: Vec<BuildRecord>,
}

impl View for JobHistory {
    type V = Seq<BuildRecord>;

    open spec fn view(&self) -> Seq<BuildRecord> {
        self.builds@
    }
}

} // verus!
