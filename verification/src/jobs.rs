//! Jobs in the document database: the `jobs` collection of `bevy-studio`.
use vstd::prelude::*;
use crate::store::{compares_as_text, select_by, selection_view, Selection};

verus! {

/// A job document.
pub struct Job {
    pub id: String,
}

/// The collection's name.
pub open spec fn jobs_collection() -> Seq<char> {
    seq!['j', 'o', 'b', 's']
}

/// The document database interactions on jobs (in the database `store::studio_database`).
pub struct JobManager {}

impl JobManager {
    /// The job document whose id is `id`.
    pub fn get(&self, id: &str) -> (s: Selection)
        ensures
            selection_view(s) == (jobs_collection(), seq![(seq!['i', 'd'], id@)]),
            compares_as_text(s),
    {
        proof {
            reveal_strlit("jobs");
            reveal_strlit("id");
            assert("jobs"@ =~= jobs_collection());
            assert("id"@ =~= seq!['i', 'd']);
        }
        select_by("jobs", "id", id)
    }
}

} // verus!
