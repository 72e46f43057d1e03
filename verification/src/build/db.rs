//! The `job` table and how a worker claims the queued jobs.
//!
//! Claiming is two database round trips: one update marks every queued job as running
//! under a fresh claim id, then the claimed jobs are read back. `JobManager::dequeue_job`
//! starts a claim and `JobManager::dequeue_step` decides what follows each answer.
use vstd::prelude::*;
use crate::ids::{is_uuid_text, new_id};
use crate::store::{apply_update, compares_as_text, field_eq_number, select_by, selection_view, FieldEq, Record, Selection, Update};
use crate::text::decimal;

verus! {

/// A job waits in the queue.
pub const QUEUED: usize = 1;

/// A worker builds the job.
pub const RUNNING: usize = 2;

/// The job is built.
pub const FINISHED: usize = 3;

/// A build job as stored in the `job` table.
pub struct Job {
    pub id: String,
    pub status: usize,
    pub project_id: String,
    pub log_name: String,
    pub claim_id: String,
}

/// The database interactions on jobs.
pub struct JobManager {}

/// The table's name.
pub open spec fn job_table() -> Seq<char> {
    seq!['j', 'o', 'b']
}

pub open spec fn id_col() -> Seq<char> { seq!['i', 'd'] }
pub open spec fn status_col() -> Seq<char> { seq!['s', 't', 'a', 't', 'u', 's'] }
pub open spec fn project_id_col() -> Seq<char> { seq!['p', 'r', 'o', 'j', 'e', 'c', 't', '_', 'i', 'd'] }
pub open spec fn log_name_col() -> Seq<char> { seq!['l', 'o', 'g', '_', 'n', 'a', 'm', 'e'] }
pub open spec fn claim_id_col() -> Seq<char> { seq!['c', 'l', 'a', 'i', 'm', '_', 'i', 'd'] }

impl Job {
    /// The job as a database record, its status written in decimal.
    pub open spec fn record(self) -> Record {
        map![
            id_col() => self.id@,
            status_col() => decimal(self.status as nat),
            project_id_col() => self.project_id@,
            log_name_col() => self.log_name@,
            claim_id_col() => self.claim_id@,
        ]
    }
}

/// Where a claim stands.
pub enum DequeueStep {
    /// The queued jobs are being marked as claimed under this claim id.
    Claiming { claim_id: String },
    /// The claimed jobs are being read back.
    Fetching,
    /// The claim is over.
    Done,
}

/// What the database answered.
pub enum DequeueEvent {
    /// The claiming update went through and changed this many rows, or failed.
    Claimed { affected: Option<u64> },
    /// The jobs read back.
    Fetched { jobs: Vec<Job> },
}

/// What is to be done next.
pub enum DequeueAction {
    /// Write `values` into every record that `update` selects (no column is skipped).
    Claim { update: Update, values: Job },
    /// Read the records that `selection` selects.
    Fetch { selection: Selection },
    /// The claim ends with these jobs, or with none.
    Finish { jobs: Option<Vec<Job>> },
}

/// The values a claim writes: status running and the claim id, the other fields empty.
pub open spec fn claim_values(claim_id: Seq<char>, values: Job) -> bool {
    &&& values.id@ == Seq::<char>::empty()
    &&& values.status == RUNNING
    &&& values.project_id@ == Seq::<char>::empty()
    &&& values.log_name@ == Seq::<char>::empty()
    &&& values.claim_id@ == claim_id
}

/// The selection of a claim: the jobs whose status is queued.
pub open spec fn queued_jobs() -> (Seq<char>, Seq<(Seq<char>, Seq<char>)>) {
    (job_table(), seq![(status_col(), decimal(QUEUED as nat))])
}

/// The selection the claimed jobs are read back with: the jobs whose claim id is `1`.
pub open spec fn read_back_jobs() -> (Seq<char>, Seq<(Seq<char>, Seq<char>)>) {
    (job_table(), seq![(claim_id_col(), seq!['1'])])
}

/// Whether an action is the claiming update for `claim_id` (the status is matched as a number).
pub open spec fn is_claim(claim_id: Seq<char>, action: DequeueAction) -> bool {
    action matches DequeueAction::Claim { update, values } && selection_view(update.selection) == queued_jobs()
        && update.selection.conditions@[0].numeric && update.skipped@.len() == 0 && claim_values(claim_id, values)
}

impl JobManager {
    /// Starts a claim under the given claim id: mark every queued job as running under it.
    pub fn dequeue_job_with(&self, claim_id: String) -> (start: (DequeueStep, DequeueAction))
        ensures
            start.0 matches DequeueStep::Claiming { claim_id: c } && c@ == claim_id@,
            is_claim(claim_id@, start.1),
    {
        proof {
            reveal_strlit("job");
            reveal_strlit("status");
            assert("job"@ =~= job_table());
            assert("status"@ =~= status_col());
        }
        let mut conditions: Vec<FieldEq> = Vec::new();
        conditions.push(field_eq_number("status", QUEUED as u64));
        let selection = Selection { table: String::from_str("job"), conditions };
        assert(selection_view(selection).1 =~= seq![(status_col(), decimal(QUEUED as nat))]);
        let update = Update { selection, skipped: Vec::new() };
        let values = Job {
            id: String::new(),
            status: RUNNING,
            project_id: String::new(),
            log_name: String::new(),
            claim_id: claim_id.clone(),
        };
        (DequeueStep::Claiming { claim_id }, DequeueAction::Claim { update, values })
    }

    /// Starts a claim under a fresh random claim id.
    pub fn dequeue_job(&self) -> (start: (DequeueStep, DequeueAction))
        ensures
            start.0 matches DequeueStep::Claiming { claim_id } && is_uuid_text(claim_id@) && is_claim(
                claim_id@,
                start.1,
            ),
    {
        let claim_id = new_id();
        self.dequeue_job_with(claim_id)
    }

    /// The next step of a claim: after a failed update, or one that changed no row, the
    /// claim ends with no jobs; otherwise the jobs with claim id `1` are read back, and
    /// the claim ends with them.
    pub fn dequeue_step(&self, step: DequeueStep, event: DequeueEvent) -> (next: (DequeueStep, DequeueAction))
        requires
            step is Claiming ==> event is Claimed,
            step is Fetching ==> event is Fetched,
            !(step is Done),
        ensures
            match (step, event) {
                (DequeueStep::Claiming { .. }, DequeueEvent::Claimed { affected }) => match affected {
                    Some(n) if n > 0 => next.0 is Fetching && (next.1 matches DequeueAction::Fetch { selection }
                        && selection_view(selection) == read_back_jobs() && compares_as_text(selection)),
                    _ => next.0 is Done && (next.1 matches DequeueAction::Finish { jobs } && jobs is None),
                },
                (DequeueStep::Fetching, DequeueEvent::Fetched { jobs }) => next.0 is Done && (next.1 matches
                    DequeueAction::Finish { jobs: finished } && finished == Some(jobs)),
                _ => false,
            },
    {
        match event {
            DequeueEvent::Claimed { affected } => match affected {
                Some(n) => {
                    if n > 0 {
                        proof {
                            reveal_strlit("job");
                            reveal_strlit("claim_id");
                            reveal_strlit("1");
                            assert("job"@ =~= job_table());
                            assert("claim_id"@ =~= claim_id_col());
                            assert("1"@ =~= seq!['1']);
                        }
                        let selection = select_by("job", "claim_id", "1");
                        (DequeueStep::Fetching, DequeueAction::Fetch { selection })
                    } else {
                        (DequeueStep::Done, DequeueAction::Finish { jobs: None })
                    }
                },
                None => (DequeueStep::Done, DequeueAction::Finish { jobs: None }),
            },
            DequeueEvent::Fetched { jobs } => (DequeueStep::Done, DequeueAction::Finish { jobs: Some(jobs) }),
        }
    }
}

/// What a claim does to every job record: a queued job becomes running under the claim id
/// (and, as the claiming update writes every non-null field of its template, loses its
/// id, project and log name); a job in any other state is left as it was.
pub proof fn lemma_claim_effect(record: Record, claim_id: Seq<char>, values: Job)
    requires
        claim_values(claim_id, values),
    ensures
        ({
            let after = apply_update(record, queued_jobs().1, Seq::empty(), values.record());
            if record.contains_key(status_col()) && record[status_col()] == decimal(QUEUED as nat) {
                &&& after[status_col()] == decimal(RUNNING as nat)
                &&& after[claim_id_col()] == claim_id
                &&& after[id_col()] == Seq::<char>::empty()
            } else {
                after == record
            }
        }),
{
    let conds = queued_jobs().1;
    let after = apply_update(record, conds, Seq::empty(), values.record());
    if record.contains_key(status_col()) && record[status_col()] == decimal(QUEUED as nat) {
        assert(conds[0].0 == status_col());
        assert(crate::store::selects(conds, record));
        assert(values.record().contains_key(status_col()));
        assert(values.record().contains_key(claim_id_col()));
        assert(values.record().contains_key(id_col()));
    } else {
        assert(!crate::store::selects(conds, record)) by {
            assert(conds[0].0 == status_col());
        }
    }
}

} // verus!
