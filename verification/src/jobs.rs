//! Print jobs and the job ledger: the bounded, ordered, in-memory record of
//! recent submissions, newest first, capped at `JOB_HISTORY_LIMIT` entries.

use vstd::prelude::*;

verus! {

/// How many jobs the ledger retains; once the cap is exceeded the oldest
/// entries are dropped.
pub const JOB_HISTORY_LIMIT: usize = 100;

/// A job starts out `Printing` and ends in exactly one of the two terminal
/// states once the gateway call returns.
#[derive(Clone, Copy, Debug, PartialEq, Eq, Structural)]
pub enum JobStatus {
    Printing,
    Completed,
    Failed,
}

impl JobStatus {
    /// The lowercase name a status is reported under.
    pub open spec fn label_spec(&self) -> Seq<char> {
        match self {
            JobStatus::Printing => "printing"@,
            JobStatus::Completed => "completed"@,
            JobStatus::Failed => "failed"@,
        }
    }

    pub fn label(&self) -> (r: &'static str)
        ensures
            r@ == self.label_spec(),
    {
        match self {
            JobStatus::Printing => "printing",
            JobStatus::Completed => "completed",
            JobStatus::Failed => "failed",
        }
    }
}

/// One submitted print request, as the ledger and the observers see it.
#[derive(Clone, Debug)]
pub struct PrintJob {
    pub id: String,
    pub printer: String,
    pub timestamp: u64,
    pub status: JobStatus,
    pub zpl_preview: Option<String>,
    pub error: Option<String>,
}

impl PrintJob {
    /// A job in a terminal state carries an error message exactly when it
    /// failed.
    pub open spec fn wf(&self) -> bool {
        self.status is Failed <==> self.error is Some
    }

    /// No transition leaves `Completed` or `Failed`.
    pub open spec fn is_terminal(&self) -> bool {
        self.status is Completed || self.status is Failed
    }

    /// An exact copy of the job record.
    pub fn duplicate(&self) -> (j: PrintJob)
        ensures
            j == *self,
    {
        PrintJob {
            id: self.id.clone(),
            printer: self.printer.clone(),
            timestamp: self.timestamp,
            status: self.status,
            zpl_preview: match &self.zpl_preview {
                Some(p) => Some(p.clone()),
                None => None,
            },
            error: match &self.error {
                Some(e) => Some(e.clone()),
                None => None,
            },
        }
    }
}

/// What one `record` call leaves in the ledger: the new job at the head,
/// then as much of the old contents as the cap admits.
pub open spec fn recorded(history: Seq<PrintJob>, job: PrintJob) -> Seq<PrintJob> {
    (seq![job] + history).take(vstd::math::min(JOB_HISTORY_LIMIT as int, history.len() + 1int))
}

/// Bounded, ordered history of recent print jobs, newest first. Writers own
/// it exclusively; readers get a snapshot copy, never a live reference.
pub struct JobLedger {
    jobs: Vec<PrintJob>,
}

impl View for JobLedger {
    type V = Seq<PrintJob>;

    closed spec fn view(&self) -> Seq<PrintJob> {
        self.jobs@
    }
}

impl JobLedger {
    /// The ledger never holds more than `JOB_HISTORY_LIMIT` entries.
    pub open spec fn inv(&self) -> bool {
        self@.len() <= JOB_HISTORY_LIMIT
    }

    pub fn new() -> (l: JobLedger)
        ensures
            l@ == Seq::<PrintJob>::empty(),
            l.inv(),
    {
        JobLedger { jobs: Vec::new() }
    }

    pub fn len(&self) -> (n: usize)
        ensures
            n == self@.len(),
    {
        self.jobs.len()
    }

    /// Insert at the head and truncate to capacity. The cap is re-established
    /// whatever the ledger held before.
    pub fn record(&mut self, job: PrintJob)
        ensures
            final(self)@ == recorded(old(self)@, job),
            final(self).inv(),
    {
        self.jobs.insert(0, job);
        self.jobs.truncate(JOB_HISTORY_LIMIT);
        proof {
            assert(self@ =~= recorded(old(self)@, job));
        }
    }

    /// An immutable copy of the current sequence, newest first, for status
    /// queries; the live ledger is never handed out.
    pub fn snapshot(&self) -> (r: Vec<PrintJob>)
        ensures
            r@ == self@,
            self.inv() ==> r@.len() <= JOB_HISTORY_LIMIT,
    {
        let mut r: Vec<PrintJob> = Vec::new();
        let n = self.jobs.len();
        let mut i: usize = 0;
        while i < n
            invariant
                n == self.jobs@.len(),
                i <= n,
                r@ =~= self.jobs@.take(i as int),
            decreases n - i,
        {
            r.push(self.jobs[i].duplicate());
            i += 1;
        }
        proof {
            assert(r@ =~= self@);
        }
        r
    }
}

/// The ledger contents after a whole history of `record` calls, oldest call
/// first, starting from an empty ledger.
pub open spec fn replay(history: Seq<PrintJob>) -> Seq<PrintJob>
    decreases history.len(),
{
    if history.len() == 0 {
        Seq::empty()
    } else {
        recorded(replay(history.drop_last()), history.last())
    }
}

/// A batch of at most `JOB_HISTORY_LIMIT` jobs, recorded in any completion
/// order, is kept in full: the ledger then holds exactly those jobs, newest
/// first.
pub proof fn replay_keeps_small_batches(history: Seq<PrintJob>)
    requires
        history.len() <= JOB_HISTORY_LIMIT,
    ensures
        replay(history).len() == history.len(),
        forall|i: int|
            0 <= i < history.len() ==> replay(history)[i] == history[history.len() - 1 - i],
    decreases history.len(),
{
    if history.len() > 0 {
        replay_keeps_small_batches(history.drop_last());
    }
}

/// A batch of distinct jobs that all completed — the outcome of concurrent
/// submissions against a gateway that always succeeds — ends as one ledger
/// entry per job, each `Completed`, with all the distinct ids retained.
pub proof fn batch_of_completed_jobs_all_recorded(history: Seq<PrintJob>)
    requires
        history.len() <= JOB_HISTORY_LIMIT,
        forall|i: int| 0 <= i < history.len() ==> (#[trigger] history[i]).status is Completed,
        forall|i: int, j: int|
            0 <= i < j < history.len() ==> history[i].id@ != history[j].id@,
    ensures
        replay(history).len() == history.len(),
        forall|i: int|
            0 <= i < history.len() ==> (#[trigger] replay(history)[i]).status is Completed,
        forall|i: int, j: int|
            0 <= i < j < history.len() ==> replay(history)[i].id@ != replay(history)[j].id@,
{
    replay_keeps_small_batches(history);
}

} // verus!
