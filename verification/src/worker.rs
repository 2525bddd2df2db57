//! The background job worker. It polls forever: each round opens a
//! transaction, lifts row-level security for it, claims the oldest pending
//! job (skipping jobs other workers hold locked), processes it and records
//! the outcome, then commits. When there is nothing to do, or a step fails,
//! it rolls back and waits a second before the next round.
//!
//! A failed job has its attempts counted and its error recorded; the store
//! marks it failed once its attempts reach its maximum, else pending again.

use vstd::prelude::*;
use vstd::string::*;
use crate::ids::{uuid_string, uuid_text};

verus! {

/// How long the worker waits after an idle or failed round, in seconds.
pub const IDLE_WAIT_SECS: u64 = 1;

/// The statement that lifts row-level security for the worker's transaction.
pub open spec fn bypass_sql() -> Seq<char> {
    "SET LOCAL app.bypass_rls = 'on'"@
}

/// The statement that claims the oldest pending job, skipping the jobs
/// other workers hold locked, and locks it for this transaction.
pub open spec fn claim_job_sql() -> Seq<char> {
    "
            SELECT id, job_type, payload
            FROM jobs
            WHERE status = 'pending'
            ORDER BY created_at
            LIMIT 1
            FOR UPDATE SKIP LOCKED
            "@
}

/// The statement that marks the job `$1` completed.
pub open spec fn complete_job_sql() -> Seq<char> {
    "UPDATE jobs SET status = 'completed' WHERE id = $1"@
}

/// The statement that counts a failed attempt of the job `$1`, records its
/// error `$2`, and marks it failed once its attempts reach its maximum,
/// pending again otherwise.
pub open spec fn record_failure_sql() -> Seq<char> {
    "
                            UPDATE jobs
                            SET attempts = attempts + 1,
                                error_message = $2,
                                status = CASE
                                    WHEN attempts + 1 >= max_attempts THEN 'failed'
                                    ELSE 'pending'
                                END
                            WHERE id = $1
                            "@
}

/// Where the worker stands.
#[derive(Debug, Clone, Copy, PartialEq, Eq)]
pub enum WorkerStage {
    /// Waiting for a transaction to open.
    Beginning,
    /// Waiting for row-level security to be lifted.
    SettingBypass,
    /// Waiting for the next pending job to be claimed.
    Fetching,
    /// Waiting for the claimed job to be processed.
    Processing(u128),
    /// Waiting for the job's outcome to be recorded.
    Recording(u128),
    /// Waiting for the commit of the job's transaction.
    Committing(u128),
    /// Waiting for an error report, after which the transaction is rolled back.
    ReportingBeforeRollback,
    /// Waiting for the rollback.
    RollingBack,
    /// Waiting for the report of a failed commit.
    ReportingCommitFailure,
    /// Waiting out the pause before the next round.
    Sleeping,
}

/// What the worker does next.
#[derive(Debug)]
pub enum WorkerAction {
    /// Open a transaction.
    Begin,
    /// Execute `sql` in the transaction.
    SetBypass { sql: String },
    /// Run `sql`, which claims the oldest pending job, skipping locked ones.
    FetchJob { sql: String },
    /// Print `announcement`, then process the job.
    Process { job_id: u128, announcement: String },
    /// Mark the job completed.
    MarkCompleted { job_id: u128, sql: String },
    /// Count a failed attempt of the job and record its error.
    RecordFailure { job_id: u128, error: String, sql: String },
    /// Commit the transaction.
    Commit,
    /// Roll the transaction back.
    Rollback,
    /// Print `line` to the error output.
    Report { line: String },
    /// Wait this many seconds.
    Sleep { secs: u64 },
}

/// What came of the worker's last action.
#[derive(Debug)]
pub enum WorkerEvent {
    /// The transaction opened, or could not.
    Begun(Result<(), String>),
    /// Row-level security was lifted, or the statement's error.
    BypassSet(Result<(), String>),
    /// The claimed job's id, none if no job is pending, or the query's error.
    Fetched(Result<Option<u128>, String>),
    /// The job's processing succeeded, or its error.
    Processed(Result<(), String>),
    /// The outcome statement ran (its result is not looked at).
    Recorded,
    /// The commit succeeded, or its error.
    Committed(Result<(), String>),
    /// The rollback ran (its result is not looked at).
    RolledBack,
    /// The report was printed.
    Reported,
    /// The pause is over.
    Slept,
}

/// The mathematical form of a worker action.
pub enum WorkerActionSpec {
    Begin,
    SetBypass { sql: Seq<char> },
    FetchJob { sql: Seq<char> },
    Process { job_id: u128, announcement: Seq<char> },
    MarkCompleted { job_id: u128, sql: Seq<char> },
    RecordFailure { job_id: u128, error: Seq<char>, sql: Seq<char> },
    Commit,
    Rollback,
    Report { line: Seq<char> },
    Sleep { secs: u64 },
}

impl View for WorkerAction {
    type V = WorkerActionSpec;

    open spec fn view(&self) -> WorkerActionSpec {
        match self {
            WorkerAction::Begin => WorkerActionSpec::Begin,
            WorkerAction::SetBypass { sql } => WorkerActionSpec::SetBypass { sql: sql@ },
            WorkerAction::FetchJob { sql } => WorkerActionSpec::FetchJob { sql: sql@ },
            WorkerAction::Process { job_id, announcement } => WorkerActionSpec::Process {
                job_id: *job_id,
                announcement: announcement@,
            },
            WorkerAction::MarkCompleted { job_id, sql } => WorkerActionSpec::MarkCompleted {
                job_id: *job_id,
                sql: sql@,
            },
            WorkerAction::RecordFailure { job_id, error, sql } => WorkerActionSpec::RecordFailure {
                job_id: *job_id,
                error: error@,
                sql: sql@,
            },
            WorkerAction::Commit => WorkerActionSpec::Commit,
            WorkerAction::Rollback => WorkerActionSpec::Rollback,
            WorkerAction::Report { line } => WorkerActionSpec::Report { line: line@ },
            WorkerAction::Sleep { secs } => WorkerActionSpec::Sleep { secs: *secs },
        }
    }
}

/// The event the worker waits for in each stage.
pub open spec fn worker_expects(stage: WorkerStage, event: WorkerEvent) -> bool {
    match stage {
        WorkerStage::Beginning => event is Begun,
        WorkerStage::SettingBypass => event is BypassSet,
        WorkerStage::Fetching => event is Fetched,
        WorkerStage::Processing(_) => event is Processed,
        WorkerStage::Recording(_) => event is Recorded,
        WorkerStage::Committing(_) => event is Committed,
        WorkerStage::ReportingBeforeRollback => event is Reported,
        WorkerStage::RollingBack => event is RolledBack,
        WorkerStage::ReportingCommitFailure => event is Reported,
        WorkerStage::Sleeping => event is Slept,
    }
}

/// The line printed before a job is processed.
pub open spec fn announcement_line(job_id: u128) -> Seq<char> {
    "Processing job: "@ + uuid_text(job_id)
}

/// The report of a failed bypass statement.
pub open spec fn bypass_failure_line(error: Seq<char>) -> Seq<char> {
    "Worker: failed to set bypass_rls: "@ + error
}

/// The report of a failed job query.
pub open spec fn query_failure_line(error: Seq<char>) -> Seq<char> {
    "Worker: query error: "@ + error
}

/// The report of a failed commit.
pub open spec fn commit_failure_line(job_id: u128, error: Seq<char>) -> Seq<char> {
    "Worker: failed to commit job "@ + uuid_text(job_id) + ": "@ + error
}

/// One transition of the worker: the next stage and the next action.
pub open spec fn worker_next(stage: WorkerStage, event: WorkerEvent) -> (WorkerStage, WorkerActionSpec) {
    match (stage, event) {
        (WorkerStage::Beginning, WorkerEvent::Begun(Ok(_))) => (
            WorkerStage::SettingBypass,
            WorkerActionSpec::SetBypass { sql: bypass_sql() },
        ),
        (WorkerStage::SettingBypass, WorkerEvent::BypassSet(Ok(_))) => (
            WorkerStage::Fetching,
            WorkerActionSpec::FetchJob { sql: claim_job_sql() },
        ),
        (WorkerStage::SettingBypass, WorkerEvent::BypassSet(Err(e))) => (
            WorkerStage::ReportingBeforeRollback,
            WorkerActionSpec::Report { line: bypass_failure_line(e@) },
        ),
        (WorkerStage::Fetching, WorkerEvent::Fetched(Ok(Some(id)))) => (
            WorkerStage::Processing(id),
            WorkerActionSpec::Process { job_id: id, announcement: announcement_line(id) },
        ),
        (WorkerStage::Fetching, WorkerEvent::Fetched(Ok(None))) => (WorkerStage::RollingBack, WorkerActionSpec::Rollback),
        (WorkerStage::Fetching, WorkerEvent::Fetched(Err(e))) => (
            WorkerStage::ReportingBeforeRollback,
            WorkerActionSpec::Report { line: query_failure_line(e@) },
        ),
        (WorkerStage::Processing(id), WorkerEvent::Processed(Ok(_))) => (
            WorkerStage::Recording(id),
            WorkerActionSpec::MarkCompleted { job_id: id, sql: complete_job_sql() },
        ),
        (WorkerStage::Processing(id), WorkerEvent::Processed(Err(e))) => (
            WorkerStage::Recording(id),
            WorkerActionSpec::RecordFailure { job_id: id, error: e@, sql: record_failure_sql() },
        ),
        (WorkerStage::Recording(id), _) => (WorkerStage::Committing(id), WorkerActionSpec::Commit),
        (WorkerStage::Committing(_), WorkerEvent::Committed(Ok(_))) => (WorkerStage::Beginning, WorkerActionSpec::Begin),
        (WorkerStage::Committing(id), WorkerEvent::Committed(Err(e))) => (
            WorkerStage::ReportingCommitFailure,
            WorkerActionSpec::Report { line: commit_failure_line(id, e@) },
        ),
        (WorkerStage::ReportingBeforeRollback, _) => (WorkerStage::RollingBack, WorkerActionSpec::Rollback),
        (WorkerStage::ReportingCommitFailure, _) => (WorkerStage::Beginning, WorkerActionSpec::Begin),
        (WorkerStage::RollingBack, _) => (WorkerStage::Sleeping, WorkerActionSpec::Sleep { secs: 1 }),
        // a transaction that could not open, and the end of a pause
        (WorkerStage::Beginning, _) => (WorkerStage::Sleeping, WorkerActionSpec::Sleep { secs: 1 }),
        (_, _) => (WorkerStage::Beginning, WorkerActionSpec::Begin),
    }
}

/// The job worker's state.
pub struct JobWorker {
    stage: WorkerStage,
}

impl JobWorker {
    pub closed spec fn stage(&self) -> WorkerStage {
        self.stage
    }

    /// Starts the worker: its first action opens a transaction.
    pub fn start() -> (r: (JobWorker, WorkerAction))
        ensures
            r.0.stage() == WorkerStage::Beginning,
            r.1@ == WorkerActionSpec::Begin,
    {
        (JobWorker { stage: WorkerStage::Beginning }, WorkerAction::Begin)
    }

    /// Takes what came of the last action and says what to do next.
    pub fn step(&mut self, event: WorkerEvent) -> (action: WorkerAction)
        requires
            worker_expects(old(self).stage(), event),
        ensures
            (final(self).stage(), action@) == worker_next(old(self).stage(), event),
    {
        match (self.stage, event) {
            (WorkerStage::Beginning, WorkerEvent::Begun(Ok(_))) => {
                self.stage = WorkerStage::SettingBypass;
                WorkerAction::SetBypass { sql: String::from_str("SET LOCAL app.bypass_rls = 'on'") }
            },
            (WorkerStage::SettingBypass, WorkerEvent::BypassSet(Ok(_))) => {
                self.stage = WorkerStage::Fetching;
                WorkerAction::FetchJob { sql: String::from_str("
            SELECT id, job_type, payload
            FROM jobs
            WHERE status = 'pending'
            ORDER BY created_at
            LIMIT 1
            FOR UPDATE SKIP LOCKED
            ") }
            },
            (WorkerStage::SettingBypass, WorkerEvent::BypassSet(Err(e))) => {
                self.stage = WorkerStage::ReportingBeforeRollback;
                let line = String::from_str("Worker: failed to set bypass_rls: ").concat(e.as_str());
                WorkerAction::Report { line }
            },
            (WorkerStage::Fetching, WorkerEvent::Fetched(Ok(Some(id)))) => {
                self.stage = WorkerStage::Processing(id);
                let text = uuid_string(id);
                let announcement = String::from_str("Processing job: ").concat(text.as_str());
                WorkerAction::Process { job_id: id, announcement }
            },
            (WorkerStage::Fetching, WorkerEvent::Fetched(Ok(None))) => {
                self.stage = WorkerStage::RollingBack;
                WorkerAction::Rollback
            },
            (WorkerStage::Fetching, WorkerEvent::Fetched(Err(e))) => {
                self.stage = WorkerStage::ReportingBeforeRollback;
                let line = String::from_str("Worker: query error: ").concat(e.as_str());
                WorkerAction::Report { line }
            },
            (WorkerStage::Processing(id), WorkerEvent::Processed(Ok(_))) => {
                self.stage = WorkerStage::Recording(id);
                WorkerAction::MarkCompleted { job_id: id, sql: String::from_str("UPDATE jobs SET status = 'completed' WHERE id = $1") }
            },
            (WorkerStage::Processing(id), WorkerEvent::Processed(Err(e))) => {
                self.stage = WorkerStage::Recording(id);
                WorkerAction::RecordFailure { job_id: id, error: e, sql: String::from_str("
                            UPDATE jobs
                            SET attempts = attempts + 1,
                                error_message = $2,
                                status = CASE
                                    WHEN attempts + 1 >= max_attempts THEN 'failed'
                                    ELSE 'pending'
                                END
                            WHERE id = $1
                            ") }
            },
            (WorkerStage::Recording(id), _) => {
                self.stage = WorkerStage::Committing(id);
                WorkerAction::Commit
            },
            (WorkerStage::Committing(_), WorkerEvent::Committed(Ok(_))) => {
                self.stage = WorkerStage::Beginning;
                WorkerAction::Begin
            },
            (WorkerStage::Committing(id), WorkerEvent::Committed(Err(e))) => {
                self.stage = WorkerStage::ReportingCommitFailure;
                let text = uuid_string(id);
                let line = String::from_str("Worker: failed to commit job ").concat(text.as_str()).concat(
                    ": ",
                ).concat(e.as_str());
                WorkerAction::Report { line }
            },
            (WorkerStage::ReportingBeforeRollback, _) => {
                self.stage = WorkerStage::RollingBack;
                WorkerAction::Rollback
            },
            (WorkerStage::ReportingCommitFailure, _) => {
                self.stage = WorkerStage::Beginning;
                WorkerAction::Begin
            },
            (WorkerStage::RollingBack, _) => {
                self.stage = WorkerStage::Sleeping;
                WorkerAction::Sleep { secs: IDLE_WAIT_SECS }
            },
            (WorkerStage::Beginning, _) => {
                self.stage = WorkerStage::Sleeping;
                WorkerAction::Sleep { secs: IDLE_WAIT_SECS }
            },
            (_, _) => {
                self.stage = WorkerStage::Beginning;
                WorkerAction::Begin
            },
        }
    }
}

// ---------------------------------------------------------------------------
// Laws of the worker.

/// Whether a transaction is open in a stage.
pub open spec fn in_transaction(stage: WorkerStage) -> bool {
    match stage {
        WorkerStage::Beginning | WorkerStage::ReportingCommitFailure | WorkerStage::Sleeping => false,
        _ => true,
    }
}

/// The worker holds at most one transaction at a time: one opens only when
/// none is open and the begin succeeded, and it closes only by the end of a
/// commit or a rollback. A new transaction is begun only once the last one
/// has closed.
pub proof fn lemma_one_transaction_at_a_time(stage: WorkerStage, event: WorkerEvent)
    requires
        worker_expects(stage, event),
    ensures
        ({
            let (next, action) = worker_next(stage, event);
            &&& (!in_transaction(stage) && in_transaction(next)) ==> (stage == WorkerStage::Beginning
                && event matches WorkerEvent::Begun(Ok(_)))
            &&& (in_transaction(stage) && !in_transaction(next)) ==> (event is Committed || event is RolledBack)
            &&& action is Begin ==> !in_transaction(next) && (!in_transaction(stage) || event is Committed)
        }),
{
}

/// The job claimed is the job processed, its outcome is recorded as the
/// processing turned out, and the transaction is committed right after.
pub proof fn lemma_claimed_job_is_settled(stage: WorkerStage, event: WorkerEvent)
    requires
        worker_expects(stage, event),
    ensures
        ({
            let (next, action) = worker_next(stage, event);
            &&& (event matches WorkerEvent::Fetched(Ok(Some(id))) ==> action == (WorkerActionSpec::Process {
                job_id: id,
                announcement: announcement_line(id),
            }))
            &&& (action is FetchJob ==> action == (WorkerActionSpec::FetchJob { sql: claim_job_sql() }))
            &&& (action matches WorkerActionSpec::MarkCompleted { job_id, sql } ==> (stage == WorkerStage::Processing(
                job_id,
            ) && sql == complete_job_sql() && event matches WorkerEvent::Processed(Ok(_))))
            &&& (action matches WorkerActionSpec::RecordFailure { job_id, error, sql } ==> (stage
                == WorkerStage::Processing(job_id) && sql == record_failure_sql() && (event matches WorkerEvent::Processed(Err(e))
                && error == e@)))
            &&& action is Commit <==> stage is Recording
            &&& (stage matches WorkerStage::Recording(id) ==> next == WorkerStage::Committing(id))
        }),
{
}

/// The worker pauses one second after a round that found nothing to do or
/// failed before claiming a job, and never after a round that settled a job.
pub proof fn lemma_pause_only_when_idle_or_failing(stage: WorkerStage, event: WorkerEvent)
    requires
        worker_expects(stage, event),
    ensures
        ({
            let (next, action) = worker_next(stage, event);
            &&& action is Sleep ==> action == (WorkerActionSpec::Sleep { secs: 1 })
            &&& action is Sleep ==> ((stage == WorkerStage::Beginning && event matches WorkerEvent::Begun(Err(_)))
                || stage == WorkerStage::RollingBack)
            &&& next == WorkerStage::RollingBack ==> ((stage == WorkerStage::Fetching && event matches WorkerEvent::Fetched(Ok(None)))
                || stage == WorkerStage::ReportingBeforeRollback)
            &&& stage is Committing ==> !(action is Sleep)
        }),
{
}


/// The statements the worker runs on the job table, word for word:
/// - the claim selects the single oldest pending job and locks it,
///   skipping jobs that other workers hold locked;
/// - completion sets the job's status to `completed`;
/// - a failure adds one to the job's attempts, records the error, and sets
///   the status to `failed` exactly when the new attempt count reaches the
///   job's maximum, and back to `pending` (so the job is retried) otherwise.
pub proof fn lemma_job_statements()
    ensures
        claim_job_sql() == "
            SELECT id, job_type, payload
            FROM jobs
            WHERE status = 'pending'
            ORDER BY created_at
            LIMIT 1
            FOR UPDATE SKIP LOCKED
            "@,
        complete_job_sql() == "UPDATE jobs SET status = 'completed' WHERE id = $1"@,
        bypass_sql() == "SET LOCAL app.bypass_rls = 'on'"@,
        record_failure_sql() == "
                            UPDATE jobs
                            SET attempts = attempts + 1,
                                error_message = $2,
                                status = CASE
                                    WHEN attempts + 1 >= max_attempts THEN 'failed'
                                    ELSE 'pending'
                                END
                            WHERE id = $1
                            "@,
{
}

} // verus!
