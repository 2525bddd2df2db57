use saas_backend::worker::{JobWorker, WorkerAction, WorkerEvent};

const JOB: u128 = 0xdeadbeef_0000_4000_8000_0000000000ff;

#[test]
fn job_completed_and_committed() {
    let (mut w, a) = JobWorker::start();
    assert!(matches!(a, WorkerAction::Begin));
    match w.step(WorkerEvent::Begun(Ok(()))) {
        WorkerAction::SetBypass { sql } => assert_eq!(sql, "SET LOCAL app.bypass_rls = 'on'"),
        other => panic!("unexpected {:?}", other),
    }
    match w.step(WorkerEvent::BypassSet(Ok(()))) {
        WorkerAction::FetchJob { sql } => {
            assert!(sql.contains("WHERE status = 'pending'"));
            assert!(sql.contains("ORDER BY created_at"));
            assert!(sql.contains("LIMIT 1"));
            assert!(sql.contains("FOR UPDATE SKIP LOCKED"));
        }
        other => panic!("unexpected {:?}", other),
    }
    match w.step(WorkerEvent::Fetched(Ok(Some(JOB)))) {
        WorkerAction::Process { job_id, announcement } => {
            assert_eq!(job_id, JOB);
            assert_eq!(announcement, "Processing job: deadbeef-0000-4000-8000-0000000000ff");
        }
        other => panic!("unexpected {:?}", other),
    }
    match w.step(WorkerEvent::Processed(Ok(()))) {
        WorkerAction::MarkCompleted { job_id, sql } => {
            assert_eq!(job_id, JOB);
            assert_eq!(sql, "UPDATE jobs SET status = 'completed' WHERE id = $1");
        }
        other => panic!("unexpected {:?}", other),
    }
    assert!(matches!(w.step(WorkerEvent::Recorded), WorkerAction::Commit));
    assert!(matches!(w.step(WorkerEvent::Committed(Ok(()))), WorkerAction::Begin));
}

#[test]
fn job_failure_is_recorded() {
    let (mut w, _) = JobWorker::start();
    w.step(WorkerEvent::Begun(Ok(())));
    w.step(WorkerEvent::BypassSet(Ok(())));
    w.step(WorkerEvent::Fetched(Ok(Some(JOB))));
    match w.step(WorkerEvent::Processed(Err("boom".to_string()))) {
        WorkerAction::RecordFailure { job_id, error, sql } => {
            assert_eq!(job_id, JOB);
            assert_eq!(error, "boom");
            assert!(sql.contains("SET attempts = attempts + 1"));
            assert!(sql.contains("error_message = $2"));
            assert!(sql.contains("WHEN attempts + 1 >= max_attempts THEN 'failed'"));
            assert!(sql.contains("ELSE 'pending'"));
        }
        other => panic!("unexpected {:?}", other),
    }
    assert!(matches!(w.step(WorkerEvent::Recorded), WorkerAction::Commit));
}

#[test]
fn commit_failure_is_reported_then_next_round() {
    let (mut w, _) = JobWorker::start();
    w.step(WorkerEvent::Begun(Ok(())));
    w.step(WorkerEvent::BypassSet(Ok(())));
    w.step(WorkerEvent::Fetched(Ok(Some(JOB))));
    w.step(WorkerEvent::Processed(Ok(())));
    w.step(WorkerEvent::Recorded);
    match w.step(WorkerEvent::Committed(Err("lost".to_string()))) {
        WorkerAction::Report { line } => assert_eq!(
            line,
            "Worker: failed to commit job deadbeef-0000-4000-8000-0000000000ff: lost"
        ),
        other => panic!("unexpected {:?}", other),
    }
    assert!(matches!(w.step(WorkerEvent::Reported), WorkerAction::Begin));
}

#[test]
fn idle_round_rolls_back_and_sleeps() {
    let (mut w, _) = JobWorker::start();
    w.step(WorkerEvent::Begun(Ok(())));
    w.step(WorkerEvent::BypassSet(Ok(())));
    assert!(matches!(w.step(WorkerEvent::Fetched(Ok(None))), WorkerAction::Rollback));
    assert!(matches!(w.step(WorkerEvent::RolledBack), WorkerAction::Sleep { secs: 1 }));
    assert!(matches!(w.step(WorkerEvent::Slept), WorkerAction::Begin));
}

#[test]
fn failed_begin_sleeps() {
    let (mut w, _) = JobWorker::start();
    assert!(matches!(w.step(WorkerEvent::Begun(Err("down".to_string()))), WorkerAction::Sleep { secs: 1 }));
}

#[test]
fn bypass_failure_reported_rolled_back_and_sleeps() {
    let (mut w, _) = JobWorker::start();
    w.step(WorkerEvent::Begun(Ok(())));
    match w.step(WorkerEvent::BypassSet(Err("denied".to_string()))) {
        WorkerAction::Report { line } => assert_eq!(line, "Worker: failed to set bypass_rls: denied"),
        other => panic!("unexpected {:?}", other),
    }
    assert!(matches!(w.step(WorkerEvent::Reported), WorkerAction::Rollback));
    assert!(matches!(w.step(WorkerEvent::RolledBack), WorkerAction::Sleep { secs: 1 }));
}

#[test]
fn query_failure_reported_rolled_back_and_sleeps() {
    let (mut w, _) = JobWorker::start();
    w.step(WorkerEvent::Begun(Ok(())));
    w.step(WorkerEvent::BypassSet(Ok(())));
    match w.step(WorkerEvent::Fetched(Err("timeout".to_string()))) {
        WorkerAction::Report { line } => assert_eq!(line, "Worker: query error: timeout"),
        other => panic!("unexpected {:?}", other),
    }
    assert!(matches!(w.step(WorkerEvent::Reported), WorkerAction::Rollback));
}
