use bigfive::jobs::{
    create_job, get_analysis_status, get_job_status, remove_job, update_job_status,
    AnalysisStatus, JobStatus, JobStore, MAX_JOB_AGE_SECS,
};
use bigfive::pipeline::{finish_job, generate_job_id, start_job};
use bigfive::AnalysisError;

fn id(s: &str) -> String {
    s.to_string()
}

#[test]
fn new_job_polls_pending_until_resolved() {
    let mut store = JobStore::new();
    let job = start_job(&mut store, 10);
    assert!(matches!(get_job_status(&store, &job), Some(JobStatus::Pending)));
    assert_eq!(get_analysis_status(&mut store, &job), AnalysisStatus::Pending);
    update_job_status(&mut store, &job, JobStatus::Processing);
    assert_eq!(get_analysis_status(&mut store, &job), AnalysisStatus::Pending);
    assert_eq!(get_analysis_status(&mut store, &job), AnalysisStatus::Pending);
}

#[test]
fn complete_result_is_delivered_once() {
    let mut store = JobStore::new();
    let job = id("job-1");
    create_job(&mut store, &job, 0);
    update_job_status(&mut store, &job, JobStatus::Processing);
    finish_job(&mut store, &job, Ok("T".to_string()));
    assert_eq!(get_analysis_status(&mut store, &job), AnalysisStatus::Complete("T".to_string()));
    for _ in 0..3 {
        assert_eq!(
            get_analysis_status(&mut store, &job),
            AnalysisStatus::Error("Job not found".to_string())
        );
    }
}

#[test]
fn error_result_is_delivered_once() {
    let mut store = JobStore::new();
    let job = id("job-e");
    create_job(&mut store, &job, 0);
    finish_job(
        &mut store,
        &job,
        Err(AnalysisError::ApiError { status: 429, body: "slow down".to_string() }),
    );
    assert_eq!(
        get_analysis_status(&mut store, &job),
        AnalysisStatus::Error("API error (429): slow down".to_string())
    );
    assert_eq!(
        get_analysis_status(&mut store, &job),
        AnalysisStatus::Error("Job not found".to_string())
    );
}

#[test]
fn unknown_job_is_not_found() {
    let mut store = JobStore::new();
    assert_eq!(
        get_analysis_status(&mut store, &id("never")),
        AnalysisStatus::Error("Job not found".to_string())
    );
    assert!(get_job_status(&store, &id("never")).is_none());
}

#[test]
fn stale_jobs_are_swept_on_create() {
    let mut store = JobStore::new();
    create_job(&mut store, &id("old"), 100);
    create_job(&mut store, &id("done"), 100);
    finish_job(&mut store, &id("done"), Ok("x".to_string()));
    create_job(&mut store, &id("young"), 101);
    // One second short of an hour: everything is kept.
    create_job(&mut store, &id("a"), 100 + MAX_JOB_AGE_SECS - 1);
    assert!(get_job_status(&store, &id("old")).is_some());
    // An hour after creation: the old records are gone, polled or not.
    create_job(&mut store, &id("b"), 100 + MAX_JOB_AGE_SECS);
    assert!(get_job_status(&store, &id("old")).is_none());
    assert!(get_job_status(&store, &id("done")).is_none());
    assert!(get_job_status(&store, &id("young")).is_some());
    assert!(get_job_status(&store, &id("a")).is_some());
    assert!(get_job_status(&store, &id("b")).is_some());
}

#[test]
fn distinct_jobs_keep_their_own_results() {
    let mut store = JobStore::new();
    let ids: Vec<String> = (0..8).map(|i| format!("job-{i}")).collect();
    for j in &ids {
        create_job(&mut store, j, 5);
        update_job_status(&mut store, j, JobStatus::Processing);
    }
    for (n, j) in ids.iter().enumerate().rev() {
        finish_job(&mut store, j, Ok(format!("text for {n}")));
    }
    for (n, j) in ids.iter().enumerate() {
        assert_eq!(get_analysis_status(&mut store, j), AnalysisStatus::Complete(format!("text for {n}")));
    }
}

#[test]
fn update_and_remove_of_absent_job_do_nothing() {
    let mut store = JobStore::new();
    create_job(&mut store, &id("kept"), 0);
    update_job_status(&mut store, &id("absent"), JobStatus::Complete("x".to_string()));
    remove_job(&mut store, &id("absent"));
    assert!(get_job_status(&store, &id("absent")).is_none());
    assert!(matches!(get_job_status(&store, &id("kept")), Some(JobStatus::Pending)));
    remove_job(&mut store, &id("kept"));
    assert!(get_job_status(&store, &id("kept")).is_none());
}

#[test]
fn recreating_a_job_resets_it() {
    let mut store = JobStore::new();
    create_job(&mut store, &id("j"), 0);
    finish_job(&mut store, &id("j"), Ok("first".to_string()));
    create_job(&mut store, &id("j"), 1);
    assert_eq!(get_analysis_status(&mut store, &id("j")), AnalysisStatus::Pending);
}

#[test]
fn job_ids_are_fresh_uuids() {
    let a = generate_job_id();
    let b = generate_job_id();
    assert_eq!(a.len(), 36);
    assert_ne!(a, b);
}

#[test]
fn fresh_id_avoids_held_ids() {
    let mut store = JobStore::new();
    create_job(&mut store, &id("abc"), 0);
    create_job(&mut store, &id("abc-"), 0);
    let free = store.fresh_id(id("xyz"));
    assert_eq!(free, "xyz");
    let other = store.fresh_id(id("abc"));
    assert!(other.starts_with("abc"));
    assert!(get_job_status(&store, &other).is_none());
    let started = start_job(&mut store, 1);
    assert_eq!(get_analysis_status(&mut store, &started), AnalysisStatus::Pending);
}
