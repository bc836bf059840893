use music_upload::jobs::CreateUploadLog;
use music_upload::jobs::JobKind;
use music_upload::jobs::JobStatus;
use music_upload::jobs::JobStore;
use music_upload::jobs::JobStoreError;
use music_upload::progress::ProgressStore;
use music_upload::progress::create_progress_store;
use music_upload::progress::recv_progress;
use music_upload::progress::register_session;
use music_upload::progress::send_progress;
use music_upload::progress::unregister_session;

fn open_job(store: &mut JobStore, user: &str) -> i64 {
    store
        .create_upload_log(
            CreateUploadLog {
                user_id: user.to_string(),
                upload_type: JobKind::Youtube,
                source: "https://youtu.be/abc".to_string(),
            },
            1_700_000_000,
        )
        .unwrap()
}

#[test]
fn new_jobs_start_pending_with_nothing_set() {
    let mut store = JobStore::new();
    let id = open_job(&mut store, "alice");
    assert_eq!(id, 1);
    let job = store.get_job(id).unwrap();
    assert_eq!(job.status, JobStatus::Pending);
    assert_eq!(job.file_count, None);
    assert_eq!(job.error_message, None);
    assert_eq!(job.completed_at, None);
    assert_eq!(job.created_at, 1_700_000_000);
}

#[test]
fn completing_a_job_stamps_completion_and_count() {
    let mut store = JobStore::new();
    let id = open_job(&mut store, "alice");
    store
        .update_upload_log_status(id, JobStatus::Processing, None, None, 1_700_000_001)
        .unwrap();
    store
        .update_upload_log_status(id, JobStatus::Completed, Some(2), None, 1_700_000_002)
        .unwrap();
    let job = store.get_job(id).unwrap();
    assert_eq!(job.status, JobStatus::Completed);
    assert_eq!(job.file_count, Some(2));
    assert_eq!(job.error_message, None);
    assert_eq!(job.completed_at, Some(1_700_000_002));
}

#[test]
fn failing_a_job_requires_and_records_the_message() {
    let mut store = JobStore::new();
    let id = open_job(&mut store, "alice");
    store
        .update_upload_log_status(id, JobStatus::Processing, None, None, 10)
        .unwrap();
    // A failure without a message, or a success with one, is refused.
    assert_eq!(
        store.update_upload_log_status(id, JobStatus::Failed, Some(0), None, 11),
        Err(JobStoreError::MisplacedErrorMessage)
    );
    assert_eq!(
        store.update_upload_log_status(
            id,
            JobStatus::Completed,
            Some(0),
            Some("oops".to_string()),
            11,
        ),
        Err(JobStoreError::MisplacedErrorMessage)
    );
    store
        .update_upload_log_status(id, JobStatus::Failed, Some(0), Some("boom".to_string()), 12)
        .unwrap();
    let job = store.get_job(id).unwrap();
    assert_eq!(job.status, JobStatus::Failed);
    assert_eq!(job.error_message.as_deref(), Some("boom"));
    assert_eq!(job.completed_at, Some(12));
}

#[test]
fn lifecycle_walks_forward_only() {
    let mut store = JobStore::new();
    let id = open_job(&mut store, "alice");
    // pending cannot complete or fail without processing first
    assert_eq!(
        store.update_upload_log_status(id, JobStatus::Completed, None, None, 5),
        Err(JobStoreError::InvalidTransition)
    );
    store
        .update_upload_log_status(id, JobStatus::Processing, None, None, 6)
        .unwrap();
    // no way back, no repeat
    assert_eq!(
        store.update_upload_log_status(id, JobStatus::Pending, None, None, 7),
        Err(JobStoreError::InvalidTransition)
    );
    assert_eq!(
        store.update_upload_log_status(id, JobStatus::Processing, None, None, 7),
        Err(JobStoreError::InvalidTransition)
    );
    store
        .update_upload_log_status(id, JobStatus::Completed, Some(1), None, 8)
        .unwrap();
    // terminal states are final
    assert_eq!(
        store.update_upload_log_status(
            id,
            JobStatus::Failed,
            None,
            Some("late".to_string()),
            9,
        ),
        Err(JobStoreError::InvalidTransition)
    );
    assert_eq!(
        store.update_upload_log_status(99, JobStatus::Processing, None, None, 9),
        Err(JobStoreError::NotFound)
    );
}

#[test]
fn log_listing_filters_and_orders_newest_first() {
    let mut store = JobStore::new();
    let a1 = open_job(&mut store, "alice");
    let b1 = open_job(&mut store, "bob");
    let a2 = open_job(&mut store, "alice");

    let all = store.get_upload_logs(None, 100);
    assert_eq!(all.iter().map(|j| j.id).collect::<Vec<_>>(), vec![a2, b1, a1]);

    let alice = "alice".to_string();
    let own = store.get_upload_logs(Some(&alice), 100);
    assert_eq!(own.iter().map(|j| j.id).collect::<Vec<_>>(), vec![a2, a1]);

    let limited = store.get_upload_logs(None, 2);
    assert_eq!(limited.iter().map(|j| j.id).collect::<Vec<_>>(), vec![a2, b1]);
}

#[test]
fn progress_messages_arrive_in_order() {
    let mut store: ProgressStore = create_progress_store();
    register_session(&mut store, "s1".to_string());
    send_progress(&mut store, "s1", "one".to_string());
    send_progress(&mut store, "s1", "two".to_string());
    assert_eq!(recv_progress(&mut store, "s1").unwrap().message, "one");
    assert_eq!(recv_progress(&mut store, "s1").unwrap().message, "two");
    assert!(recv_progress(&mut store, "s1").is_none());
}

#[test]
fn progress_to_unknown_sessions_is_dropped() {
    let mut store = create_progress_store();
    send_progress(&mut store, "ghost", "hello".to_string());
    assert!(recv_progress(&mut store, "ghost").is_none());
    register_session(&mut store, "s1".to_string());
    unregister_session(&mut store, "s1");
    send_progress(&mut store, "s1", "late".to_string());
    assert!(recv_progress(&mut store, "s1").is_none());
}

#[test]
fn progress_queues_are_bounded() {
    let mut store = create_progress_store();
    register_session(&mut store, "s1".to_string());
    for i in 0..150 {
        send_progress(&mut store, "s1", format!("m{}", i));
    }
    let mut received = 0;
    while recv_progress(&mut store, "s1").is_some() {
        received += 1;
    }
    // the channel buffers 100 messages; the rest were dropped
    assert_eq!(received, 100);
}

#[test]
fn reregistering_a_session_resets_its_queue() {
    let mut store = create_progress_store();
    register_session(&mut store, "s1".to_string());
    send_progress(&mut store, "s1", "old".to_string());
    register_session(&mut store, "s1".to_string());
    assert!(recv_progress(&mut store, "s1").is_none());
}
