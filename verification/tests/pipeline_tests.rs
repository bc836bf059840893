use music_upload::config::Config;
use music_upload::jobs::CreateUploadLog;
use music_upload::jobs::JobKind;
use music_upload::jobs::JobStatus;
use music_upload::jobs::JobStore;
use music_upload::pipeline::Action;
use music_upload::pipeline::ErrorCode;
use music_upload::pipeline::RemoteFlow;
use music_upload::pipeline::RemotePhase;
use music_upload::pipeline::UploadFlow;
use music_upload::validate::RemoteKind;

fn apply_create_job(jobs: &mut JobStore, action: &Action, now: i64) -> i64 {
    match action {
        Action::CreateJob { user_id, kind, source } => jobs
            .create_upload_log(
                CreateUploadLog {
                    user_id: user_id.clone(),
                    upload_type: *kind,
                    source: source.clone(),
                },
                now,
            )
            .unwrap(),
        other => panic!("expected CreateJob, got {:?}", other),
    }
}

fn apply_set_status(jobs: &mut JobStore, action: &Action, now: i64) {
    match action {
        Action::SetStatus { job_id, status, file_count, error_message } => {
            jobs.update_upload_log_status(
                *job_id,
                *status,
                *file_count,
                error_message.clone(),
                now,
            )
            .unwrap();
        }
        other => panic!("expected SetStatus, got {:?}", other),
    }
}

#[test]
fn remote_job_completes_with_file_count() {
    let config = Config::default();
    let mut jobs = JobStore::new();
    let (mut flow, acts) = RemoteFlow::new(
        config,
        "u1".to_string(),
        RemoteKind::Youtube,
        "https://youtu.be/abc".to_string(),
    );
    assert!(matches!(&acts[0], Action::LoadUser { .. }));

    let acts = flow.on_user_loaded(None);
    assert!(matches!(&acts[0], Action::EnsureDirs { .. }));

    let acts = flow.on_dirs_ready();
    assert!(matches!(&acts[0], Action::RegisterProgress { .. }));
    assert!(matches!(&acts[1], Action::SendProgress { .. }));
    let id = apply_create_job(&mut jobs, &acts[2], 100);
    assert_eq!(jobs.get_job(id).unwrap().status, JobStatus::Pending);

    let acts = flow.on_job_created(id);
    apply_set_status(&mut jobs, &acts[0], 101);
    assert_eq!(jobs.get_job(id).unwrap().status, JobStatus::Processing);

    let acts = flow.on_status_written(Ok(()));
    match &acts[1] {
        Action::RunFetch { program, args } => {
            assert_eq!(program, "yt-dlp");
            assert_eq!(args.last().unwrap(), "https://youtu.be/abc");
        }
        other => panic!("expected RunFetch, got {:?}", other),
    }

    // the fetch tool wrote two files into the temp directory
    let acts = flow.on_fetch_finished(Ok(2));
    assert!(matches!(&acts[1], Action::ReadSetting { .. }));

    // no stored override: the static default enables the tagging tool
    let acts = flow.on_setting_value(None);
    assert!(matches!(&acts[0], Action::RunTagger { .. }));

    let acts = flow.on_finish_result(Ok(()));
    assert!(matches!(&acts[0], Action::CleanupTemp { .. }));
    apply_set_status(&mut jobs, &acts[1], 102);

    let acts = flow.on_status_written(Ok(()));
    match &acts[2] {
        Action::Respond { response } => {
            assert!(response.success);
            assert_eq!(response.log_id, Some(id));
            assert_eq!(response.message, "Successfully downloaded and processed 2 file(s)");
            assert_eq!(response.session_id.as_ref().unwrap().len(), 36);
        }
        other => panic!("expected Respond, got {:?}", other),
    }
    assert_eq!(flow.phase, RemotePhase::Done);

    let job = jobs.get_job(id).unwrap();
    assert_eq!(job.status, JobStatus::Completed);
    assert_eq!(job.file_count, Some(2));
    assert!(job.completed_at.is_some());
    assert!(job.error_message.is_none());
}

#[test]
fn injection_attempt_is_rejected_before_any_job_row() {
    let config = Config::default();
    let jobs = JobStore::new();
    let (mut flow, _) = RemoteFlow::new(
        config,
        "u1".to_string(),
        RemoteKind::Youtube,
        "https://evil.com/x;rm -rf".to_string(),
    );
    flow.on_user_loaded(None);
    let acts = flow.on_dirs_ready();
    assert_eq!(acts.len(), 1);
    match &acts[0] {
        Action::RespondError { code, message } => {
            assert_eq!(*code, ErrorCode::BadRequest);
            assert!(message.contains("Invalid YouTube URL"));
        }
        other => panic!("expected RespondError, got {:?}", other),
    }
    assert_eq!(flow.phase, RemotePhase::Done);
    assert_eq!(jobs.len(), 0);
}

#[test]
fn disabled_source_kind_is_forbidden_at_once() {
    let mut config = Config::default();
    config.spotify.enabled = false;
    let (flow, acts) = RemoteFlow::new(
        config,
        "u1".to_string(),
        RemoteKind::Spotify,
        "https://open.spotify.com/track/1".to_string(),
    );
    assert_eq!(acts.len(), 1);
    match &acts[0] {
        Action::RespondError { code, message } => {
            assert_eq!(*code, ErrorCode::Forbidden);
            assert_eq!(message, "Spotify downloads are disabled");
        }
        other => panic!("expected RespondError, got {:?}", other),
    }
    assert_eq!(flow.phase, RemotePhase::Done);
}

#[test]
fn fetch_failure_records_the_error_and_skips_tagging() {
    let config = Config::default();
    let mut jobs = JobStore::new();
    let (mut flow, _) = RemoteFlow::new(
        config,
        "u1".to_string(),
        RemoteKind::Spotify,
        "https://open.spotify.com/track/1".to_string(),
    );
    flow.on_user_loaded(Some("/srv/music/u1".to_string()));
    let acts = flow.on_dirs_ready();
    let id = apply_create_job(&mut jobs, &acts[2], 1);
    let acts = flow.on_job_created(id);
    apply_set_status(&mut jobs, &acts[0], 2);
    flow.on_status_written(Ok(()));

    let acts = flow.on_fetch_finished(Err("spotdl failed: network unreachable".to_string()));
    assert!(matches!(&acts[0], Action::CleanupTemp { .. }));
    apply_set_status(&mut jobs, &acts[1], 3);

    let acts = flow.on_status_written(Ok(()));
    match &acts[0] {
        Action::RespondError { code, message } => {
            assert_eq!(*code, ErrorCode::InternalError);
            assert_eq!(message, "Download failed: spotdl failed: network unreachable");
        }
        other => panic!("expected RespondError, got {:?}", other),
    }

    let job = jobs.get_job(id).unwrap();
    assert_eq!(job.status, JobStatus::Failed);
    assert_eq!(job.file_count, Some(0));
    assert_eq!(
        job.error_message.as_deref(),
        Some("Download failed: spotdl failed: network unreachable")
    );
    assert!(job.completed_at.is_some());
}

#[test]
fn stored_flag_overrides_the_static_organizer_default() {
    let config = Config::default();
    assert!(config.paths.ferric_enabled);
    let (mut flow, _) = RemoteFlow::new(
        config,
        "u1".to_string(),
        RemoteKind::Youtube,
        "https://youtu.be/abc".to_string(),
    );
    flow.on_user_loaded(None);
    let acts = flow.on_dirs_ready();
    assert!(matches!(&acts[2], Action::CreateJob { .. }));
    flow.on_job_created(1);
    flow.on_status_written(Ok(()));
    flow.on_fetch_finished(Ok(1));
    // the store says "false": files move directly, no tagging tool
    let acts = flow.on_setting_value(Some("false".to_string()));
    match &acts[0] {
        Action::MoveTempFiles { temp_dir, music_dir } => {
            assert_eq!(temp_dir, "/tmp/music_upload");
            assert_eq!(music_dir, "/tmp/music");
        }
        other => panic!("expected MoveTempFiles, got {:?}", other),
    }
}

#[test]
fn storage_failure_on_the_critical_path_aborts_the_request() {
    let config = Config::default();
    let (mut flow, _) = RemoteFlow::new(
        config,
        "u1".to_string(),
        RemoteKind::Youtube,
        "https://youtu.be/abc".to_string(),
    );
    flow.on_user_loaded(None);
    flow.on_dirs_ready();
    flow.on_job_created(1);
    // marking `processing` failed in the store: hard abort, no fetch
    let acts = flow.on_status_written(Err("disk full".to_string()));
    assert_eq!(acts.len(), 1);
    match &acts[0] {
        Action::RespondError { code, message } => {
            assert_eq!(*code, ErrorCode::InternalError);
            assert_eq!(message, "Failed to update log: disk full");
        }
        other => panic!("expected RespondError, got {:?}", other),
    }
    assert_eq!(flow.phase, RemotePhase::Done);
}

#[test]
fn recording_a_failure_is_best_effort() {
    let config = Config::default();
    let (mut flow, _) = RemoteFlow::new(
        config,
        "u1".to_string(),
        RemoteKind::Youtube,
        "https://youtu.be/abc".to_string(),
    );
    flow.on_user_loaded(None);
    flow.on_dirs_ready();
    flow.on_job_created(1);
    flow.on_status_written(Ok(()));
    flow.on_fetch_finished(Err("timeout".to_string()));
    // even when the failure cannot be recorded, the error response goes out
    let acts = flow.on_status_written(Err("store gone".to_string()));
    match &acts[0] {
        Action::RespondError { code, message } => {
            assert_eq!(*code, ErrorCode::InternalError);
            assert_eq!(message, "Download failed: timeout");
        }
        other => panic!("expected RespondError, got {:?}", other),
    }
}

#[test]
fn exe_upload_fails_the_job_with_extension_message() {
    let mut config = Config::default();
    config.upload.allowed_extensions = vec!["mp3".to_string(), "flac".to_string()];
    let mut jobs = JobStore::new();
    let (mut flow, acts) = UploadFlow::new(config, "u1".to_string());
    assert!(matches!(&acts[0], Action::LoadUser { .. }));

    flow.on_user_loaded(None);
    let acts = flow.on_dirs_ready();
    match &acts[0] {
        Action::CreateJob { kind, source, .. } => {
            assert_eq!(*kind, JobKind::File);
            assert_eq!(source, "multipart upload");
        }
        other => panic!("expected CreateJob, got {:?}", other),
    }
    let id = apply_create_job(&mut jobs, &acts[0], 10);
    let acts = flow.on_job_created(id);
    apply_set_status(&mut jobs, &acts[0], 11);
    let acts = flow.on_status_written(Ok(()));
    assert!(matches!(&acts[0], Action::NextField));

    let acts = flow.on_field(Some("payload.exe".to_string()), 10);
    assert!(matches!(&acts[0], Action::CleanupTemp { .. }));
    apply_set_status(&mut jobs, &acts[1], 12);

    let acts = flow.on_status_written(Ok(()));
    match &acts[0] {
        Action::RespondError { code, message } => {
            assert_eq!(*code, ErrorCode::BadRequest);
            assert_eq!(message, "File type .exe not allowed");
        }
        other => panic!("expected RespondError, got {:?}", other),
    }

    let job = jobs.get_job(id).unwrap();
    assert_eq!(job.status, JobStatus::Failed);
    assert_eq!(job.error_message.as_deref(), Some("File type .exe not allowed"));
    assert!(job.completed_at.is_some());
}

#[test]
fn upload_of_two_files_completes_with_their_count() {
    let config = Config::default();
    let mut jobs = JobStore::new();
    let (mut flow, _) = UploadFlow::new(config, "u2".to_string());
    flow.on_user_loaded(Some("/srv/music/u2".to_string()));
    let acts = flow.on_dirs_ready();
    let id = apply_create_job(&mut jobs, &acts[0], 20);
    let acts = flow.on_job_created(id);
    apply_set_status(&mut jobs, &acts[0], 21);
    flow.on_status_written(Ok(()));

    let acts = flow.on_field(Some("client/dir/one.mp3".to_string()), 100);
    match &acts[0] {
        Action::SaveFile { path } => assert_eq!(path, "/srv/music/u2/tmp/one.mp3"),
        other => panic!("expected SaveFile, got {:?}", other),
    }
    flow.on_file_saved(Ok(()));
    // a field without a filename is skipped
    let acts = flow.on_field(None, 0);
    assert!(matches!(&acts[0], Action::NextField));
    let acts = flow.on_field(Some("two.flac".to_string()), 100);
    assert!(matches!(&acts[0], Action::SaveFile { .. }));
    flow.on_file_saved(Ok(()));

    let acts = flow.on_end_of_fields();
    assert!(matches!(&acts[0], Action::ReadSetting { .. }));
    let acts = flow.on_setting_value(Some("true".to_string()));
    match &acts[0] {
        Action::RunTagger { program, args } => {
            assert_eq!(program, "/usr/local/bin/ferric");
            assert_eq!(
                args,
                &vec![
                    "--input-dir".to_string(),
                    "/srv/music/u2/tmp".to_string(),
                    "--output-dir".to_string(),
                    "/srv/music/u2".to_string(),
                ]
            );
        }
        other => panic!("expected RunTagger, got {:?}", other),
    }
    let acts = flow.on_finish_result(Ok(()));
    apply_set_status(&mut jobs, &acts[1], 22);
    let acts = flow.on_status_written(Ok(()));
    match &acts[0] {
        Action::Respond { response } => {
            assert!(response.success);
            assert_eq!(response.message, "Successfully uploaded and processed 2 file(s)");
            assert_eq!(response.log_id, Some(id));
            assert!(response.session_id.is_none());
        }
        other => panic!("expected Respond, got {:?}", other),
    }
    let job = jobs.get_job(id).unwrap();
    assert_eq!(job.status, JobStatus::Completed);
    assert_eq!(job.file_count, Some(2));
}

#[test]
fn empty_upload_fails_with_no_files_message() {
    let config = Config::default();
    let mut jobs = JobStore::new();
    let (mut flow, _) = UploadFlow::new(config, "u1".to_string());
    flow.on_user_loaded(None);
    let acts = flow.on_dirs_ready();
    let id = apply_create_job(&mut jobs, &acts[0], 30);
    let acts = flow.on_job_created(id);
    apply_set_status(&mut jobs, &acts[0], 31);
    flow.on_status_written(Ok(()));

    let acts = flow.on_end_of_fields();
    apply_set_status(&mut jobs, &acts[0], 32);
    let acts = flow.on_status_written(Ok(()));
    match &acts[0] {
        Action::RespondError { code, message } => {
            assert_eq!(*code, ErrorCode::BadRequest);
            assert_eq!(message, "No files uploaded");
        }
        other => panic!("expected RespondError, got {:?}", other),
    }
    let job = jobs.get_job(id).unwrap();
    assert_eq!(job.status, JobStatus::Failed);
    assert_eq!(job.file_count, Some(0));
    assert_eq!(job.error_message.as_deref(), Some("No files uploaded"));
}
