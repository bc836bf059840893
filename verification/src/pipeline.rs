//! The acquisition pipeline orchestrator.
//!
//! A flow is a state machine for one request.  Each step consumes the
//! outcome of the previous side effect and returns the next actions for the
//! caller to perform: load a user record, create directories, write a job
//! row, spawn a fetch or tagging process, push a progress message, or send
//! the response.  The caller - an HTTP handler, a test - owns every
//! suspension point; the decisions in between are all here, verified.
//!
//! A remote-source flow walks
//! `LoadingUser -> Resolving -> CreatingJob -> MarkingProcessing ->
//! Fetching -> ReadingFlag -> Finishing -> RecordingCompletion -> Done`,
//! leaving for `RecordingFailure -> Done` when a step fails, or straight to
//! `Done` when the request is rejected before a job row exists.

use vstd::prelude::*;

use crate::config::Config;
use crate::config::effective_flag;
use crate::config::spec_effective_flag;
use crate::jobs::JobKind;
use crate::jobs::JobStatus;
use crate::paths::get_user_music_dir;
use crate::paths::get_user_temp_dir;
use crate::paths::spec_user_music_dir;
use crate::paths::spec_user_temp_dir;
use crate::runner::build_spotdl_args;
use crate::runner::build_ytdlp_args;
use crate::runner::spec_spotdl_args;
use crate::runner::spec_ytdlp_args;
use crate::strutil::str_concat;
use crate::strutil::spec_decimal;
use crate::strutil::trim_spec;
use crate::strutil::u64_to_string;
use crate::validate::RemoteKind;
use crate::validate::check_upload_file;
use crate::validate::spec_upload_ok;
use crate::validate::spec_upload_reject_message;
use crate::validate::valid_remote_url;
use crate::validate::validate_remote_url;
use crate::strutil::last_component;
use crate::models::UploadResponse;

verus! {

/// How a failure is reported to the client.
#[derive(Debug, Clone, Copy, PartialEq, Eq, Structural)]
pub enum ErrorCode {
    Forbidden,
    BadRequest,
    InternalError,
}

/// One side effect the caller must perform for the flow.
#[derive(Debug)]
pub enum Action {
    /// Fetch the acting user's record; report its library path back.
    LoadUser { user_id: String },
    /// Create both directories; report success or the filesystem error.
    EnsureDirs { music_dir: String, temp_dir: String },
    /// Open a progress session.
    RegisterProgress { session_id: String },
    /// Push a progress message, best-effort.
    SendProgress { session_id: String, message: String },
    /// Create a job row; report the assigned id.
    CreateJob { user_id: String, kind: JobKind, source: String },
    /// Write a job status change; report success or the storage error.
    SetStatus {
        job_id: i64,
        status: JobStatus,
        file_count: Option<i64>,
        error_message: Option<String>,
    },
    /// Spawn the fetch tool with exactly these arguments; on success report
    /// the count of plain files then in the temp directory.
    RunFetch { program: String, args: Vec<String> },
    /// Read a runtime setting from the config store.
    ReadSetting { key: String },
    /// Spawn the tagging tool with exactly these arguments.
    RunTagger { program: String, args: Vec<String> },
    /// Copy every plain file of the temp directory into the music directory
    /// (copy, then delete - safe across filesystem boundaries).
    MoveTempFiles { temp_dir: String, music_dir: String },
    /// Remove every plain file left in the temp directory, best-effort.
    CleanupTemp { temp_dir: String },
    /// Ask for the next multipart field; report its filename and size, or
    /// the end of the body.
    NextField,
    /// Stream the current field's bytes to this path; report the result.
    SaveFile { path: String },
    /// Drop the progress session after a short delay, so a slow client can
    /// still observe the terminal message.
    ScheduleTeardown { session_id: String },
    /// Reply with success.
    Respond { response: UploadResponse },
    /// Reply with a failure.
    RespondError { code: ErrorCode, message: String },
}

/// Relies on uuid::Uuid::new_v4 and its Display form: a fresh random
/// identifier rendered as 36 hyphenated hexadecimal characters.
#[verifier::external_body]
fn new_session_id() -> (r: String)
    ensures
        r@.len() == 36,
{
    uuid::Uuid::new_v4().to_string()
}

/// The phases of a remote-source flow.
#[derive(Debug, Clone, Copy, PartialEq, Eq, Structural)]
pub enum RemotePhase {
    LoadingUser,
    Resolving,
    CreatingJob,
    MarkingProcessing,
    Fetching,
    ReadingFlag,
    Finishing,
    RecordingCompletion,
    RecordingFailure,
    Done,
}

/// The failure response to send once it is recorded on the job.
#[derive(Debug)]
pub struct PendingError {
    pub code: ErrorCode,
    pub message: String,
}

/// The kind of job a remote fetch creates.
pub open spec fn spec_remote_job_kind(kind: RemoteKind) -> JobKind {
    match kind {
        RemoteKind::Youtube => JobKind::Youtube,
        RemoteKind::Spotify => JobKind::Spotify,
    }
}

pub open spec fn spec_forbidden_message(kind: RemoteKind) -> Seq<char> {
    match kind {
        RemoteKind::Youtube => "YouTube downloads are disabled"@,
        RemoteKind::Spotify => "Spotify downloads are disabled"@,
    }
}

pub open spec fn spec_invalid_url_message(kind: RemoteKind) -> Seq<char> {
    match kind {
        RemoteKind::Youtube => "Invalid YouTube URL format. Must be a standard HTTPS YouTube watch URL."@,
        RemoteKind::Spotify => "Invalid Spotify URL format. Must be a standard HTTPS Spotify URL (track, album, playlist, or artist)."@,
    }
}

pub open spec fn spec_starting_message(kind: RemoteKind) -> Seq<char> {
    match kind {
        RemoteKind::Youtube => "Starting YouTube download..."@,
        RemoteKind::Spotify => "Starting Spotify download..."@,
    }
}

pub open spec fn spec_downloading_message(kind: RemoteKind) -> Seq<char> {
    match kind {
        RemoteKind::Youtube => "Downloading from YouTube..."@,
        RemoteKind::Spotify => "Downloading from Spotify..."@,
    }
}

/// Whether the deployment allows this source kind at all.
pub open spec fn spec_kind_enabled(config: Config, kind: RemoteKind) -> bool {
    match kind {
        RemoteKind::Youtube => config.youtube.enabled,
        RemoteKind::Spotify => config.spotify.enabled,
    }
}

/// The fetch tool configured for this source kind.
pub open spec fn spec_fetch_program(config: Config, kind: RemoteKind) -> Seq<char> {
    match kind {
        RemoteKind::Youtube => config.youtube.ytdlp_path@,
        RemoteKind::Spotify => config.spotify.spotdl_path@,
    }
}

/// The argument vector the fetch tool is spawned with.
pub open spec fn spec_fetch_args(
    config: Config,
    kind: RemoteKind,
    temp_dir: Seq<char>,
    url: Seq<char>,
) -> Seq<Seq<char>> {
    match kind {
        RemoteKind::Youtube => spec_ytdlp_args(config.youtube, temp_dir, url),
        RemoteKind::Spotify => spec_spotdl_args(config.spotify, temp_dir, url),
    }
}

/// One remote-source request in flight.
#[derive(Debug)]
pub struct RemoteFlow {
    pub config: Config,
    pub user_id: String,
    pub kind: RemoteKind,
    pub raw_url: String,
    pub url: Option<String>,
    pub session_id: Option<String>,
    pub music_dir: Option<String>,
    pub temp_dir: Option<String>,
    pub job_id: Option<i64>,
    pub file_count: Option<u32>,
    pub pending: Option<PendingError>,
    pub phase: RemotePhase,
}

impl RemoteFlow {
    /// What each phase guarantees to have established.
    pub open spec fn inv(self) -> bool {
        &&& (self.phase != RemotePhase::LoadingUser && self.phase != RemotePhase::Done
            ==> self.music_dir is Some && self.temp_dir is Some)
        &&& (self.phase != RemotePhase::LoadingUser && self.phase != RemotePhase::Resolving
            && self.phase != RemotePhase::Done ==> self.url is Some && self.session_id is Some)
        &&& ((self.phase == RemotePhase::MarkingProcessing || self.phase == RemotePhase::Fetching
            || self.phase == RemotePhase::ReadingFlag || self.phase == RemotePhase::Finishing
            || self.phase == RemotePhase::RecordingCompletion || self.phase
            == RemotePhase::RecordingFailure) ==> self.job_id is Some)
        &&& ((self.phase == RemotePhase::ReadingFlag || self.phase == RemotePhase::Finishing
            || self.phase == RemotePhase::RecordingCompletion) ==> self.file_count is Some)
        &&& (self.phase == RemotePhase::RecordingFailure ==> self.pending is Some)
        &&& (self.url matches Some(u) ==> u@ == trim_spec(self.raw_url@) && valid_remote_url(
            self.kind,
            u@,
        ))
    }

    /// The request identity never changes after creation.
    pub open spec fn same_request(self, other: RemoteFlow) -> bool {
        &&& self.config == other.config
        &&& self.user_id == other.user_id
        &&& self.kind == other.kind
        &&& self.raw_url == other.raw_url
    }

    /// Open a flow.  A disabled source kind is rejected at once, before any
    /// user lookup, directory or job action.
    pub fn new(config: Config, user_id: String, kind: RemoteKind, raw_url: String) -> (r: (
        RemoteFlow,
        Vec<Action>,
    ))
        ensures
            r.0.inv(),
            r.0.config == config,
            r.0.user_id == user_id,
            r.0.kind == kind,
            r.0.raw_url == raw_url,
            !spec_kind_enabled(config, kind) ==> {
                &&& r.0.phase == RemotePhase::Done
                &&& r.1@.len() == 1
                &&& (r.1@[0] matches Action::RespondError { code, message } && code
                    == ErrorCode::Forbidden && message@ == spec_forbidden_message(kind))
            },
            spec_kind_enabled(config, kind) ==> {
                &&& r.0.phase == RemotePhase::LoadingUser
                &&& r.1@.len() == 1
                &&& (r.1@[0] matches Action::LoadUser { user_id: u } && u == user_id)
            },
    {
        let enabled = match kind {
            RemoteKind::Youtube => config.youtube.enabled,
            RemoteKind::Spotify => config.spotify.enabled,
        };
        let mut actions: Vec<Action> = Vec::new();
        let phase: RemotePhase;
        if enabled {
            actions.push(Action::LoadUser { user_id: user_id.clone() });
            phase = RemotePhase::LoadingUser;
        } else {
            let message = match kind {
                RemoteKind::Youtube => String::from_str("YouTube downloads are disabled"),
                RemoteKind::Spotify => String::from_str("Spotify downloads are disabled"),
            };
            actions.push(Action::RespondError { code: ErrorCode::Forbidden, message });
            phase = RemotePhase::Done;
        }
        let flow = RemoteFlow {
            config,
            user_id,
            kind,
            raw_url,
            url: None,
            session_id: None,
            music_dir: None,
            temp_dir: None,
            job_id: None,
            file_count: None,
            pending: None,
            phase,
        };
        (flow, actions)
    }

    /// The user record arrived: resolve the pair of directories from the
    /// global configuration and the user's override, and have them created.
    pub fn on_user_loaded(&mut self, library_path: Option<String>) -> (actions: Vec<Action>)
        requires
            old(self).inv(),
            old(self).phase == RemotePhase::LoadingUser,
        ensures
            final(self).inv(),
            old(self).same_request(*final(self)),
            final(self).phase == RemotePhase::Resolving,
            final(self).music_dir matches Some(m) && m@ == spec_user_music_dir(
                old(self).config.paths.music_dir@,
                library_path.deep_view(),
            ),
            final(self).temp_dir matches Some(t) && t@ == spec_user_temp_dir(
                old(self).config.paths.music_dir@,
                old(self).config.paths.temp_dir@,
                library_path.deep_view(),
            ),
            actions@.len() == 1,
            (actions@[0] matches Action::EnsureDirs { music_dir, temp_dir } && music_dir
                == final(self).music_dir->0 && temp_dir == final(self).temp_dir->0),
    {
        let music_dir = get_user_music_dir(&self.config, &library_path);
        let temp_dir = get_user_temp_dir(&self.config, &library_path);
        self.music_dir = Some(music_dir.clone());
        self.temp_dir = Some(temp_dir.clone());
        self.phase = RemotePhase::Resolving;
        let mut actions: Vec<Action> = Vec::new();
        actions.push(Action::EnsureDirs { music_dir, temp_dir });
        actions
    }

    /// The user record could not be read: the request aborts.
    pub fn on_user_load_failed(&mut self, message: String) -> (actions: Vec<Action>)
        requires
            old(self).inv(),
            old(self).phase == RemotePhase::LoadingUser,
        ensures
            final(self).inv(),
            old(self).same_request(*final(self)),
            final(self).phase == RemotePhase::Done,
            actions@.len() == 1,
            (actions@[0] matches Action::RespondError { code, message: m } && code
                == ErrorCode::InternalError && m@ == "Failed to get user: "@ + message@),
    {
        self.phase = RemotePhase::Done;
        let mut actions: Vec<Action> = Vec::new();
        actions.push(
            Action::RespondError {
                code: ErrorCode::InternalError,
                message: str_concat("Failed to get user: ", message.as_str()),
            },
        );
        actions
    }

    /// Directory creation failed: fatal, not retried.
    pub fn on_dirs_failed(&mut self, message: String) -> (actions: Vec<Action>)
        requires
            old(self).inv(),
            old(self).phase == RemotePhase::Resolving,
        ensures
            final(self).inv(),
            old(self).same_request(*final(self)),
            final(self).phase == RemotePhase::Done,
            actions@.len() == 1,
            (actions@[0] matches Action::RespondError { code, message: m } && code
                == ErrorCode::InternalError && m@ == "Failed to get user directories: "@
                + message@),
    {
        self.phase = RemotePhase::Done;
        let mut actions: Vec<Action> = Vec::new();
        actions.push(
            Action::RespondError {
                code: ErrorCode::InternalError,
                message: str_concat("Failed to get user directories: ", message.as_str()),
            },
        );
        actions
    }

    /// Both directories exist: validate the URL.  A rejected URL ends the
    /// request with no job row and no process spawn; an accepted one opens a
    /// progress session and asks for a job row.
    pub fn on_dirs_ready(&mut self) -> (actions: Vec<Action>)
        requires
            old(self).inv(),
            old(self).phase == RemotePhase::Resolving,
        ensures
            final(self).inv(),
            old(self).same_request(*final(self)),
            !valid_remote_url(old(self).kind, trim_spec(old(self).raw_url@)) ==> {
                &&& final(self).phase == RemotePhase::Done
                &&& actions@.len() == 1
                &&& (actions@[0] matches Action::RespondError { code, message } && code
                    == ErrorCode::BadRequest && message@ == spec_invalid_url_message(
                    old(self).kind,
                ))
            },
            valid_remote_url(old(self).kind, trim_spec(old(self).raw_url@)) ==> {
                &&& final(self).phase == RemotePhase::CreatingJob
                &&& (final(self).url matches Some(u) && u@ == trim_spec(old(self).raw_url@))
                &&& final(self).session_id is Some
                &&& final(self).music_dir == old(self).music_dir
                &&& final(self).temp_dir == old(self).temp_dir
                &&& actions@.len() == 3
                &&& (actions@[0] matches Action::RegisterProgress { session_id } && session_id
                    == final(self).session_id->0)
                &&& (actions@[1] matches Action::SendProgress { session_id, message } && session_id
                    == final(self).session_id->0 && message@ == spec_starting_message(
                    old(self).kind,
                ))
                &&& (actions@[2] matches Action::CreateJob { user_id, kind, source } && user_id
                    == old(self).user_id && kind == spec_remote_job_kind(old(self).kind) && source
                    == old(self).raw_url)
            },
    {
        let verdict = validate_remote_url(self.kind, self.raw_url.as_str());
        match verdict {
            Ok(url) => {
                let sid = new_session_id();
                self.url = Some(url);
                self.session_id = Some(sid.clone());
                self.phase = RemotePhase::CreatingJob;
                let kind_val = match self.kind {
                    RemoteKind::Youtube => JobKind::Youtube,
                    RemoteKind::Spotify => JobKind::Spotify,
                };
                let starting = match self.kind {
                    RemoteKind::Youtube => String::from_str("Starting YouTube download..."),
                    RemoteKind::Spotify => String::from_str("Starting Spotify download..."),
                };
                let mut actions: Vec<Action> = Vec::new();
                actions.push(Action::RegisterProgress { session_id: sid.clone() });
                actions.push(Action::SendProgress { session_id: sid, message: starting });
                actions.push(
                    Action::CreateJob {
                        user_id: self.user_id.clone(),
                        kind: kind_val,
                        source: self.raw_url.clone(),
                    },
                );
                actions
            },
            Err(_) => {
                self.phase = RemotePhase::Done;
                let message = match self.kind {
                    RemoteKind::Youtube => String::from_str(
                        "Invalid YouTube URL format. Must be a standard HTTPS YouTube watch URL.",
                    ),
                    RemoteKind::Spotify => String::from_str(
                        "Invalid Spotify URL format. Must be a standard HTTPS Spotify URL (track, album, playlist, or artist).",
                    ),
                };
                let mut actions: Vec<Action> = Vec::new();
                actions.push(Action::RespondError { code: ErrorCode::BadRequest, message });
                actions
            },
        }
    }

    /// The job row exists: mark it processing.
    pub fn on_job_created(&mut self, job_id: i64) -> (actions: Vec<Action>)
        requires
            old(self).inv(),
            old(self).phase == RemotePhase::CreatingJob,
        ensures
            final(self).inv(),
            old(self).same_request(*final(self)),
            final(self).phase == RemotePhase::MarkingProcessing,
            final(self).job_id == Some(job_id),
            final(self).url == old(self).url,
            final(self).session_id == old(self).session_id,
            final(self).music_dir == old(self).music_dir,
            final(self).temp_dir == old(self).temp_dir,
            actions@.len() == 1,
            (actions@[0] matches Action::SetStatus { job_id: j, status, file_count, error_message }
                && j == job_id && status == JobStatus::Processing && file_count is None
                && error_message is None),
    {
        self.job_id = Some(job_id);
        self.phase = RemotePhase::MarkingProcessing;
        let mut actions: Vec<Action> = Vec::new();
        actions.push(
            Action::SetStatus {
                job_id,
                status: JobStatus::Processing,
                file_count: None,
                error_message: None,
            },
        );
        actions
    }

    /// The job row could not be created: the request aborts.
    pub fn on_job_create_failed(&mut self, message: String) -> (actions: Vec<Action>)
        requires
            old(self).inv(),
            old(self).phase == RemotePhase::CreatingJob,
        ensures
            final(self).inv(),
            old(self).same_request(*final(self)),
            final(self).phase == RemotePhase::Done,
            actions@.len() == 1,
            (actions@[0] matches Action::RespondError { code, message: m } && code
                == ErrorCode::InternalError && m@ == "Failed to create upload log: "@ + message@),
    {
        self.phase = RemotePhase::Done;
        let mut actions: Vec<Action> = Vec::new();
        actions.push(
            Action::RespondError {
                code: ErrorCode::InternalError,
                message: str_concat("Failed to create upload log: ", message.as_str()),
            },
        );
        actions
    }

    /// A status write came back.  Marking `processing` must succeed, or the
    /// request aborts; recording `completed` likewise; recording a failure
    /// is best-effort - the failure response goes out either way.
    pub fn on_status_written(&mut self, result: Result<(), String>) -> (actions: Vec<Action>)
        requires
            old(self).inv(),
            old(self).phase == RemotePhase::MarkingProcessing || old(self).phase
                == RemotePhase::RecordingCompletion || old(self).phase
                == RemotePhase::RecordingFailure,
        ensures
            final(self).inv(),
            old(self).same_request(*final(self)),
            (old(self).phase == RemotePhase::MarkingProcessing && result is Ok) ==> {
                &&& final(self).phase == RemotePhase::Fetching
                &&& final(self).url == old(self).url
                &&& final(self).session_id == old(self).session_id
                &&& final(self).music_dir == old(self).music_dir
                &&& final(self).temp_dir == old(self).temp_dir
                &&& final(self).job_id == old(self).job_id
                &&& actions@.len() == 2
                &&& (actions@[0] matches Action::SendProgress { session_id, message } && session_id
                    == old(self).session_id->0 && message@ == spec_downloading_message(
                    old(self).kind,
                ))
                &&& (actions@[1] matches Action::RunFetch { program, args } && program@
                    == spec_fetch_program(old(self).config, old(self).kind)
                    && args.deep_view() == spec_fetch_args(
                    old(self).config,
                    old(self).kind,
                    old(self).temp_dir->0@,
                    old(self).url->0@,
                ))
            },
            result matches Err(m) ==> (old(self).phase == RemotePhase::MarkingProcessing || old(
                self,
            ).phase == RemotePhase::RecordingCompletion) ==> {
                &&& final(self).phase == RemotePhase::Done
                &&& actions@.len() == 1
                &&& (actions@[0] matches Action::RespondError { code, message } && code
                    == ErrorCode::InternalError && message@ == "Failed to update log: "@ + m@)
            },
            (old(self).phase == RemotePhase::RecordingCompletion && result is Ok) ==> {
                &&& final(self).phase == RemotePhase::Done
                &&& actions@.len() == 3
                &&& (actions@[0] matches Action::SendProgress { session_id, message } && session_id
                    == old(self).session_id->0 && message@ == "Complete!"@)
                &&& (actions@[1] matches Action::ScheduleTeardown { session_id } && session_id
                    == old(self).session_id->0)
                &&& (actions@[2] matches Action::Respond { response } && response.success == true
                    && response.message@ == "Successfully downloaded and processed "@
                    + spec_decimal(old(self).file_count->0 as nat) + " file(s)"@
                    && response.log_id == Some(old(self).job_id->0) && response.session_id == Some(
                    old(self).session_id->0,
                ))
            },
            old(self).phase == RemotePhase::RecordingFailure ==> {
                &&& final(self).phase == RemotePhase::Done
                &&& actions@.len() == 1
                &&& (actions@[0] matches Action::RespondError { code, message } && code == old(
                    self,
                ).pending->0.code && message == old(self).pending->0.message)
            },
    {
        let mut actions: Vec<Action> = Vec::new();
        match self.phase {
            RemotePhase::MarkingProcessing => {
                match result {
                    Ok(()) => {
                        let sid = match &self.session_id {
                            Some(s) => s.clone(),
                            None => unreached(),
                        };
                        let temp = match &self.temp_dir {
                            Some(t) => t.clone(),
                            None => unreached(),
                        };
                        let url = match &self.url {
                            Some(u) => u.clone(),
                            None => unreached(),
                        };
                        let downloading = match self.kind {
                            RemoteKind::Youtube => String::from_str("Downloading from YouTube..."),
                            RemoteKind::Spotify => String::from_str("Downloading from Spotify..."),
                        };
                        let program = match self.kind {
                            RemoteKind::Youtube => self.config.youtube.ytdlp_path.clone(),
                            RemoteKind::Spotify => self.config.spotify.spotdl_path.clone(),
                        };
                        let args = match self.kind {
                            RemoteKind::Youtube => build_ytdlp_args(
                                &self.config,
                                temp.as_str(),
                                url.as_str(),
                            ),
                            RemoteKind::Spotify => build_spotdl_args(
                                &self.config,
                                temp.as_str(),
                                url.as_str(),
                            ),
                        };
                        actions.push(Action::SendProgress { session_id: sid, message: downloading });
                        actions.push(Action::RunFetch { program, args });
                        self.phase = RemotePhase::Fetching;
                    },
                    Err(m) => {
                        actions.push(
                            Action::RespondError {
                                code: ErrorCode::InternalError,
                                message: str_concat("Failed to update log: ", m.as_str()),
                            },
                        );
                        self.phase = RemotePhase::Done;
                    },
                }
            },
            RemotePhase::RecordingCompletion => {
                match result {
                    Ok(()) => {
                        let sid = match &self.session_id {
                            Some(s) => s.clone(),
                            None => unreached(),
                        };
                        let job_id = match self.job_id {
                            Some(j) => j,
                            None => unreached(),
                        };
                        let count = match self.file_count {
                            Some(c) => c,
                            None => unreached(),
                        };
                        let n = u64_to_string(count as u64);
                        let head = str_concat(
                            "Successfully downloaded and processed ",
                            n.as_str(),
                        );
                        let message = str_concat(head.as_str(), " file(s)");
                        actions.push(
                            Action::SendProgress {
                                session_id: sid.clone(),
                                message: String::from_str("Complete!"),
                            },
                        );
                        actions.push(Action::ScheduleTeardown { session_id: sid.clone() });
                        actions.push(
                            Action::Respond {
                                response: UploadResponse {
                                    success: true,
                                    message,
                                    log_id: Some(job_id),
                                    session_id: Some(sid),
                                },
                            },
                        );
                        self.phase = RemotePhase::Done;
                    },
                    Err(m) => {
                        actions.push(
                            Action::RespondError {
                                code: ErrorCode::InternalError,
                                message: str_concat("Failed to update log: ", m.as_str()),
                            },
                        );
                        self.phase = RemotePhase::Done;
                    },
                }
            },
            RemotePhase::RecordingFailure => {
                let pending = match self.pending.take() {
                    Some(p) => p,
                    None => unreached(),
                };
                actions.push(
                    Action::RespondError { code: pending.code, message: pending.message },
                );
                self.phase = RemotePhase::Done;
            },
            _ => {
                proof {
                    assert(false);
                }
            },
        }
        actions
    }

    /// The fetch finished.  On success the caller reports how many plain
    /// files the tool left in the temp directory; on failure the job is
    /// recorded `failed` with the captured error and no tagging is
    /// attempted.
    pub fn on_fetch_finished(&mut self, result: Result<u32, String>) -> (actions: Vec<Action>)
        requires
            old(self).inv(),
            old(self).phase == RemotePhase::Fetching,
        ensures
            final(self).inv(),
            old(self).same_request(*final(self)),
            result matches Ok(count) ==> {
                &&& final(self).phase == RemotePhase::ReadingFlag
                &&& final(self).file_count == Some(count)
                &&& final(self).url == old(self).url
                &&& final(self).session_id == old(self).session_id
                &&& final(self).music_dir == old(self).music_dir
                &&& final(self).temp_dir == old(self).temp_dir
                &&& final(self).job_id == old(self).job_id
                &&& actions@.len() == 2
                &&& (actions@[0] matches Action::SendProgress { session_id, message } && session_id
                    == old(self).session_id->0 && message@ == "Downloaded "@ + spec_decimal(
                    count as nat,
                ) + " file(s), now processing..."@)
                &&& (actions@[1] matches Action::ReadSetting { key } && key@ == "ferric_enabled"@)
            },
            result matches Err(m) ==> {
                &&& final(self).phase == RemotePhase::RecordingFailure
                &&& final(self).job_id == old(self).job_id
                &&& (final(self).pending matches Some(p) && p.code == ErrorCode::InternalError
                    && p.message@ == "Download failed: "@ + m@)
                &&& actions@.len() == 2
                &&& (actions@[0] matches Action::CleanupTemp { temp_dir } && temp_dir == old(
                    self,
                ).temp_dir->0)
                &&& (actions@[1] matches Action::SetStatus {
                    job_id,
                    status,
                    file_count,
                    error_message,
                } && job_id == old(self).job_id->0 && status == JobStatus::Failed && file_count
                    == Some(0int as i64) && (error_message matches Some(em) && em@
                    == "Download failed: "@ + m@))
            },
    {
        let mut actions: Vec<Action> = Vec::new();
        match result {
            Ok(count) => {
                let sid = match &self.session_id {
                    Some(s) => s.clone(),
                    None => unreached(),
                };
                self.file_count = Some(count);
                self.phase = RemotePhase::ReadingFlag;
                let n = u64_to_string(count as u64);
                let head = str_concat("Downloaded ", n.as_str());
                let message = str_concat(head.as_str(), " file(s), now processing...");
                actions.push(Action::SendProgress { session_id: sid, message });
                actions.push(Action::ReadSetting { key: String::from_str("ferric_enabled") });
            },
            Err(m) => {
                let temp = match &self.temp_dir {
                    Some(t) => t.clone(),
                    None => unreached(),
                };
                let job_id = match self.job_id {
                    Some(j) => j,
                    None => unreached(),
                };
                let message = str_concat("Download failed: ", m.as_str());
                self.pending = Some(
                    PendingError { code: ErrorCode::InternalError, message: message.clone() },
                );
                self.phase = RemotePhase::RecordingFailure;
                actions.push(Action::CleanupTemp { temp_dir: temp });
                actions.push(
                    Action::SetStatus {
                        job_id,
                        status: JobStatus::Failed,
                        file_count: Some(0),
                        error_message: Some(message),
                    },
                );
            },
        }
        actions
    }

    /// The runtime organizer flag arrived: under the two-tier lookup rule it
    /// decides whether the tagging tool runs or the files move directly.
    pub fn on_setting_value(&mut self, value: Option<String>) -> (actions: Vec<Action>)
        requires
            old(self).inv(),
            old(self).phase == RemotePhase::ReadingFlag,
        ensures
            final(self).inv(),
            old(self).same_request(*final(self)),
            final(self).phase == RemotePhase::Finishing,
            final(self).url == old(self).url,
            final(self).session_id == old(self).session_id,
            final(self).music_dir == old(self).music_dir,
            final(self).temp_dir == old(self).temp_dir,
            final(self).job_id == old(self).job_id,
            final(self).file_count == old(self).file_count,
            spec_effective_flag(value.deep_view(), old(self).config.paths.ferric_enabled) ==> {
                &&& actions@.len() == 1
                &&& (actions@[0] matches Action::RunTagger { program, args } && program == old(
                    self,
                ).config.paths.ferric_path && args.deep_view() == crate::runner::spec_ferric_args(
                    old(self).temp_dir->0@,
                    old(self).music_dir->0@,
                ))
            },
            !spec_effective_flag(value.deep_view(), old(self).config.paths.ferric_enabled) ==> {
                &&& actions@.len() == 1
                &&& (actions@[0] matches Action::MoveTempFiles { temp_dir, music_dir } && temp_dir
                    == old(self).temp_dir->0 && music_dir == old(self).music_dir->0)
            },
    {
        let ferric = effective_flag(&value, self.config.paths.ferric_enabled);
        let temp = match &self.temp_dir {
            Some(t) => t.clone(),
            None => unreached(),
        };
        let music = match &self.music_dir {
            Some(m) => m.clone(),
            None => unreached(),
        };
        self.phase = RemotePhase::Finishing;
        let mut actions: Vec<Action> = Vec::new();
        if ferric {
            let args = crate::runner::build_ferric_args(temp.as_str(), music.as_str());
            actions.push(
                Action::RunTagger { program: self.config.paths.ferric_path.clone(), args },
            );
        } else {
            actions.push(Action::MoveTempFiles { temp_dir: temp, music_dir: music });
        }
        actions
    }

    /// Tagging or the direct move finished.  Success records `completed`
    /// with the fetched file count; failure records `failed` keeping that
    /// count.  Either way the temp directory is drained.
    pub fn on_finish_result(&mut self, result: Result<(), String>) -> (actions: Vec<Action>)
        requires
            old(self).inv(),
            old(self).phase == RemotePhase::Finishing,
        ensures
            final(self).inv(),
            old(self).same_request(*final(self)),
            result is Ok ==> {
                &&& final(self).phase == RemotePhase::RecordingCompletion
                &&& final(self).url == old(self).url
                &&& final(self).session_id == old(self).session_id
                &&& final(self).music_dir == old(self).music_dir
                &&& final(self).temp_dir == old(self).temp_dir
                &&& final(self).job_id == old(self).job_id
                &&& final(self).file_count == old(self).file_count
                &&& actions@.len() == 2
                &&& (actions@[0] matches Action::CleanupTemp { temp_dir } && temp_dir == old(
                    self,
                ).temp_dir->0)
                &&& (actions@[1] matches Action::SetStatus {
                    job_id,
                    status,
                    file_count,
                    error_message,
                } && job_id == old(self).job_id->0 && status == JobStatus::Completed && file_count
                    == Some(old(self).file_count->0 as i64) && error_message is None)
            },
            result matches Err(m) ==> {
                &&& final(self).phase == RemotePhase::RecordingFailure
                &&& final(self).job_id == old(self).job_id
                &&& (final(self).pending matches Some(p) && p.code == ErrorCode::InternalError
                    && p.message@ == "Processing failed: "@ + m@)
                &&& actions@.len() == 2
                &&& (actions@[0] matches Action::CleanupTemp { temp_dir } && temp_dir == old(
                    self,
                ).temp_dir->0)
                &&& (actions@[1] matches Action::SetStatus {
                    job_id,
                    status,
                    file_count,
                    error_message,
                } && job_id == old(self).job_id->0 && status == JobStatus::Failed && file_count
                    == Some(old(self).file_count->0 as i64) && (error_message matches Some(em)
                    && em@ == "Processing failed: "@ + m@))
            },
    {
        let temp = match &self.temp_dir {
            Some(t) => t.clone(),
            None => unreached(),
        };
        let job_id = match self.job_id {
            Some(j) => j,
            None => unreached(),
        };
        let count = match self.file_count {
            Some(c) => c,
            None => unreached(),
        };
        let mut actions: Vec<Action> = Vec::new();
        actions.push(Action::CleanupTemp { temp_dir: temp });
        match result {
            Ok(()) => {
                self.phase = RemotePhase::RecordingCompletion;
                actions.push(
                    Action::SetStatus {
                        job_id,
                        status: JobStatus::Completed,
                        file_count: Some(count as i64),
                        error_message: None,
                    },
                );
            },
            Err(m) => {
                let message = str_concat("Processing failed: ", m.as_str());
                self.pending = Some(
                    PendingError { code: ErrorCode::InternalError, message: message.clone() },
                );
                self.phase = RemotePhase::RecordingFailure;
                actions.push(
                    Action::SetStatus {
                        job_id,
                        status: JobStatus::Failed,
                        file_count: Some(count as i64),
                        error_message: Some(message),
                    },
                );
            },
        }
        actions
    }
}

/// The phases of a direct-upload flow.
#[derive(Debug, Clone, Copy, PartialEq, Eq, Structural)]
pub enum UploadPhase {
    LoadingUser,
    Resolving,
    CreatingJob,
    MarkingProcessing,
    ReceivingFiles,
    SavingFile,
    ReadingFlag,
    Finishing,
    RecordingCompletion,
    RecordingFailure,
    Done,
}

/// One direct-upload request in flight.
#[derive(Debug)]
pub struct UploadFlow {
    pub config: Config,
    pub user_id: String,
    pub music_dir: Option<String>,
    pub temp_dir: Option<String>,
    pub job_id: Option<i64>,
    pub accepted_count: u32,
    pub pending: Option<PendingError>,
    pub phase: UploadPhase,
}

impl UploadFlow {
    /// What each phase guarantees to have established.
    pub open spec fn inv(self) -> bool {
        &&& self.config.upload.max_file_size_mb as int * 1024 * 1024 <= u64::MAX as int
        &&& (self.phase != UploadPhase::LoadingUser && self.phase != UploadPhase::Done
            ==> self.music_dir is Some && self.temp_dir is Some)
        &&& ((self.phase == UploadPhase::MarkingProcessing || self.phase
            == UploadPhase::ReceivingFiles || self.phase == UploadPhase::SavingFile || self.phase
            == UploadPhase::ReadingFlag || self.phase == UploadPhase::Finishing || self.phase
            == UploadPhase::RecordingCompletion || self.phase == UploadPhase::RecordingFailure)
            ==> self.job_id is Some)
        &&& (self.phase == UploadPhase::RecordingFailure ==> self.pending is Some)
    }

    /// The request identity never changes after creation.
    pub open spec fn same_request(self, other: UploadFlow) -> bool {
        &&& self.config == other.config
        &&& self.user_id == other.user_id
    }

    /// Open a direct-upload flow.  The size ceiling must fit the machine
    /// word; a caller with a saner configuration never sees the bound.
    pub fn new(config: Config, user_id: String) -> (r: (UploadFlow, Vec<Action>))
        requires
            config.upload.max_file_size_mb as int * 1024 * 1024 <= u64::MAX as int,
        ensures
            r.0.inv(),
            r.0.config == config,
            r.0.user_id == user_id,
            r.0.phase == UploadPhase::LoadingUser,
            r.0.accepted_count == 0,
            r.1@.len() == 1,
            (r.1@[0] matches Action::LoadUser { user_id: u } && u == user_id),
    {
        let mut actions: Vec<Action> = Vec::new();
        actions.push(Action::LoadUser { user_id: user_id.clone() });
        let flow = UploadFlow {
            config,
            user_id,
            music_dir: None,
            temp_dir: None,
            job_id: None,
            accepted_count: 0,
            pending: None,
            phase: UploadPhase::LoadingUser,
        };
        (flow, actions)
    }

    /// The user record arrived: resolve and create the directory pair.
    pub fn on_user_loaded(&mut self, library_path: Option<String>) -> (actions: Vec<Action>)
        requires
            old(self).inv(),
            old(self).phase == UploadPhase::LoadingUser,
        ensures
            final(self).inv(),
            old(self).same_request(*final(self)),
            final(self).phase == UploadPhase::Resolving,
            final(self).accepted_count == old(self).accepted_count,
            final(self).music_dir matches Some(m) && m@ == spec_user_music_dir(
                old(self).config.paths.music_dir@,
                library_path.deep_view(),
            ),
            final(self).temp_dir matches Some(t) && t@ == spec_user_temp_dir(
                old(self).config.paths.music_dir@,
                old(self).config.paths.temp_dir@,
                library_path.deep_view(),
            ),
            actions@.len() == 1,
            (actions@[0] matches Action::EnsureDirs { music_dir, temp_dir } && music_dir
                == final(self).music_dir->0 && temp_dir == final(self).temp_dir->0),
    {
        let music_dir = get_user_music_dir(&self.config, &library_path);
        let temp_dir = get_user_temp_dir(&self.config, &library_path);
        self.music_dir = Some(music_dir.clone());
        self.temp_dir = Some(temp_dir.clone());
        self.phase = UploadPhase::Resolving;
        let mut actions: Vec<Action> = Vec::new();
        actions.push(Action::EnsureDirs { music_dir, temp_dir });
        actions
    }

    /// The user record could not be read: the request aborts.
    pub fn on_user_load_failed(&mut self, message: String) -> (actions: Vec<Action>)
        requires
            old(self).inv(),
            old(self).phase == UploadPhase::LoadingUser,
        ensures
            final(self).inv(),
            old(self).same_request(*final(self)),
            final(self).phase == UploadPhase::Done,
            actions@.len() == 1,
            (actions@[0] matches Action::RespondError { code, message: m } && code
                == ErrorCode::InternalError && m@ == "Failed to get user: "@ + message@),
    {
        self.phase = UploadPhase::Done;
        let mut actions: Vec<Action> = Vec::new();
        actions.push(
            Action::RespondError {
                code: ErrorCode::InternalError,
                message: str_concat("Failed to get user: ", message.as_str()),
            },
        );
        actions
    }

    /// Directory creation failed: fatal, not retried.
    pub fn on_dirs_failed(&mut self, message: String) -> (actions: Vec<Action>)
        requires
            old(self).inv(),
            old(self).phase == UploadPhase::Resolving,
        ensures
            final(self).inv(),
            old(self).same_request(*final(self)),
            final(self).phase == UploadPhase::Done,
            actions@.len() == 1,
            (actions@[0] matches Action::RespondError { code, message: m } && code
                == ErrorCode::InternalError && m@ == "Failed to get user directories: "@
                + message@),
    {
        self.phase = UploadPhase::Done;
        let mut actions: Vec<Action> = Vec::new();
        actions.push(
            Action::RespondError {
                code: ErrorCode::InternalError,
                message: str_concat("Failed to get user directories: ", message.as_str()),
            },
        );
        actions
    }

    /// Both directories exist: open the job row.
    pub fn on_dirs_ready(&mut self) -> (actions: Vec<Action>)
        requires
            old(self).inv(),
            old(self).phase == UploadPhase::Resolving,
        ensures
            final(self).inv(),
            old(self).same_request(*final(self)),
            final(self).phase == UploadPhase::CreatingJob,
            final(self).music_dir == old(self).music_dir,
            final(self).temp_dir == old(self).temp_dir,
            final(self).accepted_count == old(self).accepted_count,
            actions@.len() == 1,
            (actions@[0] matches Action::CreateJob { user_id, kind, source } && user_id == old(
                self,
            ).user_id && kind == JobKind::File && source@ == "multipart upload"@),
    {
        self.phase = UploadPhase::CreatingJob;
        let mut actions: Vec<Action> = Vec::new();
        actions.push(
            Action::CreateJob {
                user_id: self.user_id.clone(),
                kind: JobKind::File,
                source: String::from_str("multipart upload"),
            },
        );
        actions
    }

    /// The job row exists: mark it processing.
    pub fn on_job_created(&mut self, job_id: i64) -> (actions: Vec<Action>)
        requires
            old(self).inv(),
            old(self).phase == UploadPhase::CreatingJob,
        ensures
            final(self).inv(),
            old(self).same_request(*final(self)),
            final(self).phase == UploadPhase::MarkingProcessing,
            final(self).job_id == Some(job_id),
            final(self).music_dir == old(self).music_dir,
            final(self).temp_dir == old(self).temp_dir,
            final(self).accepted_count == old(self).accepted_count,
            actions@.len() == 1,
            (actions@[0] matches Action::SetStatus { job_id: j, status, file_count, error_message }
                && j == job_id && status == JobStatus::Processing && file_count is None
                && error_message is None),
    {
        self.job_id = Some(job_id);
        self.phase = UploadPhase::MarkingProcessing;
        let mut actions: Vec<Action> = Vec::new();
        actions.push(
            Action::SetStatus {
                job_id,
                status: JobStatus::Processing,
                file_count: None,
                error_message: None,
            },
        );
        actions
    }

    /// The job row could not be created: the request aborts.
    pub fn on_job_create_failed(&mut self, message: String) -> (actions: Vec<Action>)
        requires
            old(self).inv(),
            old(self).phase == UploadPhase::CreatingJob,
        ensures
            final(self).inv(),
            old(self).same_request(*final(self)),
            final(self).phase == UploadPhase::Done,
            actions@.len() == 1,
            (actions@[0] matches Action::RespondError { code, message: m } && code
                == ErrorCode::InternalError && m@ == "Failed to create upload log: "@ + message@),
    {
        self.phase = UploadPhase::Done;
        let mut actions: Vec<Action> = Vec::new();
        actions.push(
            Action::RespondError {
                code: ErrorCode::InternalError,
                message: str_concat("Failed to create upload log: ", message.as_str()),
            },
        );
        actions
    }

    /// A status write came back.  Marking `processing` and recording
    /// `completed` must succeed or the request aborts; recording a failure
    /// is best-effort - the failure response goes out either way.
    pub fn on_status_written(&mut self, result: Result<(), String>) -> (actions: Vec<Action>)
        requires
            old(self).inv(),
            old(self).phase == UploadPhase::MarkingProcessing || old(self).phase
                == UploadPhase::RecordingCompletion || old(self).phase
                == UploadPhase::RecordingFailure,
        ensures
            final(self).inv(),
            old(self).same_request(*final(self)),
            (old(self).phase == UploadPhase::MarkingProcessing && result is Ok) ==> {
                &&& final(self).phase == UploadPhase::ReceivingFiles
                &&& final(self).music_dir == old(self).music_dir
                &&& final(self).temp_dir == old(self).temp_dir
                &&& final(self).job_id == old(self).job_id
                &&& final(self).accepted_count == old(self).accepted_count
                &&& actions@.len() == 1
                &&& actions@[0] is NextField
            },
            result matches Err(m) ==> (old(self).phase == UploadPhase::MarkingProcessing || old(
                self,
            ).phase == UploadPhase::RecordingCompletion) ==> {
                &&& final(self).phase == UploadPhase::Done
                &&& actions@.len() == 1
                &&& (actions@[0] matches Action::RespondError { code, message } && code
                    == ErrorCode::InternalError && message@ == "Failed to update log: "@ + m@)
            },
            (old(self).phase == UploadPhase::RecordingCompletion && result is Ok) ==> {
                &&& final(self).phase == UploadPhase::Done
                &&& actions@.len() == 1
                &&& (actions@[0] matches Action::Respond { response } && response.success == true
                    && response.message@ == "Successfully uploaded and processed "@ + spec_decimal(
                    old(self).accepted_count as nat,
                ) + " file(s)"@ && response.log_id == Some(old(self).job_id->0)
                    && response.session_id is None)
            },
            old(self).phase == UploadPhase::RecordingFailure ==> {
                &&& final(self).phase == UploadPhase::Done
                &&& actions@.len() == 1
                &&& (actions@[0] matches Action::RespondError { code, message } && code == old(
                    self,
                ).pending->0.code && message == old(self).pending->0.message)
            },
    {
        let mut actions: Vec<Action> = Vec::new();
        match self.phase {
            UploadPhase::MarkingProcessing => {
                match result {
                    Ok(()) => {
                        self.phase = UploadPhase::ReceivingFiles;
                        actions.push(Action::NextField);
                    },
                    Err(m) => {
                        actions.push(
                            Action::RespondError {
                                code: ErrorCode::InternalError,
                                message: str_concat("Failed to update log: ", m.as_str()),
                            },
                        );
                        self.phase = UploadPhase::Done;
                    },
                }
            },
            UploadPhase::RecordingCompletion => {
                match result {
                    Ok(()) => {
                        let job_id = match self.job_id {
                            Some(j) => j,
                            None => unreached(),
                        };
                        let n = u64_to_string(self.accepted_count as u64);
                        let head = str_concat(
                            "Successfully uploaded and processed ",
                            n.as_str(),
                        );
                        let message = str_concat(head.as_str(), " file(s)");
                        actions.push(
                            Action::Respond {
                                response: UploadResponse {
                                    success: true,
                                    message,
                                    log_id: Some(job_id),
                                    session_id: None,
                                },
                            },
                        );
                        self.phase = UploadPhase::Done;
                    },
                    Err(m) => {
                        actions.push(
                            Action::RespondError {
                                code: ErrorCode::InternalError,
                                message: str_concat("Failed to update log: ", m.as_str()),
                            },
                        );
                        self.phase = UploadPhase::Done;
                    },
                }
            },
            UploadPhase::RecordingFailure => {
                let pending = match self.pending.take() {
                    Some(p) => p,
                    None => unreached(),
                };
                actions.push(
                    Action::RespondError { code: pending.code, message: pending.message },
                );
                self.phase = UploadPhase::Done;
            },
            _ => {
                proof {
                    assert(false);
                }
            },
        }
        actions
    }

    /// One multipart field arrived.  A field without a filename is skipped;
    /// a file breaking any acceptance rule fails the whole job at once with
    /// that rule's message; an accepted file is streamed to the temp
    /// directory under its sanitised name.
    pub fn on_field(&mut self, filename: Option<String>, size: u64) -> (actions: Vec<Action>)
        requires
            old(self).inv(),
            old(self).phase == UploadPhase::ReceivingFiles,
        ensures
            final(self).inv(),
            old(self).same_request(*final(self)),
            final(self).accepted_count == old(self).accepted_count,
            final(self).job_id == old(self).job_id,
            filename is None ==> {
                &&& final(self).phase == UploadPhase::ReceivingFiles
                &&& actions@.len() == 1
                &&& actions@[0] is NextField
            },
            filename matches Some(name) ==> spec_upload_ok(name@, size, old(self).config.upload)
                ==> {
                &&& final(self).phase == UploadPhase::SavingFile
                &&& final(self).music_dir == old(self).music_dir
                &&& final(self).temp_dir == old(self).temp_dir
                &&& actions@.len() == 1
                &&& (actions@[0] matches Action::SaveFile { path } && path@ == old(
                    self,
                ).temp_dir->0@ + "/"@ + last_component(name@))
            },
            filename matches Some(name) ==> !spec_upload_ok(name@, size, old(self).config.upload)
                ==> {
                &&& final(self).phase == UploadPhase::RecordingFailure
                &&& (final(self).pending matches Some(p) && p.code == ErrorCode::BadRequest
                    && p.message@ == spec_upload_reject_message(
                    name@,
                    size,
                    old(self).config.upload,
                ))
                &&& actions@.len() == 2
                &&& (actions@[0] matches Action::CleanupTemp { temp_dir } && temp_dir == old(
                    self,
                ).temp_dir->0)
                &&& (actions@[1] matches Action::SetStatus {
                    job_id,
                    status,
                    file_count,
                    error_message,
                } && job_id == old(self).job_id->0 && status == JobStatus::Failed && file_count
                    == Some(old(self).accepted_count as i64) && (error_message matches Some(em)
                    && em@ == spec_upload_reject_message(name@, size, old(self).config.upload)))
            },
    {
        let mut actions: Vec<Action> = Vec::new();
        match filename {
            None => {
                actions.push(Action::NextField);
            },
            Some(name) => {
                match check_upload_file(name.as_str(), size, &self.config.upload) {
                    Ok(sanitized) => {
                        let temp = match &self.temp_dir {
                            Some(t) => t.clone(),
                            None => unreached(),
                        };
                        let with_sep = str_concat(temp.as_str(), "/");
                        let path = str_concat(with_sep.as_str(), sanitized.as_str());
                        self.phase = UploadPhase::SavingFile;
                        actions.push(Action::SaveFile { path });
                    },
                    Err(rej) => {
                        let temp = match &self.temp_dir {
                            Some(t) => t.clone(),
                            None => unreached(),
                        };
                        let job_id = match self.job_id {
                            Some(j) => j,
                            None => unreached(),
                        };
                        self.pending = Some(
                            PendingError {
                                code: ErrorCode::BadRequest,
                                message: rej.message.clone(),
                            },
                        );
                        self.phase = UploadPhase::RecordingFailure;
                        actions.push(Action::CleanupTemp { temp_dir: temp });
                        actions.push(
                            Action::SetStatus {
                                job_id,
                                status: JobStatus::Failed,
                                file_count: Some(self.accepted_count as i64),
                                error_message: Some(rej.message),
                            },
                        );
                    },
                }
            },
        }
        actions
    }

    /// The accepted file was written - count it and ask for the next field -
    /// or the write failed, which fails the job.
    pub fn on_file_saved(&mut self, result: Result<(), String>) -> (actions: Vec<Action>)
        requires
            old(self).inv(),
            old(self).phase == UploadPhase::SavingFile,
        ensures
            final(self).inv(),
            old(self).same_request(*final(self)),
            final(self).job_id == old(self).job_id,
            result is Ok ==> {
                &&& final(self).phase == UploadPhase::ReceivingFiles
                &&& final(self).music_dir == old(self).music_dir
                &&& final(self).temp_dir == old(self).temp_dir
                &&& final(self).accepted_count == (if old(self).accepted_count < u32::MAX {
                    old(self).accepted_count + 1
                } else {
                    old(self).accepted_count as int
                })
                &&& actions@.len() == 1
                &&& actions@[0] is NextField
            },
            result matches Err(m) ==> {
                &&& final(self).phase == UploadPhase::RecordingFailure
                &&& (final(self).pending matches Some(p) && p.code == ErrorCode::InternalError
                    && p.message@ == "Failed to write file: "@ + m@)
                &&& final(self).accepted_count == old(self).accepted_count
                &&& actions@.len() == 2
                &&& (actions@[0] matches Action::CleanupTemp { temp_dir } && temp_dir == old(
                    self,
                ).temp_dir->0)
                &&& (actions@[1] matches Action::SetStatus {
                    job_id,
                    status,
                    file_count,
                    error_message,
                } && job_id == old(self).job_id->0 && status == JobStatus::Failed && file_count
                    == Some(old(self).accepted_count as i64) && (error_message matches Some(em)
                    && em@ == "Failed to write file: "@ + m@))
            },
    {
        let mut actions: Vec<Action> = Vec::new();
        match result {
            Ok(()) => {
                if self.accepted_count < u32::MAX {
                    self.accepted_count = self.accepted_count + 1;
                }
                self.phase = UploadPhase::ReceivingFiles;
                actions.push(Action::NextField);
            },
            Err(m) => {
                let temp = match &self.temp_dir {
                    Some(t) => t.clone(),
                    None => unreached(),
                };
                let job_id = match self.job_id {
                    Some(j) => j,
                    None => unreached(),
                };
                let message = str_concat("Failed to write file: ", m.as_str());
                self.pending = Some(
                    PendingError { code: ErrorCode::InternalError, message: message.clone() },
                );
                self.phase = UploadPhase::RecordingFailure;
                actions.push(Action::CleanupTemp { temp_dir: temp });
                actions.push(
                    Action::SetStatus {
                        job_id,
                        status: JobStatus::Failed,
                        file_count: Some(self.accepted_count as i64),
                        error_message: Some(message),
                    },
                );
            },
        }
        actions
    }

    /// The multipart body ended.  With nothing accepted the job fails; with
    /// files on disk the organizer flag decides what happens next.
    pub fn on_end_of_fields(&mut self) -> (actions: Vec<Action>)
        requires
            old(self).inv(),
            old(self).phase == UploadPhase::ReceivingFiles,
        ensures
            final(self).inv(),
            old(self).same_request(*final(self)),
            final(self).accepted_count == old(self).accepted_count,
            final(self).job_id == old(self).job_id,
            old(self).accepted_count == 0 ==> {
                &&& final(self).phase == UploadPhase::RecordingFailure
                &&& (final(self).pending matches Some(p) && p.code == ErrorCode::BadRequest
                    && p.message@ == "No files uploaded"@)
                &&& actions@.len() == 1
                &&& (actions@[0] matches Action::SetStatus {
                    job_id,
                    status,
                    file_count,
                    error_message,
                } && job_id == old(self).job_id->0 && status == JobStatus::Failed && file_count
                    == Some(0int as i64) && (error_message matches Some(em) && em@
                    == "No files uploaded"@))
            },
            old(self).accepted_count > 0 ==> {
                &&& final(self).phase == UploadPhase::ReadingFlag
                &&& final(self).music_dir == old(self).music_dir
                &&& final(self).temp_dir == old(self).temp_dir
                &&& actions@.len() == 1
                &&& (actions@[0] matches Action::ReadSetting { key } && key@ == "ferric_enabled"@)
            },
    {
        let mut actions: Vec<Action> = Vec::new();
        if self.accepted_count == 0 {
            let job_id = match self.job_id {
                Some(j) => j,
                None => unreached(),
            };
            self.pending = Some(
                PendingError {
                    code: ErrorCode::BadRequest,
                    message: String::from_str("No files uploaded"),
                },
            );
            self.phase = UploadPhase::RecordingFailure;
            actions.push(
                Action::SetStatus {
                    job_id,
                    status: JobStatus::Failed,
                    file_count: Some(0),
                    error_message: Some(String::from_str("No files uploaded")),
                },
            );
        } else {
            self.phase = UploadPhase::ReadingFlag;
            actions.push(Action::ReadSetting { key: String::from_str("ferric_enabled") });
        }
        actions
    }

    /// The runtime organizer flag arrived: tagging tool or direct move.
    pub fn on_setting_value(&mut self, value: Option<String>) -> (actions: Vec<Action>)
        requires
            old(self).inv(),
            old(self).phase == UploadPhase::ReadingFlag,
        ensures
            final(self).inv(),
            old(self).same_request(*final(self)),
            final(self).phase == UploadPhase::Finishing,
            final(self).music_dir == old(self).music_dir,
            final(self).temp_dir == old(self).temp_dir,
            final(self).job_id == old(self).job_id,
            final(self).accepted_count == old(self).accepted_count,
            spec_effective_flag(value.deep_view(), old(self).config.paths.ferric_enabled) ==> {
                &&& actions@.len() == 1
                &&& (actions@[0] matches Action::RunTagger { program, args } && program == old(
                    self,
                ).config.paths.ferric_path && args.deep_view() == crate::runner::spec_ferric_args(
                    old(self).temp_dir->0@,
                    old(self).music_dir->0@,
                ))
            },
            !spec_effective_flag(value.deep_view(), old(self).config.paths.ferric_enabled) ==> {
                &&& actions@.len() == 1
                &&& (actions@[0] matches Action::MoveTempFiles { temp_dir, music_dir } && temp_dir
                    == old(self).temp_dir->0 && music_dir == old(self).music_dir->0)
            },
    {
        let ferric = effective_flag(&value, self.config.paths.ferric_enabled);
        let temp = match &self.temp_dir {
            Some(t) => t.clone(),
            None => unreached(),
        };
        let music = match &self.music_dir {
            Some(m) => m.clone(),
            None => unreached(),
        };
        self.phase = UploadPhase::Finishing;
        let mut actions: Vec<Action> = Vec::new();
        if ferric {
            let args = crate::runner::build_ferric_args(temp.as_str(), music.as_str());
            actions.push(
                Action::RunTagger { program: self.config.paths.ferric_path.clone(), args },
            );
        } else {
            actions.push(Action::MoveTempFiles { temp_dir: temp, music_dir: music });
        }
        actions
    }

    /// Tagging or the direct move finished; record the job's terminal state.
    pub fn on_finish_result(&mut self, result: Result<(), String>) -> (actions: Vec<Action>)
        requires
            old(self).inv(),
            old(self).phase == UploadPhase::Finishing,
        ensures
            final(self).inv(),
            old(self).same_request(*final(self)),
            final(self).accepted_count == old(self).accepted_count,
            final(self).job_id == old(self).job_id,
            result is Ok ==> {
                &&& final(self).phase == UploadPhase::RecordingCompletion
                &&& actions@.len() == 2
                &&& (actions@[0] matches Action::CleanupTemp { temp_dir } && temp_dir == old(
                    self,
                ).temp_dir->0)
                &&& (actions@[1] matches Action::SetStatus {
                    job_id,
                    status,
                    file_count,
                    error_message,
                } && job_id == old(self).job_id->0 && status == JobStatus::Completed && file_count
                    == Some(old(self).accepted_count as i64) && error_message is None)
            },
            result matches Err(m) ==> {
                &&& final(self).phase == UploadPhase::RecordingFailure
                &&& (final(self).pending matches Some(p) && p.code == ErrorCode::InternalError
                    && p.message@ == "Processing failed: "@ + m@)
                &&& actions@.len() == 2
                &&& (actions@[0] matches Action::CleanupTemp { temp_dir } && temp_dir == old(
                    self,
                ).temp_dir->0)
                &&& (actions@[1] matches Action::SetStatus {
                    job_id,
                    status,
                    file_count,
                    error_message,
                } && job_id == old(self).job_id->0 && status == JobStatus::Failed && file_count
                    == Some(old(self).accepted_count as i64) && (error_message matches Some(em)
                    && em@ == "Processing failed: "@ + m@))
            },
    {
        let temp = match &self.temp_dir {
            Some(t) => t.clone(),
            None => unreached(),
        };
        let job_id = match self.job_id {
            Some(j) => j,
            None => unreached(),
        };
        let mut actions: Vec<Action> = Vec::new();
        actions.push(Action::CleanupTemp { temp_dir: temp });
        match result {
            Ok(()) => {
                self.phase = UploadPhase::RecordingCompletion;
                actions.push(
                    Action::SetStatus {
                        job_id,
                        status: JobStatus::Completed,
                        file_count: Some(self.accepted_count as i64),
                        error_message: None,
                    },
                );
            },
            Err(m) => {
                let message = str_concat("Processing failed: ", m.as_str());
                self.pending = Some(
                    PendingError { code: ErrorCode::InternalError, message: message.clone() },
                );
                self.phase = UploadPhase::RecordingFailure;
                actions.push(
                    Action::SetStatus {
                        job_id,
                        status: JobStatus::Failed,
                        file_count: Some(self.accepted_count as i64),
                        error_message: Some(message),
                    },
                );
            },
        }
        actions
    }
}

/// Law: whatever the configuration, the URL stands in the fetch tool's
/// argument vector as one literal entry - the last one for the video
/// platform's tool, the second one for the streaming platform's tool - and
/// nothing else of the vector depends on it.
pub proof fn lemma_fetch_args_carry_url(
    config: Config,
    kind: RemoteKind,
    temp_dir: Seq<char>,
    url: Seq<char>,
)
    ensures
        kind == RemoteKind::Youtube ==> spec_fetch_args(config, kind, temp_dir, url).last()
            == url,
        kind == RemoteKind::Spotify ==> spec_fetch_args(config, kind, temp_dir, url)[1] == url,
{
    match kind {
        RemoteKind::Youtube => {
            let args = spec_ytdlp_args(config.youtube, temp_dir, url);
            assert(args.last() == url);
        },
        RemoteKind::Spotify => {
            assert(spec_spotdl_args(config.spotify, temp_dir, url)[1] == url);
        },
    }
}

} // verus!
