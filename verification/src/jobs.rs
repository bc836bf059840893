//! The persisted job log.
//!
//! Every acquisition attempt is tracked as one job row whose status walks the
//! forward-only lifecycle `pending -> processing -> completed | failed`.  The
//! store enforces that walk: a backward or repeated transition is refused,
//! entering a terminal state stamps the completion time in the same write,
//! and an error message is accepted exactly when the new status is `failed`.

use vstd::prelude::*;

verus! {

/// The lifecycle states of a job.
#[derive(Debug, Clone, Copy, PartialEq, Eq, Structural)]
pub enum JobStatus {
    Pending,
    Processing,
    Completed,
    Failed,
}

impl JobStatus {
    pub open spec fn is_terminal(self) -> bool {
        self == JobStatus::Completed || self == JobStatus::Failed
    }

    /// The status value as the store persists it.
    pub open spec fn spec_str(self) -> Seq<char> {
        match self {
            JobStatus::Pending => "pending"@,
            JobStatus::Processing => "processing"@,
            JobStatus::Completed => "completed"@,
            JobStatus::Failed => "failed"@,
        }
    }

    pub fn as_str(&self) -> (r: &'static str)
        ensures
            r@ == self.spec_str(),
    {
        match self {
            JobStatus::Pending => "pending",
            JobStatus::Processing => "processing",
            JobStatus::Completed => "completed",
            JobStatus::Failed => "failed",
        }
    }
}

/// What kind of acquisition a job is.
#[derive(Debug, Clone, Copy, PartialEq, Eq, Structural)]
pub enum JobKind {
    File,
    Youtube,
    Spotify,
}

impl JobKind {
    /// The kind value as the store persists it.
    pub open spec fn spec_str(self) -> Seq<char> {
        match self {
            JobKind::File => "file"@,
            JobKind::Youtube => "youtube"@,
            JobKind::Spotify => "spotify"@,
        }
    }

    pub fn as_str(&self) -> (r: &'static str)
        ensures
            r@ == self.spec_str(),
    {
        match self {
            JobKind::File => "file",
            JobKind::Youtube => "youtube",
            JobKind::Spotify => "spotify",
        }
    }
}

/// One legal forward step of the lifecycle.
pub open spec fn can_transition(from: JobStatus, to: JobStatus) -> bool {
    ||| (from == JobStatus::Pending && to == JobStatus::Processing)
    ||| (from == JobStatus::Processing && to == JobStatus::Completed)
    ||| (from == JobStatus::Processing && to == JobStatus::Failed)
}

/// Law: the lifecycle is forward-only - no step leaves a terminal state,
/// and no step returns to `pending`.
pub proof fn lemma_transitions_forward_only(from: JobStatus, to: JobStatus)
    ensures
        from.is_terminal() ==> !can_transition(from, to),
        !can_transition(from, JobStatus::Pending),
{
}

/// One persisted job row.
#[derive(Debug)]
pub struct UploadLog {
    pub id: i64,
    pub user_id: String,
    pub upload_type: JobKind,
    pub source: String,
    pub status: JobStatus,
    pub file_count: Option<i64>,
    pub error_message: Option<String>,
    pub created_at: i64,
    pub completed_at: Option<i64>,
}

impl Clone for UploadLog {
    fn clone(&self) -> (res: Self)
        ensures
            res == self,
    {
        UploadLog {
            id: self.id,
            user_id: self.user_id.clone(),
            upload_type: self.upload_type,
            source: self.source.clone(),
            status: self.status,
            file_count: self.file_count,
            error_message: match &self.error_message {
                Some(m) => Some(m.clone()),
                None => None,
            },
            created_at: self.created_at,
            completed_at: self.completed_at,
        }
    }
}

impl UploadLog {
    /// The invariant of one row: a completion time exactly in terminal
    /// states, an error message exactly on failure.
    pub open spec fn well_formed(self) -> bool {
        &&& (self.completed_at is Some <==> self.status.is_terminal())
        &&& (self.error_message is Some <==> self.status == JobStatus::Failed)
    }
}

/// The fields a caller supplies when opening a job.
#[derive(Debug, Clone)]
pub struct CreateUploadLog {
    pub user_id: String,
    pub upload_type: JobKind,
    pub source: String,
}

/// Why a store operation was refused.
#[derive(Debug, Clone, Copy, PartialEq, Eq, Structural)]
pub enum JobStoreError {
    /// No job carries the given id.
    NotFound,
    /// The requested status change walks the lifecycle backwards or skips a
    /// state.
    InvalidTransition,
    /// An error message was supplied without failing, or failing without one.
    MisplacedErrorMessage,
    /// Every id has been assigned.
    Exhausted,
}

/// The job log: rows in creation order, id `i + 1` at position `i`.
pub struct JobStore {
    jobs: Vec<UploadLog>,
}

impl View for JobStore {
    type V = Seq<UploadLog>;

    closed spec fn view(&self) -> Seq<UploadLog> {
        self.jobs@
    }
}

/// The row as it is first persisted.
pub open spec fn spec_new_job(log: CreateUploadLog, id: i64, now: i64) -> UploadLog {
    UploadLog {
        id: id,
        user_id: log.user_id,
        upload_type: log.upload_type,
        source: log.source,
        status: JobStatus::Pending,
        file_count: None,
        error_message: None,
        created_at: now,
        completed_at: None,
    }
}

/// The row after a successful status write.
pub open spec fn spec_updated_job(
    job: UploadLog,
    status: JobStatus,
    file_count: Option<i64>,
    error_message: Option<String>,
    now: i64,
) -> UploadLog {
    UploadLog {
        status: status,
        file_count: if file_count is Some {
            file_count
        } else {
            job.file_count
        },
        error_message: if status == JobStatus::Failed {
            error_message
        } else {
            job.error_message
        },
        completed_at: if status.is_terminal() {
            Some(now)
        } else {
            job.completed_at
        },
        ..job
    }
}

impl JobStore {
    pub closed spec fn inv(&self) -> bool {
        &&& forall|i: int|
            0 <= i < self.jobs@.len() ==> (#[trigger] self.jobs@[i]).well_formed()
        &&& forall|i: int| 0 <= i < self.jobs@.len() ==> (#[trigger] self.jobs@[i]).id == i + 1
        &&& self.jobs@.len() <= i64::MAX
    }

    pub fn new() -> (r: JobStore)
        ensures
            r.inv(),
            r@ == Seq::<UploadLog>::empty(),
    {
        let r = JobStore { jobs: Vec::new() };
        proof {
            assert(r@ =~= Seq::<UploadLog>::empty());
        }
        r
    }

    /// Open a new job in the `pending` state; its id is one past the last.
    pub fn create_upload_log(&mut self, log: CreateUploadLog, now: i64) -> (r: Result<
        i64,
        JobStoreError,
    >)
        requires
            old(self).inv(),
        ensures
            final(self).inv(),
            match r {
                Ok(id) => {
                    &&& id == old(self)@.len() + 1
                    &&& final(self)@ == old(self)@.push(spec_new_job(log, id, now))
                },
                Err(e) => {
                    &&& e == JobStoreError::Exhausted
                    &&& old(self)@.len() + 1 > i64::MAX
                    &&& final(self)@ == old(self)@
                },
            },
            old(self)@.len() + 1 <= i64::MAX ==> r is Ok,
    {
        if self.jobs.len() as u64 >= i64::MAX as u64 {
            return Err(JobStoreError::Exhausted);
        }
        let id = self.jobs.len() as i64 + 1;
        let job = UploadLog {
            id: id,
            user_id: log.user_id,
            upload_type: log.upload_type,
            source: log.source,
            status: JobStatus::Pending,
            file_count: None,
            error_message: None,
            created_at: now,
            completed_at: None,
        };
        self.jobs.push(job);
        Ok(id)
    }

    /// Write a status change.  `file_count` is recorded when supplied;
    /// `error_message` must be supplied exactly when the new status is
    /// `failed`; entering a terminal state stamps `completed_at` with `now`.
    pub fn update_upload_log_status(
        &mut self,
        id: i64,
        status: JobStatus,
        file_count: Option<i64>,
        error_message: Option<String>,
        now: i64,
    ) -> (r: Result<(), JobStoreError>)
        requires
            old(self).inv(),
        ensures
            final(self).inv(),
            match r {
                Ok(()) => {
                    &&& 1 <= id <= old(self)@.len()
                    &&& can_transition(old(self)@[id - 1].status, status)
                    &&& (error_message is Some <==> status == JobStatus::Failed)
                    &&& final(self)@ == old(self)@.update(
                        id - 1,
                        spec_updated_job(old(self)@[id - 1], status, file_count, error_message, now),
                    )
                },
                Err(e) => {
                    &&& final(self)@ == old(self)@
                    &&& (e == JobStoreError::NotFound <==> !(1 <= id <= old(self)@.len()))
                    &&& (e == JobStoreError::InvalidTransition ==> 1 <= id <= old(self)@.len()
                        && !can_transition(old(self)@[id - 1].status, status))
                    &&& (e == JobStoreError::MisplacedErrorMessage ==> 1 <= id <= old(self)@.len()
                        && can_transition(old(self)@[id - 1].status, status) && !(error_message
                        is Some <==> status == JobStatus::Failed))
                    &&& (e == JobStoreError::NotFound || e == JobStoreError::InvalidTransition || e
                        == JobStoreError::MisplacedErrorMessage)
                },
            },
            (1 <= id <= old(self)@.len() && can_transition(old(self)@[id - 1].status, status) && (
            error_message is Some <==> status == JobStatus::Failed)) ==> r is Ok,
    {
        if id < 1 {
            return Err(JobStoreError::NotFound);
        }
        if (id - 1) as u64 >= self.jobs.len() as u64 {
            return Err(JobStoreError::NotFound);
        }
        let idx = (id - 1) as u64 as usize;
        let from = self.jobs[idx].status;
        let allowed = match (from, status) {
            (JobStatus::Pending, JobStatus::Processing) => true,
            (JobStatus::Processing, JobStatus::Completed) => true,
            (JobStatus::Processing, JobStatus::Failed) => true,
            _ => false,
        };
        if !allowed {
            return Err(JobStoreError::InvalidTransition);
        }
        let failing = match status {
            JobStatus::Failed => true,
            _ => false,
        };
        let has_message = error_message.is_some();
        if failing != has_message {
            return Err(JobStoreError::MisplacedErrorMessage);
        }
        let terminal = match status {
            JobStatus::Completed => true,
            JobStatus::Failed => true,
            _ => false,
        };
        let old_job = self.jobs[idx].clone();
        let updated = UploadLog {
            id: old_job.id,
            user_id: old_job.user_id,
            upload_type: old_job.upload_type,
            source: old_job.source,
            status: status,
            file_count: if file_count.is_some() {
                file_count
            } else {
                old_job.file_count
            },
            error_message: if failing {
                error_message
            } else {
                old_job.error_message
            },
            created_at: old_job.created_at,
            completed_at: if terminal {
                Some(now)
            } else {
                old_job.completed_at
            },
        };
        proof {
            assert(updated == spec_updated_job(
                old(self)@[id - 1],
                status,
                file_count,
                error_message,
                now,
            ));
        }
        self.jobs.set(idx, updated);
        Ok(())
    }

    /// The row carrying the given id, if any.
    pub fn get_job(&self, id: i64) -> (r: Option<&UploadLog>)
        ensures
            match r {
                Some(job) => 1 <= id <= self@.len() && *job == self@[id - 1],
                None => !(1 <= id <= self@.len()),
            },
    {
        if id < 1 {
            return None;
        }
        if (id - 1) as u64 >= self.jobs.len() as u64 {
            return None;
        }
        Some(&self.jobs[(id - 1) as u64 as usize])
    }

    pub fn len(&self) -> (r: usize)
        ensures
            r == self@.len(),
    {
        self.jobs.len()
    }

    /// Law: in a store satisfying its invariant, every row is well-formed -
    /// `failed` carries an error message, terminal states carry a completion
    /// time, a non-terminal row carries neither - and ids increase with
    /// creation order.
    pub proof fn lemma_job_lifecycle_fields(&self, i: int)
        requires
            self.inv(),
            0 <= i < self@.len(),
        ensures
            self@[i].well_formed(),
            self@[i].status == JobStatus::Failed ==> self@[i].error_message is Some,
            self@[i].status.is_terminal() <==> self@[i].completed_at is Some,
            !self@[i].status.is_terminal() ==> self@[i].error_message is None && self@[i
            ].completed_at is None,
            self@[i].id == i + 1,
            forall|j: int| i < j < self@.len() ==> self@[i].id < #[trigger] self@[j].id,
    {
    }
}

/// The rows returned for a log listing: newest first, optionally filtered to
/// one user, at most `limit` rows.
pub open spec fn spec_select_logs(
    jobs: Seq<UploadLog>,
    uid: Option<Seq<char>>,
    limit: int,
) -> Seq<UploadLog>
    decreases jobs.len(),
{
    if jobs.len() == 0 || limit <= 0 {
        Seq::empty()
    } else {
        let last = jobs.last();
        if uid is None || uid == Some(last.user_id@) {
            seq![last] + spec_select_logs(jobs.drop_last(), uid, limit - 1)
        } else {
            spec_select_logs(jobs.drop_last(), uid, limit)
        }
    }
}

impl JobStore {
    /// List jobs newest first, optionally filtered to one user.
    pub fn get_upload_logs(&self, user_id: Option<&String>, limit: usize) -> (r: Vec<UploadLog>)
        ensures
            r@ == spec_select_logs(self@, user_id.deep_view(), limit as int),
    {
        let mut out: Vec<UploadLog> = Vec::new();
        let mut i: usize = self.jobs.len();
        proof {
            assert(self@.subrange(0, self@.len() as int) =~= self@);
        }
        while i > 0 && out.len() < limit
            invariant
                i <= self@.len(),
                out@.len() <= limit,
                spec_select_logs(self@, user_id.deep_view(), limit as int) == out@
                    + spec_select_logs(
                    self@.subrange(0, i as int),
                    user_id.deep_view(),
                    limit - out@.len(),
                ),
            decreases i,
        {
            let ghost uid_v = user_id.deep_view();
            let ghost prev_out = out@;
            let ghost prev_left = limit - out@.len();
            let ghost sub = self@.subrange(0, i as int);
            let job = &self.jobs[i - 1];
            let keep = match user_id {
                None => true,
                Some(uid) => crate::strutil::str_eq_str(uid.as_str(), job.user_id.as_str()),
            };
            proof {
                assert(sub.last() == self@[i - 1]);
                assert(sub.drop_last() =~= self@.subrange(0, i - 1));
                assert(keep == (uid_v is None || uid_v == Some(self@[i - 1].user_id@)));
            }
            if keep {
                out.push(job.clone());
                proof {
                    let rest = spec_select_logs(self@.subrange(0, i - 1), uid_v, prev_left - 1);
                    assert(spec_select_logs(sub, uid_v, prev_left) == seq![self@[i - 1]] + rest);
                    assert(prev_out + (seq![self@[i - 1]] + rest) =~= out@ + rest);
                }
            }
            i -= 1;
        }
        proof {
            let rest = spec_select_logs(
                self@.subrange(0, i as int),
                user_id.deep_view(),
                limit - out@.len(),
            );
            if i == 0 {
                assert(self@.subrange(0, 0) =~= Seq::<UploadLog>::empty());
            }
            assert(rest =~= Seq::<UploadLog>::empty());
            assert(out@ + rest =~= out@);
        }
        out
    }
}

} // verus!
