//! The HTTP boundary: what each endpoint answers for each outcome of the core.
use crate::job_manager::{job_ids, queue_ids, JobEntry, JobManager, JobManagerVibeCheckResponse, NewJobResponse};
use crate::job_runner::OutputRequestError;
use crate::job_type::{Job, JobSpawnError, OutputKind};
use crate::messages::JobSpawnReply;
use vstd::prelude::*;
use vstd::string::*;

verus! {

pub const MSG_AT_CAPACITY: &'static str = "Server is at capacity. Please try again later.";

pub open spec fn spawn_status(r: Result<NewJobResponse, JobSpawnError>) -> u16 {
    match r {
        Ok(resp) => match resp.entry {
            JobEntry::Spawned => 201,
            JobEntry::Queued(_) => 202,
        },
        Err(JobSpawnError::InputValidation(_)) => 400,
        Err(JobSpawnError::TooManyJobs) => 503,
        Err(JobSpawnError::Other(_)) => 500,
    }
}

/// The answer to a submission: `201` when the job started, `202` with its
/// queue position when queued, `400` with the validation message, `503` at
/// capacity, `500` with the message of any other failure.
pub fn spawn_reply(result: Result<NewJobResponse, JobSpawnError>) -> (r: (u16, JobSpawnReply))
    ensures
        r.0 == spawn_status(result),
        result is Ok ==> r.1.job_id == Some(result->Ok_0.id) && r.1.error_message is None,
        result is Ok && result->Ok_0.entry is Spawned ==> r.1.queue_position is None,
        result is Ok && result->Ok_0.entry is Queued ==> r.1.queue_position == Some(
            result->Ok_0.entry->Queued_0,
        ),
        result is Err ==> r.1.job_id is None && r.1.queue_position is None
            && r.1.error_message is Some,
        result is Err && result->Err_0 is InputValidation ==> r.1.error_message == Some(
            result->Err_0->InputValidation_0,
        ),
        result is Err && result->Err_0 is Other ==> r.1.error_message == Some(
            result->Err_0->Other_0,
        ),
        result is Err && result->Err_0 is TooManyJobs ==> r.1.error_message->Some_0@
            == MSG_AT_CAPACITY@,
{
    match result {
        Ok(resp) => match resp.entry {
            JobEntry::Spawned => (
                201,
                JobSpawnReply { job_id: Some(resp.id), error_message: None, queue_position: None },
            ),
            JobEntry::Queued(pos) => (
                202,
                JobSpawnReply {
                    job_id: Some(resp.id),
                    error_message: None,
                    queue_position: Some(pos),
                },
            ),
        },
        Err(JobSpawnError::InputValidation(m)) => (
            400,
            JobSpawnReply { job_id: None, error_message: Some(m), queue_position: None },
        ),
        Err(JobSpawnError::TooManyJobs) => (
            503,
            JobSpawnReply {
                job_id: None,
                error_message: Some(String::from_str(MSG_AT_CAPACITY)),
                queue_position: None,
            },
        ),
        Err(JobSpawnError::Other(m)) => (
            500,
            JobSpawnReply { job_id: None, error_message: Some(m), queue_position: None },
        ),
    }
}

/// The answer to a request for a job's artifact.
pub enum OutputReply {
    NotFound,
    BadRequest(OutputRequestError),
    InternalError(String),
    /// Stream the file at this path.
    File(String),
}

impl OutputReply {
    pub open spec fn spec_status_code(&self) -> u16 {
        match self {
            OutputReply::NotFound => 404,
            OutputReply::BadRequest(_) => 400,
            OutputReply::InternalError(_) => 500,
            OutputReply::File(_) => 200,
        }
    }

    pub fn status_code(&self) -> (r: u16)
        ensures
            r == self.spec_status_code(),
    {
        match self {
            OutputReply::NotFound => 404,
            OutputReply::BadRequest(_) => 400,
            OutputReply::InternalError(_) => 500,
            OutputReply::File(_) => 200,
        }
    }
}

/// `404` for an unknown job; `400` while it is queued or running, when it
/// left no artifact or its type makes none of `kind`; otherwise the file to
/// stream. A failure to open that file is the host's `500`.
pub fn output_reply<J: Job>(manager: &JobManager<J>, id: &str, kind: OutputKind) -> (r: OutputReply)
    requires
        manager.wf(),
    ensures
        r is NotFound <==> !job_ids(manager.jobs@).contains(id@) && !queue_ids(
            manager.queue@,
        ).contains(id@),
        !job_ids(manager.jobs@).contains(id@) && queue_ids(manager.queue@).contains(id@) ==> r
            == OutputReply::BadRequest(OutputRequestError::JobStillPending),
        job_ids(manager.jobs@).contains(id@) ==> forall|i: int|
            0 <= i < manager.jobs.len() && #[trigger] manager.jobs@[i].runner.id@ == id@ ==> {
                let a = manager.jobs@[i].runner.output_answer(kind);
                &&& a is Ok ==> r is File && r->File_0@ == a->Ok_0
                &&& a is Err ==> r is BadRequest && r->BadRequest_0 == a->Err_0
            },
{
    match manager.request_output(id, kind) {
        Some(Ok(path)) => OutputReply::File(path),
        Some(Err(e)) => OutputReply::BadRequest(e),
        None => {
            if manager.lookup_job(id).is_some() {
                OutputReply::BadRequest(OutputRequestError::JobStillPending)
            } else {
                OutputReply::NotFound
            }
        },
    }
}

/// A limit read from configuration: unset takes `default`, zero means no limit.
pub fn limit_from_setting(raw: Option<usize>, default: usize) -> (r: Option<usize>)
    ensures
        raw is None ==> r == Some(default),
        raw == Some(0usize) ==> r is None,
        raw is Some && raw->Some_0 != 0 ==> r == raw,
{
    match raw {
        None => Some(default),
        Some(0) => None,
        Some(n) => Some(n),
    }
}

/// What the status endpoint reports.
pub struct VibeCheckResponse {
    pub queue_length: Option<usize>,
    pub max_queue_length: Option<usize>,
    pub active_jobs: usize,
    pub uptime: u64,
    pub version: String,
}

impl VibeCheckResponse {
    pub fn new(stats: JobManagerVibeCheckResponse, uptime: u64, version: &str) -> (r: VibeCheckResponse)
        ensures
            r.queue_length == stats.queue_length,
            r.max_queue_length == stats.max_queue_length,
            r.active_jobs == stats.active_jobs,
            r.uptime == uptime,
            r.version@ == version@,
    {
        VibeCheckResponse {
            queue_length: stats.queue_length,
            max_queue_length: stats.max_queue_length,
            active_jobs: stats.active_jobs,
            uptime,
            version: String::from_str(version),
        }
    }
}

} // verus!
