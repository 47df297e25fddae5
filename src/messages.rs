//! The values exchanged with clients: request bodies, replies and the frames
//! sent over a job's WebSocket.
use crate::job::{JobData, JobFailureReason, JobOutput, JobStatus};
use vstd::prelude::*;

verus! {

#[derive(PartialEq, Eq, Structural, Clone, Copy, Debug)]
pub enum JobStatusInfo {
    Pending,
    Finished,
    Failed,
    Queued,
}

#[derive(PartialEq, Eq, Structural, Clone, Copy, Debug)]
pub enum JobFailureInfo {
    TimedOut,
    JobProcessError,
    SetupError,
}

pub open spec fn failure_info_of(f: JobFailureReason) -> JobFailureInfo {
    match f {
        JobFailureReason::TimedOut => JobFailureInfo::TimedOut,
        JobFailureReason::SetupError(_) => JobFailureInfo::SetupError,
        JobFailureReason::JobProcessError => JobFailureInfo::JobProcessError,
    }
}

pub open spec fn status_info_of(s: JobStatus) -> JobStatusInfo {
    match s {
        JobStatus::Pending => JobStatusInfo::Pending,
        JobStatus::Finished => JobStatusInfo::Finished,
        JobStatus::Failed(_) => JobStatusInfo::Failed,
        JobStatus::Queued => JobStatusInfo::Queued,
    }
}

impl<'a> From<&'a JobFailureReason> for JobFailureInfo {
    fn from(value: &'a JobFailureReason) -> (r: JobFailureInfo) {
        match value {
            JobFailureReason::TimedOut => JobFailureInfo::TimedOut,
            JobFailureReason::SetupError(_) => JobFailureInfo::SetupError,
            JobFailureReason::JobProcessError => JobFailureInfo::JobProcessError,
        }
    }
}

impl<'a> vstd::std_specs::convert::FromSpecImpl<&'a JobFailureReason> for JobFailureInfo {
    open spec fn obeys_from_spec() -> bool {
        true
    }

    open spec fn from_spec(v: &'a JobFailureReason) -> JobFailureInfo {
        failure_info_of(*v)
    }
}

impl From<JobStatus> for JobStatusInfo {
    fn from(value: JobStatus) -> (r: JobStatusInfo) {
        match value {
            JobStatus::Pending => JobStatusInfo::Pending,
            JobStatus::Finished => JobStatusInfo::Finished,
            JobStatus::Failed(_) => JobStatusInfo::Failed,
            JobStatus::Queued => JobStatusInfo::Queued,
        }
    }
}

impl vstd::std_specs::convert::FromSpecImpl<JobStatus> for JobStatusInfo {
    open spec fn obeys_from_spec() -> bool {
        true
    }

    open spec fn from_spec(v: JobStatus) -> JobStatusInfo {
        status_info_of(v)
    }
}

/// One frame of the WebSocket protocol.
#[derive(Clone, Debug)]
pub struct WsJobDataUpdate {
    pub status: JobStatusInfo,
    /// Absent while the job runs, when it timed out, or when it failed before
    /// its process was joined.
    pub job_output: Option<JobOutput>,
    /// Present only when the job failed.
    pub failure_reason: Option<JobFailureInfo>,
    /// Present only when the job is queued.
    pub queue_position: Option<usize>,
    /// Present only for a `SetupError` failure.
    pub error_message: Option<String>,
}

/// The frame that reports a job snapshot.
pub open spec fn ws_update_of(d: JobData) -> WsJobDataUpdate {
    WsJobDataUpdate {
        status: status_info_of(d.status),
        job_output: d.job_output,
        failure_reason: if d.status is Failed {
            Some(failure_info_of(d.status->Failed_0))
        } else {
            None
        },
        queue_position: None,
        error_message: if d.status is Failed && d.status->Failed_0 is SetupError {
            Some(d.status->Failed_0->SetupError_0)
        } else {
            None
        },
    }
}

/// The frame that reports a queue position.
pub open spec fn ws_queue_update(pos: usize) -> WsJobDataUpdate {
    WsJobDataUpdate {
        status: JobStatusInfo::Queued,
        job_output: None,
        failure_reason: None,
        queue_position: Some(pos),
        error_message: None,
    }
}

impl WsJobDataUpdate {
    pub fn new_from_queue_pos(queue_pos: usize) -> (r: WsJobDataUpdate)
        ensures
            r == ws_queue_update(queue_pos),
    {
        WsJobDataUpdate {
            status: JobStatusInfo::Queued,
            job_output: None,
            failure_reason: None,
            queue_position: Some(queue_pos),
            error_message: None,
        }
    }
}

impl From<JobData> for WsJobDataUpdate {
    fn from(value: JobData) -> (r: WsJobDataUpdate) {
        let failure_reason = match &value.status {
            JobStatus::Failed(f) => Some(JobFailureInfo::from(f)),
            _ => None,
        };
        let error_message = match &value.status {
            JobStatus::Failed(JobFailureReason::SetupError(e)) => Some(e.clone()),
            _ => None,
        };
        WsJobDataUpdate {
            failure_reason,
            error_message,
            status: JobStatusInfo::from(value.status),
            job_output: value.job_output,
            queue_position: None,
        }
    }
}

impl vstd::std_specs::convert::FromSpecImpl<JobData> for WsJobDataUpdate {
    open spec fn obeys_from_spec() -> bool {
        true
    }

    open spec fn from_spec(v: JobData) -> WsJobDataUpdate {
        ws_update_of(v)
    }
}

#[derive(Clone, Debug)]
pub struct GenericErrorMessage {
    pub error_message: Option<String>,
}

/// Reply to a job submission.
#[derive(Clone, Debug)]
pub struct JobSpawnReply {
    /// Identifier of the new job; absent on error.
    pub job_id: Option<String>,
    /// Absent on success.
    pub error_message: Option<String>,
    /// 1-based position in the queue; absent when the job started at once.
    pub queue_position: Option<usize>,
}

/// Body of an Acedrg submission: exactly one input mode and extra flags.
#[derive(Clone, Debug)]
pub struct AcedrgArgs {
    /// Input SMILES string.
    pub smiles: Option<String>,
    /// Input mmCIF file, base64-encoded.
    pub input_mmcif_base64: Option<String>,
    /// Chemical-component code whose definition is fetched remotely.
    pub input_ccd_code: Option<String>,
    /// Extra arguments for Acedrg, from a fixed allow-list.
    pub commandline_args: Vec<String>,
}

} // verus!
