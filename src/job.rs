//! The job data model: status, failure reasons, output and the snapshot that
//! observers receive.
use vstd::prelude::*;

verus! {

/// Process-unique job identifier (a hyphenated UUIDv4 string).
pub type JobId = String;

/// What a joined external process printed.
#[derive(Clone, Debug)]
pub struct JobOutput {
    pub stdout: String,
    pub stderr: String,
}

#[derive(Debug, Clone)]
pub enum JobFailureReason {
    TimedOut,
    SetupError(String),
    JobProcessError,
}

#[derive(Clone, Debug)]
pub enum JobStatus {
    Pending,
    Finished,
    Failed(JobFailureReason),
    Queued,
}

/// Snapshot of a job, returned on query and broadcast to observers.
#[derive(Debug, Clone)]
pub struct JobData {
    pub status: JobStatus,
    /// Present exactly when the external process was launched and joined.
    pub job_output: Option<JobOutput>,
}

/// `Finished` and `Failed` are the terminal states.
pub open spec fn status_is_terminal(s: JobStatus) -> bool {
    s is Finished || s is Failed
}

/// The statuses in which a joined process stands behind the job.
pub open spec fn status_has_joined_process(s: JobStatus) -> bool {
    s is Finished || (s is Failed && s->Failed_0 is JobProcessError)
}

/// A snapshot is consistent when it carries output exactly for the states in
/// which the process was joined.
pub open spec fn job_data_consistent(d: JobData) -> bool {
    d.job_output is Some <==> status_has_joined_process(d.status)
}

/// Character-wise equality of two strings.
pub fn str_eq(a: &str, b: &str) -> (r: bool)
    ensures
        r == (a@ == b@),
{
    let n = a.unicode_len();
    let m = b.unicode_len();
    if n != m {
        return false;
    }
    let mut i: usize = 0;
    while i < n
        invariant
            n == a@.len(),
            m == b@.len(),
            n == m,
            i <= n,
            forall|k: int| 0 <= k < i ==> a@[k] == b@[k],
        decreases n - i,
    {
        if a.get_char(i) != b.get_char(i) {
            return false;
        }
        i += 1;
    }
    assert(a@ =~= b@);
    true
}

impl JobOutput {
    pub fn duplicate(&self) -> (r: JobOutput)
        ensures
            r == *self,
    {
        JobOutput { stdout: self.stdout.clone(), stderr: self.stderr.clone() }
    }
}

impl JobFailureReason {
    pub fn duplicate(&self) -> (r: JobFailureReason)
        ensures
            r == *self,
    {
        match self {
            JobFailureReason::TimedOut => JobFailureReason::TimedOut,
            JobFailureReason::SetupError(m) => JobFailureReason::SetupError(m.clone()),
            JobFailureReason::JobProcessError => JobFailureReason::JobProcessError,
        }
    }
}

impl JobStatus {
    pub fn duplicate(&self) -> (r: JobStatus)
        ensures
            r == *self,
    {
        match self {
            JobStatus::Pending => JobStatus::Pending,
            JobStatus::Finished => JobStatus::Finished,
            JobStatus::Failed(f) => JobStatus::Failed(f.duplicate()),
            JobStatus::Queued => JobStatus::Queued,
        }
    }

    pub fn is_terminal(&self) -> (r: bool)
        ensures
            r == status_is_terminal(*self),
    {
        match self {
            JobStatus::Finished | JobStatus::Failed(_) => true,
            _ => false,
        }
    }
}

impl JobData {
    pub fn duplicate(&self) -> (r: JobData)
        ensures
            r == *self,
    {
        let job_output = match &self.job_output {
            Some(o) => Some(o.duplicate()),
            None => None,
        };
        JobData { status: self.status.duplicate(), job_output }
    }
}

} // verus!
