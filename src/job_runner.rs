//! One runner per spawned job: its status machine, its observers and the
//! answer to output requests.
use crate::job::{
    job_data_consistent, status_is_terminal, JobData,
    JobFailureReason, JobId, JobOutput, JobStatus,
};
use crate::job_type::{Job, OutputKind};
use vstd::prelude::*;

verus! {

/// Handle by which the host knows one observer (one WebSocket session).
pub type ObserverId = u64;

#[derive(Debug)]
pub enum OutputRequestError {
    /// The artifact could not be opened; carries the host's message.
    IOError(String),
    /// The job is queued or still running.
    JobStillPending,
    /// The job type makes no artifact of the requested kind.
    OutputKindNotSupported,
    /// The job ended without its process being joined, so it left no artifact.
    NoOutputProduced,
}

pub struct OutputFileRequest {
    pub kind: OutputKind,
}

/// What the worker saw when it joined the process, or gave up waiting.
pub enum WorkerResult {
    /// The deadline passed before the process was joined.
    TimedOut,
    /// Waiting for the process failed; carries the host's message.
    JoinError(String),
    /// The process exited; `success` tells whether its exit status was zero.
    Exited { success: bool, stdout: String, stderr: String },
}

/// One snapshot to be delivered to each listed observer.
pub struct Broadcast {
    pub observers: Vec<ObserverId>,
    pub data: JobData,
}

pub struct JobRunner<J> {
    pub id: JobId,
    pub data: JobData,
    /// Path of the working directory, once the job has been set up.
    pub workdir: Option<String>,
    pub job_object: J,
    pub observers: Vec<ObserverId>,
    /// Seconds (host clock) at which the terminal transition happened.
    pub terminal_at: Option<u64>,
}

/// The snapshot after the worker reports `r`.
pub open spec fn worker_result_data(r: WorkerResult) -> JobData {
    match r {
        WorkerResult::TimedOut => JobData {
            status: JobStatus::Failed(JobFailureReason::TimedOut),
            job_output: None,
        },
        WorkerResult::JoinError(m) => JobData {
            status: JobStatus::Failed(JobFailureReason::SetupError(m)),
            job_output: None,
        },
        WorkerResult::Exited { success, stdout, stderr } => JobData {
            status: if success {
                JobStatus::Finished
            } else {
                JobStatus::Failed(JobFailureReason::JobProcessError)
            },
            job_output: Some(JobOutput { stdout, stderr }),
        },
    }
}

/// The snapshot after a queued job's setup ends with `r`.
pub open spec fn initialize_data(r: Result<String, String>) -> JobData {
    match r {
        Ok(_) => JobData { status: JobStatus::Pending, job_output: None },
        Err(m) => JobData {
            status: JobStatus::Failed(JobFailureReason::SetupError(m)),
            job_output: None,
        },
    }
}

impl<J: Job> JobRunner<J> {
    /// Invariant: output exactly for joined processes, a terminal time exactly
    /// for terminal states, and a working directory once past `Queued`.
    pub open spec fn wf(&self) -> bool {
        &&& job_data_consistent(self.data)
        &&& (self.terminal_at is Some <==> status_is_terminal(self.data.status))
        &&& (self.data.status is Pending ==> self.workdir is Some)
        &&& (self.data.status is Queued ==> self.workdir is None)
        &&& (self.data.job_output is Some ==> self.workdir is Some)
    }

    /// The answer to a request for the artifact of `kind`.
    pub open spec fn output_answer(&self, kind: OutputKind) -> Result<Seq<char>, OutputRequestError> {
        if self.data.status is Pending || self.data.status is Queued {
            Err(OutputRequestError::JobStillPending)
        } else if self.data.job_output is None {
            Err(OutputRequestError::NoOutputProduced)
        } else if self.workdir is None || self.job_object.spec_output_filename(
            self.workdir->Some_0@,
            kind,
        ) is None {
            Err(OutputRequestError::OutputKindNotSupported)
        } else {
            Ok(self.job_object.spec_output_filename(self.workdir->Some_0@, kind)->Some_0)
        }
    }

    /// A runner for a job whose setup and launch already succeeded.
    pub fn try_create_job(id: JobId, job_object: J, workdir: String) -> (r: JobRunner<J>)
        ensures
            r.wf(),
            r.id == id,
            r.job_object == job_object,
            r.data == (JobData { status: JobStatus::Pending, job_output: None }),
            r.workdir == Some(workdir),
            r.observers@ == Seq::<ObserverId>::empty(),
    {
        JobRunner {
            id,
            data: JobData { status: JobStatus::Pending, job_output: None },
            workdir: Some(workdir),
            job_object,
            observers: Vec::new(),
            terminal_at: None,
        }
    }

    /// A runner for a job taken off the queue, whose setup is still to come.
    pub fn create_queued_job(id: JobId, job_object: J, observers: Vec<ObserverId>) -> (r: JobRunner<
        J,
    >)
        ensures
            r.wf(),
            r.id == id,
            r.job_object == job_object,
            r.data == (JobData { status: JobStatus::Queued, job_output: None }),
            r.workdir is None,
            r.observers == observers,
    {
        JobRunner {
            id,
            data: JobData { status: JobStatus::Queued, job_output: None },
            workdir: None,
            job_object,
            observers,
            terminal_at: None,
        }
    }

    /// Registers an observer: every later status change reaches it.
    pub fn add_observer(&mut self, observer: ObserverId)
        requires
            old(self).wf(),
        ensures
            final(self).wf(),
            final(self).observers@ == old(self).observers@.push(observer),
            final(self).data == old(self).data,
            final(self).workdir == old(self).workdir,
            final(self).terminal_at == old(self).terminal_at,
            final(self).id == old(self).id,
            final(self).job_object == old(self).job_object,
    {
        self.observers.push(observer);
    }

    /// The current snapshot.
    pub fn query_data(&self) -> (r: JobData)
        ensures
            r == self.data,
    {
        self.data.duplicate()
    }

    fn broadcast(&self) -> (r: Broadcast)
        ensures
            r.observers@ == self.observers@,
            r.data == self.data,
    {
        let mut observers: Vec<ObserverId> = Vec::new();
        let mut i: usize = 0;
        while i < self.observers.len()
            invariant
                i <= self.observers.len(),
                observers@ == self.observers@.subrange(0, i as int),
            decreases self.observers.len() - i,
        {
            observers.push(self.observers[i]);
            i += 1;
            assert(observers@ =~= self.observers@.subrange(0, i as int));
        }
        assert(observers@ =~= self.observers@);
        Broadcast { observers, data: self.data.duplicate() }
    }

    /// The end of a queued job's setup: `Ok` carries the working directory,
    /// `Err` the reason it failed. Only a `Queued` runner moves; the new
    /// snapshot goes to every observer.
    pub fn initialize(&mut self, result: Result<String, String>, now: u64) -> (r: Option<Broadcast>)
        requires
            old(self).wf(),
        ensures
            final(self).wf(),
            final(self).id == old(self).id,
            final(self).job_object == old(self).job_object,
            final(self).observers == old(self).observers,
            old(self).data.status is Queued ==> {
                &&& final(self).data == initialize_data(result)
                &&& r is Some
                &&& r->Some_0.observers@ == old(self).observers@
                &&& r->Some_0.data == final(self).data
                &&& result is Ok ==> final(self).workdir == Some(result->Ok_0)
                &&& result is Err ==> final(self).terminal_at == Some(now)
                &&& result is Err ==> final(self).workdir == old(self).workdir
            },
            !(old(self).data.status is Queued) ==> r is None && *final(self) == *old(self),
    {
        match &self.data.status {
            JobStatus::Queued => {},
            _ => {
                return None;
            },
        }
        match result {
            Ok(workdir) => {
                self.workdir = Some(workdir);
                self.data = JobData { status: JobStatus::Pending, job_output: None };
            },
            Err(message) => {
                self.data = JobData {
                    status: JobStatus::Failed(JobFailureReason::SetupError(message)),
                    job_output: None,
                };
                self.terminal_at = Some(now);
            },
        }
        Some(self.broadcast())
    }

    /// The worker's report. Only a `Pending` runner moves, to its terminal
    /// state; the new snapshot goes to every observer.
    pub fn worker_finished(&mut self, result: WorkerResult, now: u64) -> (r: Option<Broadcast>)
        requires
            old(self).wf(),
        ensures
            final(self).wf(),
            final(self).id == old(self).id,
            final(self).job_object == old(self).job_object,
            final(self).observers == old(self).observers,
            final(self).workdir == old(self).workdir,
            old(self).data.status is Pending ==> {
                &&& final(self).data == worker_result_data(result)
                &&& final(self).terminal_at == Some(now)
                &&& r is Some
                &&& r->Some_0.observers@ == old(self).observers@
                &&& r->Some_0.data == final(self).data
            },
            !(old(self).data.status is Pending) ==> r is None && *final(self) == *old(self),
    {
        match &self.data.status {
            JobStatus::Pending => {},
            _ => {
                return None;
            },
        }
        self.data = match result {
            WorkerResult::TimedOut => JobData {
                status: JobStatus::Failed(JobFailureReason::TimedOut),
                job_output: None,
            },
            WorkerResult::JoinError(m) => JobData {
                status: JobStatus::Failed(JobFailureReason::SetupError(m)),
                job_output: None,
            },
            WorkerResult::Exited { success, stdout, stderr } => JobData {
                status: if success {
                    JobStatus::Finished
                } else {
                    JobStatus::Failed(JobFailureReason::JobProcessError)
                },
                job_output: Some(JobOutput { stdout, stderr }),
            },
        };
        self.terminal_at = Some(now);
        Some(self.broadcast())
    }

    /// Where to read the artifact of `kind`, or why there is none to read.
    pub fn request_output(&self, kind: OutputKind) -> (r: Result<String, OutputRequestError>)
        requires
            self.wf(),
        ensures
            r is Ok <==> self.output_answer(kind) is Ok,
            r is Ok ==> r->Ok_0@ == self.output_answer(kind)->Ok_0,
            r is Err ==> r->Err_0 == self.output_answer(kind)->Err_0,
    {
        match &self.data.status {
            JobStatus::Pending | JobStatus::Queued => {
                return Err(OutputRequestError::JobStillPending);
            },
            _ => {},
        }
        if self.data.job_output.is_none() {
            return Err(OutputRequestError::NoOutputProduced);
        }
        match &self.workdir {
            None => Err(OutputRequestError::OutputKindNotSupported),
            Some(w) => match self.job_object.output_filename(w.as_str(), kind) {
                Some(p) => Ok(p),
                None => Err(OutputRequestError::OutputKindNotSupported),
            },
        }
    }
}

} // verus!
