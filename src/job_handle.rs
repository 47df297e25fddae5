//! What the host needs to start and follow an external process: the process
//! configuration, the backend choice, the working directory's name and the
//! collection of a container's output streams.
use crate::job_type::{arg_views, Job};
use vstd::prelude::*;
use vstd::string::*;

verus! {

/// Prefix of every working directory's name.
pub const WORKDIR_PREFIX: &'static str = "bansu-";

/// How to run one external process.
pub struct JobProcessConfiguration {
    pub executable: String,
    pub args: Vec<String>,
    pub working_dir: String,
}

/// Backend choice: a container image to run in, or a direct child process.
#[derive(Clone, Debug)]
pub struct JobHandleConfiguration {
    pub docker_image: Option<String>,
}

/// A job's scratch directory, owned by one runner.
pub struct WorkDir {
    pub path: String,
}

/// The two output streams of a container, collected as they arrive.
#[derive(Debug, Default)]
pub struct ContainerLogs {
    pub stdout: Vec<u8>,
    pub stderr: Vec<u8>,
}

/// Which stream a chunk of container output belongs to.
#[derive(PartialEq, Eq, Structural, Clone, Copy, Debug)]
pub enum LogStream {
    StdOut,
    StdErr,
}

/// The process that runs `job` on the input at `input_file_path`, inside
/// `workdir`.
pub fn process_configuration<J: Job>(job: &J, workdir: &str, input_file_path: &str) -> (r:
    JobProcessConfiguration)
    ensures
        r.executable@ == job.spec_executable_name(),
        arg_views(r.args@) == job.spec_launch_args(input_file_path@),
        r.working_dir@ == workdir@,
{
    let executable = String::from_str(job.executable_name());
    JobProcessConfiguration {
        executable,
        args: job.launch_args(input_file_path),
        working_dir: String::from_str(workdir),
    }
}

/// The name of the working directory for the random identifier `unique`.
pub fn workdir_name(unique: &str) -> (r: String)
    ensures
        r@ == WORKDIR_PREFIX@ + unique@,
{
    String::from_str(WORKDIR_PREFIX).concat(unique)
}

impl ContainerLogs {
    pub fn new() -> (r: ContainerLogs)
        ensures
            r.stdout@.len() == 0,
            r.stderr@.len() == 0,
    {
        ContainerLogs { stdout: Vec::new(), stderr: Vec::new() }
    }

    /// Appends a chunk to the stream it came from.
    pub fn record(&mut self, stream: LogStream, chunk: &[u8])
        ensures
            stream == LogStream::StdOut ==> final(self).stdout@ == old(self).stdout@ + chunk@
                && final(self).stderr@ == old(self).stderr@,
            stream == LogStream::StdErr ==> final(self).stderr@ == old(self).stderr@ + chunk@
                && final(self).stdout@ == old(self).stdout@,
    {
        let mut i: usize = 0;
        let ghost out0 = self.stdout@;
        let ghost err0 = self.stderr@;
        while i < chunk.len()
            invariant
                i <= chunk@.len(),
                stream == LogStream::StdOut ==> self.stdout@ == out0 + chunk@.subrange(0, i as int)
                    && self.stderr@ == err0,
                stream == LogStream::StdErr ==> self.stderr@ == err0 + chunk@.subrange(0, i as int)
                    && self.stdout@ == out0,
            decreases chunk@.len() - i,
        {
            match stream {
                LogStream::StdOut => self.stdout.push(chunk[i]),
                LogStream::StdErr => self.stderr.push(chunk[i]),
            }
            i += 1;
            assert(chunk@.subrange(0, i as int) =~= chunk@.subrange(0, i - 1).push(chunk@[i - 1]));
        }
        assert(chunk@.subrange(0, chunk@.len() as int) =~= chunk@);
    }
}

/// One event of waiting for a container to stop.
pub enum WaitEvent {
    /// The container stopped with this status code.
    Exited(i64),
    /// The wait reported an error that carries the container's status code.
    WaitErrorWithCode(i64),
    /// The wait itself failed.
    WaitFailed,
}

pub open spec fn spec_wait_exit_code(e: WaitEvent) -> Option<i64> {
    match e {
        WaitEvent::Exited(c) => Some(c),
        WaitEvent::WaitErrorWithCode(c) => Some(c),
        WaitEvent::WaitFailed => None,
    }
}

/// The exit status a wait event stands for. A wait error counts as the
/// process's own exit only when it carries a status code; any other wait
/// failure is a failure of the host, not of the process.
pub fn wait_exit_code(e: &WaitEvent) -> (r: Option<i64>)
    ensures
        r == spec_wait_exit_code(*e),
{
    match e {
        WaitEvent::Exited(c) => Some(*c),
        WaitEvent::WaitErrorWithCode(c) => Some(*c),
        WaitEvent::WaitFailed => None,
    }
}

} // verus!
