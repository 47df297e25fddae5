pub mod acedrg;
pub mod http;
pub mod job;
pub mod job_handle;
pub mod job_manager;
pub mod job_runner;
pub mod job_type;
pub mod laws;
pub mod messages;
pub mod platform;
pub mod state;
pub mod ws_connection;

pub use acedrg::AcedrgJob;
pub use job::{JobData, JobFailureReason, JobId, JobOutput, JobStatus};
pub use job_manager::{JobEntry, JobManager, NewJobResponse};
pub use job_runner::{JobRunner, OutputRequestError};
pub use job_type::{Job, JobSpawnError, JobType, OutputKind};
pub use messages::{AcedrgArgs, JobSpawnReply, WsJobDataUpdate};
pub use state::State;
pub use ws_connection::WsConnection;
