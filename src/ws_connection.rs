//! The decisions of one WebSocket session that follows one job.
use crate::job::{JobData, JobId};
use crate::job_manager::JobEntry;
use crate::messages::{status_info_of, ws_queue_update, ws_update_of, JobStatusInfo, WsJobDataUpdate};
use vstd::prelude::*;

verus! {

#[derive(PartialEq, Eq, Structural, Clone, Copy, Debug)]
pub enum CloseCode {
    Normal,
    Error,
}

/// First step of a session.
#[derive(PartialEq, Eq, Structural, Clone, Copy, Debug)]
pub enum WsStartAction {
    /// Register with the runner and send the current snapshot.
    Handshake,
    /// Ask the manager to bind this session when the job leaves the queue,
    /// and look the queue position up at once.
    MonitorQueued,
}

/// What a periodic tick asks for.
#[derive(PartialEq, Eq, Structural, Clone, Copy, Debug)]
pub enum TickAction {
    QueryData,
    LookupJob,
    Nothing,
}

/// One text frame to send, and whether to close the session after it.
pub struct Frame {
    pub update: WsJobDataUpdate,
    pub close: Option<CloseCode>,
}

pub struct WsConnection {
    pub job_id: JobId,
    /// The session follows the job's runner (rather than its queue slot).
    pub bound: bool,
    /// A terminal frame was sent; the session is over.
    pub closed: bool,
}

pub open spec fn close_code_of(s: JobStatusInfo) -> Option<CloseCode> {
    match s {
        JobStatusInfo::Finished => Some(CloseCode::Normal),
        JobStatusInfo::Failed => Some(CloseCode::Error),
        _ => None,
    }
}

/// The close that follows a frame of status `s`: normal after `Finished`,
/// an error after `Failed`, none otherwise.
pub fn close_code_for(s: JobStatusInfo) -> (r: Option<CloseCode>)
    ensures
        r == close_code_of(s),
{
    match s {
        JobStatusInfo::Finished => Some(CloseCode::Normal),
        JobStatusInfo::Failed => Some(CloseCode::Error),
        _ => None,
    }
}

impl WsConnection {
    /// A session for job `job_id` as the manager's lookup found it: bound to
    /// the runner when spawned, following the queue slot when queued, and no
    /// session at all for an unknown job.
    pub fn new(job_id: JobId, entry: Option<JobEntry>) -> (r: Option<WsConnection>)
        ensures
            r is Some <==> entry is Some,
            r is Some ==> r->Some_0.job_id == job_id && r->Some_0.bound == (entry->Some_0 is Spawned)
                && !r->Some_0.closed,
    {
        match entry {
            None => None,
            Some(JobEntry::Spawned) => Some(WsConnection { job_id, bound: true, closed: false }),
            Some(JobEntry::Queued(_)) => Some(WsConnection { job_id, bound: false, closed: false }),
        }
    }

    pub fn started(&self) -> (r: WsStartAction)
        ensures
            r == (if self.bound {
                WsStartAction::Handshake
            } else {
                WsStartAction::MonitorQueued
            }),
    {
        if self.bound {
            WsStartAction::Handshake
        } else {
            WsStartAction::MonitorQueued
        }
    }

    /// The manager reports that the job has a runner. The first report binds
    /// the session and asks for the handshake; a second one is ignored.
    pub fn set_runner(&mut self) -> (r: bool)
        ensures
            r == !old(self).bound,
            final(self).bound,
            final(self).job_id == old(self).job_id,
            final(self).closed == old(self).closed,
    {
        if self.bound {
            false
        } else {
            self.bound = true;
            true
        }
    }

    pub fn periodic_tick(&self) -> (r: TickAction)
        ensures
            r == (if self.closed {
                TickAction::Nothing
            } else if self.bound {
                TickAction::QueryData
            } else {
                TickAction::LookupJob
            }),
    {
        if self.closed {
            TickAction::Nothing
        } else if self.bound {
            TickAction::QueryData
        } else {
            TickAction::LookupJob
        }
    }

    /// A queue lookup made by an unbound session: a queued job's position is
    /// surfaced; anything else is left to the runner binding.
    pub fn lookup_result(&self, entry: Option<JobEntry>) -> (r: Option<WsJobDataUpdate>)
        ensures
            !self.closed && entry is Some && entry->Some_0 is Queued ==> r == Some(
                ws_queue_update(entry->Some_0->Queued_0),
            ),
            !(!self.closed && entry is Some && entry->Some_0 is Queued) ==> r is None,
    {
        if self.closed {
            return None;
        }
        match entry {
            Some(JobEntry::Queued(pos)) => Some(WsJobDataUpdate::new_from_queue_pos(pos)),
            _ => None,
        }
    }

    /// A snapshot arrives (from the runner's fan-out or a query). It becomes
    /// one frame; a terminal one closes the session, after which nothing more
    /// is sent.
    pub fn job_data(&mut self, data: JobData) -> (r: Option<Frame>)
        ensures
            old(self).closed ==> r is None && *final(self) == *old(self),
            !old(self).closed ==> {
                &&& r is Some
                &&& r->Some_0.update == ws_update_of(data)
                &&& r->Some_0.close == close_code_of(status_info_of(data.status))
                &&& final(self).closed == (r->Some_0.close is Some)
            },
            final(self).job_id == old(self).job_id,
            final(self).bound == old(self).bound,
    {
        if self.closed {
            return None;
        }
        let update = WsJobDataUpdate::from(data);
        let close = close_code_for(update.status);
        if close.is_some() {
            self.closed = true;
        }
        Some(Frame { update, close })
    }
}

} // verus!
