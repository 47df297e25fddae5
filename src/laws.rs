//! Properties of the job lifecycle that hold for every schedule of events.
use crate::job::{job_data_consistent, status_has_joined_process, status_is_terminal, JobStatus};
use crate::job_manager::{disjoint, distinct, job_ids, queue_ids, removable, Dequeued, JobManager, SpawnedJob};
use crate::job_runner::{initialize_data, worker_result_data, WorkerResult};
use crate::job_type::{arg_views, Job};
use vstd::prelude::*;

verus! {

/// In every well-formed manager state, the permits held never exceed the
/// concurrency limit and the queue never exceeds its limit.
pub proof fn law_limits_hold<J: Job>(m: JobManager<J>)
    requires
        m.wf(),
    ensures
        m.max_concurrent is Some ==> m.active_jobs <= m.max_concurrent->Some_0,
        m.max_queue_length is Some ==> m.queue.len() <= m.max_queue_length->Some_0,
        m.active_jobs == m.starting.len() + crate::job_manager::live_count(m.jobs@),
{
}

/// When a job leaves the queue, every observer attached to it while it
/// waited becomes an observer of its new runner, which is not yet terminal,
/// so the runner's terminal transition is still to be broadcast to it.
pub proof fn law_monitors_follow_dequeue<J: Job>(
    before: JobManager<J>,
    after: JobManager<J>,
    d: Option<Dequeued>,
    now: u64,
)
    requires
        before.queue.len() > 0,
        before.permit_handed_on(&after, d, now),
    ensures
        d is Some,
        d->Some_0.id == before.queue@[0].id,
        d->Some_0.monitors@ == before.queue@[0].monitors@,
        after.jobs@.last().runner.id == before.queue@[0].id,
        after.jobs@.last().runner.observers@ == before.queue@[0].monitors@,
        !status_is_terminal(after.jobs@.last().runner.data.status),
{
}

/// Every report of a worker and every failed setup leads a runner to a
/// terminal state, whose snapshot is what its observers receive.
pub proof fn law_reports_are_terminal(r: WorkerResult, m: String)
    ensures
        status_is_terminal(worker_result_data(r).status),
        status_is_terminal(initialize_data(Err(m)).status),
        initialize_data(Err(m)).status == JobStatus::Failed(
            crate::job::JobFailureReason::SetupError(m),
        ),
{
}

/// A terminal snapshot carries output exactly when the external process was
/// joined: after an exit (success or not), never after a timeout, a join
/// failure or a failed setup.
pub proof fn law_output_iff_joined(r: WorkerResult, m: String)
    ensures
        job_data_consistent(worker_result_data(r)),
        worker_result_data(r).job_output is Some <==> r is Exited,
        worker_result_data(r).job_output is Some <==> status_has_joined_process(
            worker_result_data(r).status,
        ),
        initialize_data(Err(m)).job_output is None,
        job_data_consistent(initialize_data(Err(m))),
{
}

/// No identifier is both spawned and queued, so a lookup never answers both.
pub proof fn law_lookup_exclusive<J: Job>(m: JobManager<J>, id: Seq<char>)
    requires
        m.wf(),
    ensures
        !(job_ids(m.jobs@).contains(id) && queue_ids(m.queue@).contains(id)),
{
    if job_ids(m.jobs@).contains(id) && queue_ids(m.queue@).contains(id) {
        let i = choose|i: int| 0 <= i < job_ids(m.jobs@).len() && job_ids(m.jobs@)[i] == id;
        let j = choose|j: int| 0 <= j < queue_ids(m.queue@).len() && queue_ids(m.queue@)[j] == id;
        assert(job_ids(m.jobs@)[i] != queue_ids(m.queue@)[j]);
    }
}

/// The janitor removes an entry only after its runner reached a terminal
/// state and one more timeout has passed.
pub proof fn law_removal_after_terminal<J>(e: SpawnedJob<J>, now: u64)
    requires
        removable(e, now),
    ensures
        status_is_terminal(e.runner.data.status),
        now >= e.runner.terminal_at->Some_0 + e.timeout_secs,
        now >= e.inserted_at + 2 * e.timeout_secs,
{
}

/// An identifier names at most one job across the map, the queue and the
/// jobs being started.
pub proof fn law_ids_unique<J: Job>(m: JobManager<J>)
    requires
        m.wf(),
    ensures
        distinct(job_ids(m.jobs@)),
        distinct(queue_ids(m.queue@)),
        distinct(arg_views(m.starting@)),
        disjoint(job_ids(m.jobs@), queue_ids(m.queue@)),
        disjoint(job_ids(m.jobs@), arg_views(m.starting@)),
        disjoint(queue_ids(m.queue@), arg_views(m.starting@)),
{
}

} // verus!
