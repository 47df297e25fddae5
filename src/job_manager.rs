//! The central dispatcher: admission, the bounded FIFO queue, concurrency
//! permits, identifier allocation, late binding of observers and the janitor.
use crate::job::{status_is_terminal, str_eq, JobData, JobId, JobStatus};
use crate::job_runner::{
    initialize_data, worker_result_data, Broadcast, JobRunner, ObserverId, OutputRequestError,
    WorkerResult,
};
use crate::job_type::{arg_views, Job, JobSpawnError, OutputKind};
use crate::platform::new_uuid_string;
use std::collections::VecDeque;
use vstd::prelude::*;
use vstd::string::*;

verus! {

/// How many fresh identifiers are drawn before giving up on a collision.
pub const ID_ATTEMPTS: u8 = 16;

pub enum JobEntry {
    Spawned,
    /// 1-based position from the head of the queue.
    Queued(usize),
}

pub struct NewJobResponse {
    pub id: JobId,
    pub entry: JobEntry,
}

/// A job waiting for a permit, with the observers that asked to follow it.
pub struct QueuedJob<J> {
    pub id: JobId,
    pub job_object: J,
    pub monitors: Vec<ObserverId>,
}

impl<J> QueuedJob<J> {
    pub fn new(id: JobId, job_object: J) -> (r: QueuedJob<J>)
        ensures
            r.id == id,
            r.job_object == job_object,
            r.monitors@ == Seq::<ObserverId>::empty(),
    {
        QueuedJob { id, job_object, monitors: Vec::new() }
    }
}

/// A runner in the jobs map, with what the janitor needs.
pub struct SpawnedJob<J> {
    pub runner: JobRunner<J>,
    /// Seconds (host clock) at which the runner entered the map.
    pub inserted_at: u64,
    pub timeout_secs: u64,
}

/// The decision on a submission.
pub enum Admission<J> {
    /// A permit was taken: the host sets the job up and reports back with
    /// `start_succeeded` or `start_failed`.
    Start { id: JobId, job_object: J },
    /// No permit was free; the job waits in the queue.
    Queued(NewJobResponse),
    Rejected(JobSpawnError),
}

/// A job taken off the queue: its runner is in the map in `Queued` status;
/// the host sets it up and reports with `initialize_result`, and tells each
/// monitor that the runner exists.
pub struct Dequeued {
    pub id: JobId,
    pub monitors: Vec<ObserverId>,
}

/// What one reported event produced.
pub struct StepOutcome {
    pub broadcast: Option<Broadcast>,
    pub dequeued: Option<Dequeued>,
}

/// Whether a dequeued job may be set up.
pub enum SetupCheck {
    /// Its input is valid: the host sets it up and reports with
    /// `initialize_result`.
    Proceed,
    /// Its input is invalid: it failed with a setup error, its observers are
    /// told, and its permit was handed on.
    Refused(StepOutcome),
    /// No runner of that id waits for setup; nothing changed.
    NotQueued,
}

pub enum MonitorOutcome {
    /// The observer will be bound when the job leaves the queue.
    Attached,
    /// The job already has a runner: bind the observer to it now.
    AlreadySpawned,
    Unknown,
}

pub enum RemoveOutcome {
    Removed,
    /// Not removable yet; try again at the given time.
    NotYet(u64),
    Unknown,
}

pub struct JobManagerVibeCheckResponse {
    pub queue_length: Option<usize>,
    pub max_queue_length: Option<usize>,
    pub active_jobs: usize,
}

pub struct JobManager<J> {
    pub jobs: Vec<SpawnedJob<J>>,
    pub queue: VecDeque<QueuedJob<J>>,
    /// Jobs admitted with a permit whose setup the host is performing.
    pub starting: Vec<JobId>,
    pub max_concurrent: Option<usize>,
    pub max_queue_length: Option<usize>,
    /// Permits held: one per starting job and per runner not yet terminal.
    pub active_jobs: usize,
}

pub open spec fn job_ids<J>(s: Seq<SpawnedJob<J>>) -> Seq<Seq<char>> {
    s.map_values(|j: SpawnedJob<J>| j.runner.id@)
}

pub open spec fn queue_ids<J>(s: Seq<QueuedJob<J>>) -> Seq<Seq<char>> {
    s.map_values(|q: QueuedJob<J>| q.id@)
}

pub open spec fn distinct(a: Seq<Seq<char>>) -> bool {
    forall|i: int, j: int| 0 <= i < a.len() && 0 <= j < a.len() && i != j ==> a[i] != a[j]
}

pub open spec fn disjoint(a: Seq<Seq<char>>, b: Seq<Seq<char>>) -> bool {
    forall|i: int, j: int| 0 <= i < a.len() && 0 <= j < b.len() ==> a[i] != b[j]
}

/// The runner has not reached a terminal state, so its job holds a permit.
pub open spec fn is_live<J>(j: SpawnedJob<J>) -> bool {
    !status_is_terminal(j.runner.data.status)
}

pub open spec fn live_count<J>(s: Seq<SpawnedJob<J>>) -> nat
    decreases s.len(),
{
    if s.len() == 0 {
        0
    } else {
        live_count(s.drop_last()) + if is_live(s.last()) {
            1nat
        } else {
            0nat
        }
    }
}

/// The janitor may drop the entry: its runner ended at least one timeout ago,
/// and two timeouts have passed since it entered the map.
pub open spec fn removable<J>(e: SpawnedJob<J>, now: u64) -> bool {
    &&& status_is_terminal(e.runner.data.status)
    &&& e.runner.terminal_at is Some
    &&& e.runner.terminal_at->Some_0 + e.timeout_secs <= now
    &&& e.inserted_at + 2 * e.timeout_secs <= now
}

proof fn lemma_live_push<J>(s: Seq<SpawnedJob<J>>, x: SpawnedJob<J>)
    ensures
        live_count(s.push(x)) == live_count(s) + if is_live(x) {
            1nat
        } else {
            0nat
        },
{
    assert(s.push(x).drop_last() =~= s);
}

proof fn lemma_live_update<J>(s: Seq<SpawnedJob<J>>, i: int, x: SpawnedJob<J>)
    requires
        0 <= i < s.len(),
    ensures
        live_count(s.update(i, x)) + (if is_live(s[i]) {
            1nat
        } else {
            0nat
        }) == live_count(s) + (if is_live(x) {
            1nat
        } else {
            0nat
        }),
    decreases s.len(),
{
    if i == s.len() - 1 {
        assert(s.update(i, x).drop_last() =~= s.drop_last());
    } else {
        lemma_live_update(s.drop_last(), i, x);
        assert(s.update(i, x).drop_last() =~= s.drop_last().update(i, x));
    }
}

proof fn lemma_live_remove<J>(s: Seq<SpawnedJob<J>>, i: int)
    requires
        0 <= i < s.len(),
    ensures
        live_count(s.remove(i)) + (if is_live(s[i]) {
            1nat
        } else {
            0nat
        }) == live_count(s),
    decreases s.len(),
{
    if i == s.len() - 1 {
        assert(s.remove(i) =~= s.drop_last());
    } else {
        lemma_live_remove(s.drop_last(), i);
        assert(s.remove(i).drop_last() =~= s.drop_last().remove(i));
    }
}

fn contains_observer(v: &Vec<ObserverId>, o: ObserverId) -> (r: bool)
    ensures
        r == v@.contains(o),
{
    let mut i: usize = 0;
    while i < v.len()
        invariant
            i <= v.len(),
            forall|k: int| 0 <= k < i ==> v@[k] != o,
        decreases v.len() - i,
    {
        if v[i] == o {
            return true;
        }
        i += 1;
    }
    false
}

impl<J: Job> JobManager<J> {
    pub open spec fn ids_unique(&self) -> bool {
        &&& distinct(job_ids(self.jobs@))
        &&& distinct(queue_ids(self.queue@))
        &&& distinct(arg_views(self.starting@))
        &&& disjoint(job_ids(self.jobs@), queue_ids(self.queue@))
        &&& disjoint(job_ids(self.jobs@), arg_views(self.starting@))
        &&& disjoint(queue_ids(self.queue@), arg_views(self.starting@))
    }

    /// `id` names a runner, a queued job or a job being started.
    pub open spec fn id_in_use(&self, id: Seq<char>) -> bool {
        ||| job_ids(self.jobs@).contains(id)
        ||| queue_ids(self.queue@).contains(id)
        ||| arg_views(self.starting@).contains(id)
    }

    /// The invariant, where `released` permits have just been let go and are
    /// not yet handed on.
    pub open spec fn wf_releasing(&self, released: nat) -> bool {
        &&& self.ids_unique()
        &&& forall|i: int| 0 <= i < self.jobs.len() ==> (#[trigger] self.jobs@[i]).runner.wf()
        &&& self.active_jobs == self.starting.len() + live_count(self.jobs@) + released
        &&& self.max_concurrent is Some ==> self.active_jobs <= self.max_concurrent->Some_0
        &&& self.max_queue_length is Some ==> self.queue.len() <= self.max_queue_length->Some_0
        &&& self.queue.len() > 0 ==> self.max_concurrent is Some && self.active_jobs
            == self.max_concurrent->Some_0
    }

    /// The invariant: identifiers unique across map, queue and starting jobs;
    /// permits counted exactly; both limits kept; the queue waits only while
    /// every permit is taken.
    pub open spec fn wf(&self) -> bool {
        self.wf_releasing(0)
    }

    pub open spec fn permit_available(&self) -> bool {
        &&& self.active_jobs < usize::MAX
        &&& self.max_concurrent is None || self.active_jobs < self.max_concurrent->Some_0
    }

    pub open spec fn queue_has_room(&self) -> bool {
        &&& self.max_concurrent is Some
        &&& match self.max_queue_length {
            None => self.queue.len() < usize::MAX,
            Some(m) => self.queue.len() < m,
        }
    }

    /// The effect of handing one freed permit on, from `self` to `new`: the
    /// head of the queue gets it and becomes a `Queued` runner observed by its
    /// monitors, or the permit returns to the pool.
    pub open spec fn permit_handed_on(&self, new: &Self, d: Option<Dequeued>, now: u64) -> bool {
        if self.queue.len() > 0 {
            let head = self.queue@[0];
            let e = new.jobs@.last();
            &&& d is Some
            &&& d->Some_0.id == head.id
            &&& d->Some_0.monitors@ == head.monitors@
            &&& new.queue@ == self.queue@.drop_first()
            &&& new.jobs.len() == self.jobs.len() + 1
            &&& e.runner.id == head.id
            &&& job_ids(new.jobs@).contains(head.id@)
            &&& e.runner.job_object == head.job_object
            &&& e.runner.data == (JobData { status: JobStatus::Queued, job_output: None })
            &&& e.runner.observers@ == head.monitors@
            &&& e.inserted_at == now
            &&& e.timeout_secs == head.job_object.spec_timeout()
            &&& new.active_jobs == self.active_jobs
        } else {
            &&& d is None
            &&& new.queue@ == self.queue@
            &&& new.jobs.len() == self.jobs.len()
            &&& new.active_jobs == self.active_jobs - 1
        }
    }

    pub fn new(max_jobs: Option<usize>, max_queue_length: Option<usize>) -> (r: JobManager<J>)
        ensures
            r.wf(),
            r.jobs@.len() == 0,
            r.queue@.len() == 0,
            r.starting@.len() == 0,
            r.active_jobs == 0,
            r.max_concurrent == max_jobs,
            r.max_queue_length == max_queue_length,
    {
        JobManager {
            jobs: Vec::new(),
            queue: VecDeque::new(),
            starting: Vec::new(),
            max_concurrent: max_jobs,
            max_queue_length,
            active_jobs: 0,
        }
    }

    fn find_job(&self, id: &str) -> (r: Option<usize>)
        ensures
            r is Some ==> r->Some_0 < self.jobs.len() && self.jobs@[r->Some_0 as int].runner.id@
                == id@,
            r is Some ==> job_ids(self.jobs@).contains(id@),
            r is None ==> !job_ids(self.jobs@).contains(id@),
    {
        let mut i: usize = 0;
        while i < self.jobs.len()
            invariant
                i <= self.jobs.len(),
                forall|k: int| 0 <= k < i ==> job_ids(self.jobs@)[k] != id@,
            decreases self.jobs.len() - i,
        {
            if str_eq(self.jobs[i].runner.id.as_str(), id) {
                assert(job_ids(self.jobs@)[i as int] == id@);
                return Some(i);
            }
            i += 1;
        }
        None
    }

    proof fn lemma_job_index(&self, id: Seq<char>, i: int)
        requires
            distinct(job_ids(self.jobs@)),
            0 <= i < self.jobs.len(),
            self.jobs@[i].runner.id@ == id,
        ensures
            forall|j: int|
                0 <= j < self.jobs.len() && #[trigger] self.jobs@[j].runner.id@ == id ==> j == i,
    {
        assert forall|j: int|
            0 <= j < self.jobs.len() && #[trigger] self.jobs@[j].runner.id@ == id implies j == i by {
            assert(job_ids(self.jobs@)[j] == job_ids(self.jobs@)[i]);
        }
    }

    proof fn lemma_job_absent(&self, id: Seq<char>)
        requires
            !job_ids(self.jobs@).contains(id),
        ensures
            forall|j: int| 0 <= j < self.jobs.len() ==> #[trigger] self.jobs@[j].runner.id@ != id,
    {
        assert forall|j: int| 0 <= j < self.jobs.len() implies #[trigger] self.jobs@[j].runner.id@
            != id by {
            assert(job_ids(self.jobs@)[j] == self.jobs@[j].runner.id@);
        }
    }

    fn find_queued(&self, id: &str) -> (r: Option<usize>)
        ensures
            r is Some ==> r->Some_0 < self.queue.len() && self.queue@[r->Some_0 as int].id@ == id@,
            r is Some ==> queue_ids(self.queue@).contains(id@),
            r is None ==> !queue_ids(self.queue@).contains(id@),
    {
        let mut i: usize = 0;
        while i < self.queue.len()
            invariant
                i <= self.queue.len(),
                forall|k: int| 0 <= k < i ==> queue_ids(self.queue@)[k] != id@,
            decreases self.queue.len() - i,
        {
            if str_eq(self.queue[i].id.as_str(), id) {
                assert(queue_ids(self.queue@)[i as int] == id@);
                return Some(i);
            }
            i += 1;
        }
        None
    }

    fn find_starting(&self, id: &str) -> (r: Option<usize>)
        ensures
            r is Some ==> r->Some_0 < self.starting.len() && self.starting@[r->Some_0 as int]@
                == id@,
            r is Some ==> arg_views(self.starting@).contains(id@),
            r is None ==> !arg_views(self.starting@).contains(id@),
    {
        let mut i: usize = 0;
        while i < self.starting.len()
            invariant
                i <= self.starting.len(),
                forall|k: int| 0 <= k < i ==> arg_views(self.starting@)[k] != id@,
            decreases self.starting.len() - i,
        {
            if str_eq(self.starting[i].as_str(), id) {
                assert(arg_views(self.starting@)[i as int] == id@);
                return Some(i);
            }
            i += 1;
        }
        None
    }

    /// Whether `id` names a job that is being started by the host.
    pub fn is_starting(&self, id: &str) -> (r: bool)
        ensures
            r == arg_views(self.starting@).contains(id@),
    {
        self.find_starting(id).is_some()
    }

    fn contains_id(&self, id: &str) -> (r: bool)
        ensures
            r == self.id_in_use(id@),
    {
        self.find_job(id).is_some() || self.find_queued(id).is_some() || self.find_starting(
            id,
        ).is_some()
    }

    /// Draws identifiers until one is in use nowhere; gives up after a few
    /// collisions.
    fn fresh_id(&self) -> (r: Option<JobId>)
        ensures
            r is Some ==> !self.id_in_use(r->Some_0@) && r->Some_0@.len() == 36,
            (forall|s: Seq<char>| !self.id_in_use(s)) ==> r is Some,
    {
        let mut attempts: u8 = 0;
        while attempts < ID_ATTEMPTS
            invariant
                (forall|s: Seq<char>| !self.id_in_use(s)) ==> attempts == 0,
            decreases ID_ATTEMPTS - attempts,
        {
            let id = new_uuid_string();
            if !self.contains_id(id.as_str()) {
                return Some(id);
            }
            attempts += 1;
        }
        None
    }

    /// The effect of an admission `r` of `job_object`, from `self` to `new`:
    /// a start takes a permit and records the id as starting; a queued job
    /// goes to the tail of the queue at position length + 1.
    pub open spec fn admitted(&self, new: &Self, job_object: J, r: Admission<J>) -> bool {
        &&& r is Rejected ==> *new == *self
        &&& r is Start ==> {
            &&& self.permit_available()
            &&& job_object.spec_input_valid()
            &&& r->job_object == job_object
            &&& !self.id_in_use(r->Start_id@)
            &&& new.starting@ == self.starting@.push(r->Start_id)
            &&& arg_views(new.starting@).contains(r->Start_id@)
            &&& new.jobs@ == self.jobs@
            &&& new.queue@ == self.queue@
            &&& new.active_jobs == self.active_jobs + 1
        }
        &&& r is Queued ==> {
            let resp = r->Queued_0;
            let e = new.queue@.last();
            &&& !self.permit_available() && self.queue_has_room()
            &&& !self.id_in_use(resp.id@)
            &&& resp.entry == JobEntry::Queued((self.queue.len() + 1) as usize)
            &&& new.queue@.len() == self.queue@.len() + 1
            &&& new.queue@.drop_last() == self.queue@
            &&& e.id == resp.id
            &&& queue_ids(new.queue@).contains(resp.id@)
            &&& e.job_object == job_object
            &&& e.monitors@.len() == 0
            &&& new.jobs@ == self.jobs@
            &&& new.starting@ == self.starting@
            &&& new.active_jobs == self.active_jobs
        }
        &&& new.max_concurrent == self.max_concurrent
        &&& new.max_queue_length == self.max_queue_length
    }

    /// Admission of a submission under the identifier `id`. A job that can
    /// neither start nor wait is refused with `TooManyJobs`. A job that gets a
    /// free permit is validated first, as its setup would be: invalid input is
    /// refused with `InputValidation`. A job that waits in the queue is
    /// validated when it leaves it. An `id` already in use is refused with
    /// `Other`. A refusal changes nothing.
    pub fn admit_with_id(&mut self, job_object: J, id: JobId) -> (r: Admission<J>)
        requires
            old(self).wf(),
        ensures
            final(self).wf(),
            old(self).admitted(&*final(self), job_object, r),
            !old(self).permit_available() && !old(self).queue_has_room() ==> r is Rejected
                && r->Rejected_0 is TooManyJobs,
            old(self).permit_available() && !job_object.spec_input_valid() ==> r is Rejected
                && r->Rejected_0 is InputValidation && r->Rejected_0->InputValidation_0@
                == job_object.spec_validation_message(),
            old(self).permit_available() && job_object.spec_input_valid() && old(self).id_in_use(
                id@,
            ) ==> r is Rejected && r->Rejected_0 is Other,
            old(self).permit_available() && job_object.spec_input_valid() && !old(self).id_in_use(
                id@,
            ) ==> r is Start && r->Start_id == id,
            !old(self).permit_available() && old(self).queue_has_room() && old(self).id_in_use(
                id@,
            ) ==> r is Rejected && r->Rejected_0 is Other,
            !old(self).permit_available() && old(self).queue_has_room() && !old(self).id_in_use(
                id@,
            ) ==> r is Queued && r->Queued_0.id == id,
    {
        let permit = self.active_jobs < usize::MAX && match self.max_concurrent {
            None => true,
            Some(m) => self.active_jobs < m,
        };
        let room = self.max_concurrent.is_some() && match self.max_queue_length {
            None => self.queue.len() < usize::MAX,
            Some(m) => self.queue.len() < m,
        };
        if !permit && !room {
            return Admission::Rejected(JobSpawnError::TooManyJobs);
        }
        if permit {
            if let Err(e) = job_object.validate_input() {
                return Admission::Rejected(e);
            }
        }
        if self.contains_id(id.as_str()) {
            return Admission::Rejected(
                JobSpawnError::Other(String::from_str("job id already in use")),
            );
        }
        if permit {
            let ghost old_starting = self.starting@;
            self.starting.push(id.clone());
            self.active_jobs = self.active_jobs + 1;
            assert(arg_views(self.starting@) =~= arg_views(old_starting).push(id@));
            assert(arg_views(self.starting@)[old_starting.len() as int] == id@);
            return Admission::Start { id, job_object };
        }
        let ghost old_queue = self.queue@;
        let resp_id = id.clone();
        self.queue.push_back(QueuedJob::new(id, job_object));
        assert(queue_ids(self.queue@) =~= queue_ids(old_queue).push(resp_id@));
        assert(self.queue@.drop_last() =~= old_queue);
        assert(queue_ids(self.queue@)[old_queue.len() as int] == resp_id@);
        let pos = self.queue.len();
        Admission::Queued(NewJobResponse { id: resp_id, entry: JobEntry::Queued(pos) })
    }

    /// Admission of a submission under a freshly drawn identifier, decided as
    /// `admit_with_id` decides. Only repeated collisions of the drawn
    /// identifier with ones in use can refuse it with `Other`.
    pub fn new_job(&mut self, job_object: J) -> (r: Admission<J>)
        requires
            old(self).wf(),
        ensures
            final(self).wf(),
            old(self).admitted(&*final(self), job_object, r),
            !old(self).permit_available() && !old(self).queue_has_room() ==> r is Rejected
                && r->Rejected_0 is TooManyJobs,
            old(self).permit_available() && !job_object.spec_input_valid() ==> r is Rejected
                && r->Rejected_0 is InputValidation && r->Rejected_0->InputValidation_0@
                == job_object.spec_validation_message(),
            old(self).permit_available() && job_object.spec_input_valid() ==> r is Start || (
            r is Rejected && r->Rejected_0 is Other),
            !old(self).permit_available() && old(self).queue_has_room() ==> r is Queued || (
            r is Rejected && r->Rejected_0 is Other),
            old(self).permit_available() && job_object.spec_input_valid() && (forall|s: Seq<char>|
                !old(self).id_in_use(s)) ==> r is Start,
            !old(self).permit_available() && old(self).queue_has_room() && (forall|s: Seq<char>|
                !old(self).id_in_use(s)) ==> r is Queued,
            r is Start ==> r->Start_id@.len() == 36,
            r is Queued ==> r->Queued_0.id@.len() == 36,
    {
        let permit = self.active_jobs < usize::MAX && match self.max_concurrent {
            None => true,
            Some(m) => self.active_jobs < m,
        };
        let room = self.max_concurrent.is_some() && match self.max_queue_length {
            None => self.queue.len() < usize::MAX,
            Some(m) => self.queue.len() < m,
        };
        if !permit && !room {
            return Admission::Rejected(JobSpawnError::TooManyJobs);
        }
        if permit {
            if let Err(e) = job_object.validate_input() {
                return Admission::Rejected(e);
            }
        }
        match self.fresh_id() {
            Some(id) => self.admit_with_id(job_object, id),
            None => Admission::Rejected(
                JobSpawnError::Other(String::from_str("could not allocate a job id")),
            ),
        }
    }

    /// Hands one just-freed permit on to the head of the queue, or back to
    /// the pool when nothing waits.
    fn hand_on_permit(&mut self, now: u64) -> (r: Option<Dequeued>)
        requires
            old(self).wf_releasing(1),
        ensures
            final(self).wf(),
            old(self).permit_handed_on(&*final(self), r, now),
            final(self).starting@ == old(self).starting@,
            final(self).jobs@.subrange(0, old(self).jobs.len() as int) == old(self).jobs@,
            final(self).max_concurrent == old(self).max_concurrent,
            final(self).max_queue_length == old(self).max_queue_length,
    {
        let ghost old_jobs = self.jobs@;
        let ghost old_queue = self.queue@;
        let head = match self.queue.pop_front() {
            Some(head) => head,
            None => {
                self.active_jobs = self.active_jobs - 1;
                assert(self.jobs@.subrange(0, self.jobs.len() as int) =~= self.jobs@);
                return None;
            },
        };
        assert(self.queue@ =~= old_queue.drop_first());
        assert(queue_ids(self.queue@) =~= queue_ids(old_queue).drop_first());
        let timeout_secs = head.job_object.timeout_value();
        let mut monitors: Vec<ObserverId> = Vec::new();
        let mut i: usize = 0;
        while i < head.monitors.len()
            invariant
                i <= head.monitors.len(),
                monitors@ == head.monitors@.subrange(0, i as int),
            decreases head.monitors.len() - i,
        {
            monitors.push(head.monitors[i]);
            i += 1;
            assert(monitors@ =~= head.monitors@.subrange(0, i as int));
        }
        assert(monitors@ =~= head.monitors@);
        let id = head.id.clone();
        let runner = JobRunner::create_queued_job(head.id, head.job_object, head.monitors);
        let entry = SpawnedJob { runner, inserted_at: now, timeout_secs };
        proof {
            lemma_live_push(old_jobs, entry);
        }
        self.jobs.push(entry);
        assert(job_ids(self.jobs@) =~= job_ids(old_jobs).push(id@));
        assert(self.jobs@.subrange(0, old_jobs.len() as int) =~= old_jobs);
        assert(queue_ids(old_queue)[0] == id@);
        assert(job_ids(self.jobs@)[old_jobs.len() as int] == id@);
        Some(Dequeued { id, monitors })
    }

    /// The host set up a started job and launched its process: the job gets
    /// a `Pending` runner in the map, which keeps the job's permit.
    pub fn start_succeeded(&mut self, id: JobId, job_object: J, workdir: String, now: u64) -> (r:
        NewJobResponse)
        requires
            old(self).wf(),
            arg_views(old(self).starting@).contains(id@),
        ensures
            final(self).wf(),
            r.id == id,
            r.entry == JobEntry::Spawned,
            exists|k: int|
                0 <= k < old(self).starting.len() && old(self).starting@[k]@ == id@
                    && final(self).starting@ == old(self).starting@.remove(k),
            final(self).jobs@.drop_last() == old(self).jobs@,
            final(self).jobs@.len() == old(self).jobs@.len() + 1,
            final(self).jobs@.last().runner.id == id,
            final(self).jobs@.last().runner.job_object == job_object,
            final(self).jobs@.last().runner.data == (JobData {
                status: JobStatus::Pending,
                job_output: None,
            }),
            final(self).jobs@.last().runner.workdir == Some(workdir),
            final(self).jobs@.last().runner.observers@.len() == 0,
            final(self).jobs@.last().inserted_at == now,
            final(self).jobs@.last().timeout_secs == job_object.spec_timeout(),
            final(self).queue@ == old(self).queue@,
            final(self).active_jobs == old(self).active_jobs,
            final(self).max_concurrent == old(self).max_concurrent,
            final(self).max_queue_length == old(self).max_queue_length,
    {
        let k = self.find_starting(id.as_str()).unwrap();
        let ghost old_starting = self.starting@;
        let ghost old_jobs = self.jobs@;
        self.starting.remove(k);
        assert(arg_views(self.starting@) =~= arg_views(old_starting).remove(k as int));
        let timeout_secs = job_object.timeout_value();
        let runner = JobRunner::try_create_job(id.clone(), job_object, workdir);
        let entry = SpawnedJob { runner, inserted_at: now, timeout_secs };
        proof {
            lemma_live_push(old_jobs, entry);
        }
        self.jobs.push(entry);
        assert(job_ids(self.jobs@) =~= job_ids(old_jobs).push(id@));
        assert(self.jobs@.drop_last() =~= old_jobs);
        assert(arg_views(old_starting)[k as int] == id@);
        assert(self.jobs@[old_jobs.len() as int].runner.wf());
        assert(self.ids_unique());
        NewJobResponse { id, entry: JobEntry::Spawned }
    }

    /// The host could not set up a started job: the job is forgotten and its
    /// permit handed on.
    pub fn start_failed(&mut self, id: &str, now: u64) -> (r: Option<Dequeued>)
        requires
            old(self).wf(),
            arg_views(old(self).starting@).contains(id@),
        ensures
            final(self).wf(),
            exists|k: int|
                0 <= k < old(self).starting.len() && old(self).starting@[k]@ == id@
                    && final(self).starting@ == old(self).starting@.remove(k),
            final(self).jobs@.subrange(0, old(self).jobs.len() as int) == old(self).jobs@,
            old(self).permit_handed_on(&*final(self), r, now),
            final(self).max_concurrent == old(self).max_concurrent,
            final(self).max_queue_length == old(self).max_queue_length,
    {
        let k = self.find_starting(id).unwrap();
        let ghost old_starting = self.starting@;
        self.starting.remove(k);
        assert(arg_views(self.starting@) =~= arg_views(old_starting).remove(k as int));
        self.hand_on_permit(now)
    }

    /// The worker of job `id` reports. A `Pending` runner moves to its
    /// terminal state, its observers get the new snapshot, and its permit is
    /// handed on. Any other case changes nothing.
    pub fn worker_result(&mut self, id: &str, result: WorkerResult, now: u64) -> (r: StepOutcome)
        requires
            old(self).wf(),
        ensures
            final(self).wf(),
            final(self).starting@ == old(self).starting@,
            final(self).max_concurrent == old(self).max_concurrent,
            final(self).max_queue_length == old(self).max_queue_length,
            !job_ids(old(self).jobs@).contains(id@) ==> r.broadcast is None && r.dequeued is None
                && *final(self) == *old(self),
            forall|i: int|
                0 <= i < old(self).jobs.len() && #[trigger] old(self).jobs@[i].runner.id@ == id@
                    ==> {
                    let before = old(self).jobs@[i];
                    let after = final(self).jobs@[i];
                    if before.runner.data.status is Pending {
                        &&& after.runner.data == worker_result_data(result)
                        &&& after.runner.terminal_at == Some(now)
                        &&& after.runner.id == before.runner.id
                        &&& after.runner.job_object == before.runner.job_object
                        &&& after.runner.workdir == before.runner.workdir
                        &&& after.runner.observers == before.runner.observers
                        &&& after.inserted_at == before.inserted_at
                        &&& after.timeout_secs == before.timeout_secs
                        &&& r.broadcast is Some
                        &&& r.broadcast->Some_0.observers@ == before.runner.observers@
                        &&& r.broadcast->Some_0.data == after.runner.data
                        &&& forall|j: int|
                            0 <= j < old(self).jobs.len() && j != i ==> final(self).jobs@[j]
                                == old(self).jobs@[j]
                        &&& old(self).permit_handed_on(&*final(self), r.dequeued, now)
                    } else {
                        r.broadcast is None && r.dequeued is None && *final(self) == *old(self)
                    }
                },
    {
        let i = match self.find_job(id) {
            Some(i) => i,
            None => {
                proof {
                    self.lemma_job_absent(id@);
                }
                return StepOutcome { broadcast: None, dequeued: None };
            },
        };
        proof {
            self.lemma_job_index(id@, i as int);
        }
        match &self.jobs[i].runner.data.status {
            JobStatus::Pending => {},
            _ => {
                return StepOutcome { broadcast: None, dequeued: None };
            },
        }
        let ghost old_jobs = self.jobs@;
        let mut entry = self.jobs.remove(i);
        let broadcast = entry.runner.worker_finished(result, now);
        proof {
            lemma_live_update(old_jobs, i as int, entry);
        }
        self.jobs.insert(i, entry);
        assert(self.jobs@ =~= old_jobs.update(i as int, entry));
        assert(job_ids(self.jobs@) =~= job_ids(old_jobs));
        assert(self.wf_releasing(1));
        let ghost updated = self.jobs@;
        let dequeued = self.hand_on_permit(now);
        assert forall|j: int| 0 <= j < updated.len() implies self.jobs@[j] == updated[j] by {
            assert(self.jobs@.subrange(0, updated.len() as int)[j] == updated[j]);
        }
        assert forall|j: int| 0 <= j < old_jobs.len() && j != i implies self.jobs@[j]
            == old_jobs[j] by {
            assert(self.jobs@[j] == updated[j]);
        }
        StepOutcome { broadcast, dequeued }
    }

    /// The host finished setting up dequeued job `id`: `Ok` carries the
    /// working directory, `Err` the reason setup failed. A `Queued` runner
    /// becomes `Pending`, or fails and hands its permit on; its observers get
    /// the new snapshot. Any other case changes nothing.
    pub fn initialize_result(&mut self, id: &str, result: Result<String, String>, now: u64) -> (r:
        StepOutcome)
        requires
            old(self).wf(),
        ensures
            final(self).wf(),
            final(self).starting@ == old(self).starting@,
            final(self).max_concurrent == old(self).max_concurrent,
            final(self).max_queue_length == old(self).max_queue_length,
            !job_ids(old(self).jobs@).contains(id@) ==> r.broadcast is None && r.dequeued is None
                && *final(self) == *old(self),
            forall|i: int|
                0 <= i < old(self).jobs.len() && #[trigger] old(self).jobs@[i].runner.id@ == id@
                    ==> {
                    let before = old(self).jobs@[i];
                    let after = final(self).jobs@[i];
                    if before.runner.data.status is Queued {
                        &&& after.runner.data == initialize_data(result)
                        &&& after.runner.id == before.runner.id
                        &&& after.runner.job_object == before.runner.job_object
                        &&& after.runner.observers == before.runner.observers
                        &&& after.inserted_at == before.inserted_at
                        &&& after.timeout_secs == before.timeout_secs
                        &&& result is Ok ==> after.runner.workdir == Some(result->Ok_0)
                        &&& result is Err ==> after.runner.workdir == before.runner.workdir
                        &&& r.broadcast is Some
                        &&& r.broadcast->Some_0.observers@ == before.runner.observers@
                        &&& r.broadcast->Some_0.data == after.runner.data
                        &&& forall|j: int|
                            0 <= j < old(self).jobs.len() && j != i ==> final(self).jobs@[j]
                                == old(self).jobs@[j]
                        &&& result is Ok ==> r.dequeued is None && final(self).queue@ == old(
                            self,
                        ).queue@ && final(self).jobs.len() == old(self).jobs.len()
                            && final(self).active_jobs == old(self).active_jobs
                        &&& result is Err ==> after.runner.terminal_at == Some(now) && old(
                            self,
                        ).permit_handed_on(&*final(self), r.dequeued, now)
                    } else {
                        r.broadcast is None && r.dequeued is None && *final(self) == *old(self)
                    }
                },
    {
        let i = match self.find_job(id) {
            Some(i) => i,
            None => {
                proof {
                    self.lemma_job_absent(id@);
                }
                return StepOutcome { broadcast: None, dequeued: None };
            },
        };
        proof {
            self.lemma_job_index(id@, i as int);
        }
        match &self.jobs[i].runner.data.status {
            JobStatus::Queued => {},
            _ => {
                return StepOutcome { broadcast: None, dequeued: None };
            },
        }
        let failed = result.is_err();
        let ghost old_jobs = self.jobs@;
        let mut entry = self.jobs.remove(i);
        let broadcast = entry.runner.initialize(result, now);
        proof {
            lemma_live_update(old_jobs, i as int, entry);
        }
        self.jobs.insert(i, entry);
        assert(self.jobs@ =~= old_jobs.update(i as int, entry));
        assert(job_ids(self.jobs@) =~= job_ids(old_jobs));
        if failed {
            assert(self.wf_releasing(1));
            let ghost updated = self.jobs@;
            let dequeued = self.hand_on_permit(now);
            assert forall|j: int| 0 <= j < updated.len() implies self.jobs@[j] == updated[j] by {
                assert(self.jobs@.subrange(0, updated.len() as int)[j] == updated[j]);
            }
            assert forall|j: int| 0 <= j < old_jobs.len() && j != i implies self.jobs@[j]
                == old_jobs[j] by {
                assert(self.jobs@[j] == updated[j]);
            }
            StepOutcome { broadcast, dequeued }
        } else {
            StepOutcome { broadcast, dequeued: None }
        }
    }

    /// Where job `id` stands: spawned, queued at a 1-based position, or
    /// unknown. The position is computed from the current queue.
    pub fn lookup_job(&self, id: &str) -> (r: Option<JobEntry>)
        requires
            self.wf(),
        ensures
            r == Some(JobEntry::Spawned) <==> job_ids(self.jobs@).contains(id@),
            r is None <==> !job_ids(self.jobs@).contains(id@) && !queue_ids(
                self.queue@,
            ).contains(id@),
            r is Some && r->Some_0 is Queued ==> {
                let k = r->Some_0->Queued_0;
                &&& 1 <= k <= self.queue.len()
                &&& self.queue@[k - 1].id@ == id@
            },
    {
        if self.find_job(id).is_some() {
            return Some(JobEntry::Spawned);
        }
        match self.find_queued(id) {
            Some(k) => Some(JobEntry::Queued(k + 1)),
            None => None,
        }
    }

    /// Asks that `observer` be bound to job `id` once it leaves the queue;
    /// asking twice attaches it once.
    /// A job that already has a runner is reported so the host binds the
    /// observer at once; an unknown job is reported and nothing changes.
    pub fn monitor_queued_job(&mut self, id: &str, observer: ObserverId) -> (r: MonitorOutcome)
        requires
            old(self).wf(),
        ensures
            final(self).wf(),
            !(r is Attached) ==> *final(self) == *old(self),
            r is Attached <==> queue_ids(old(self).queue@).contains(id@),
            r is AlreadySpawned <==> job_ids(old(self).jobs@).contains(id@),
            r is Attached ==> exists|k: int|
                0 <= k < old(self).queue.len() && old(self).queue@[k].id@ == id@ && {
                    let q = final(self).queue@[k];
                    &&& q.monitors@ == if old(self).queue@[k].monitors@.contains(observer) {
                        old(self).queue@[k].monitors@
                    } else {
                        old(self).queue@[k].monitors@.push(observer)
                    }
                    &&& q.id == old(self).queue@[k].id
                    &&& q.job_object == old(self).queue@[k].job_object
                    &&& forall|j: int|
                        0 <= j < old(self).queue.len() && j != k ==> final(self).queue@[j]
                            == old(self).queue@[j]
                },
            r is Attached ==> final(self).queue.len() == old(self).queue.len() && final(self).jobs
                == old(self).jobs && final(self).starting == old(self).starting
                && final(self).active_jobs == old(self).active_jobs && final(self).max_concurrent
                == old(self).max_concurrent && final(self).max_queue_length
                == old(self).max_queue_length,
    {
        match self.find_queued(id) {
            Some(k) => {
                let ghost old_queue = self.queue@;
                let mut q = self.queue.remove(k).unwrap();
                if !contains_observer(&q.monitors, observer) {
                    q.monitors.push(observer);
                }
                self.queue.insert(k, q);
                assert(self.queue@ =~= old_queue.update(k as int, q));
                assert(queue_ids(self.queue@) =~= queue_ids(old_queue));
                assert(queue_ids(old_queue)[k as int] == id@);
                assert(!job_ids(self.jobs@).contains(id@));
                MonitorOutcome::Attached
            },
            None => {
                if self.find_job(id).is_some() {
                    MonitorOutcome::AlreadySpawned
                } else {
                    MonitorOutcome::Unknown
                }
            },
        }
    }

    /// Registers `observer` on the runner of job `id` and returns the current
    /// snapshot, so the observer starts from the present state.
    pub fn add_observer(&mut self, id: &str, observer: ObserverId) -> (r: Option<JobData>)
        requires
            old(self).wf(),
        ensures
            final(self).wf(),
            r is Some <==> job_ids(old(self).jobs@).contains(id@),
            r is None ==> *final(self) == *old(self),
            r is Some ==> exists|i: int|
                0 <= i < old(self).jobs.len() && old(self).jobs@[i].runner.id@ == id@ && {
                    let before = old(self).jobs@[i];
                    let after = final(self).jobs@[i];
                    &&& r->Some_0 == before.runner.data
                    &&& after.runner.observers@ == before.runner.observers@.push(observer)
                    &&& after.runner.data == before.runner.data
                    &&& after.runner.id == before.runner.id
                    &&& after.runner.terminal_at == before.runner.terminal_at
                    &&& after.inserted_at == before.inserted_at
                    &&& forall|j: int|
                        0 <= j < old(self).jobs.len() && j != i ==> final(self).jobs@[j]
                            == old(self).jobs@[j]
                },
            r is Some ==> final(self).jobs.len() == old(self).jobs.len() && final(self).queue
                == old(self).queue && final(self).starting == old(self).starting
                && final(self).active_jobs == old(self).active_jobs,
    {
        let i = match self.find_job(id) {
            Some(i) => i,
            None => {
                return None;
            },
        };
        let ghost old_jobs = self.jobs@;
        let mut entry = self.jobs.remove(i);
        entry.runner.add_observer(observer);
        let data = entry.runner.query_data();
        proof {
            lemma_live_update(old_jobs, i as int, entry);
        }
        self.jobs.insert(i, entry);
        assert(self.jobs@ =~= old_jobs.update(i as int, entry));
        assert(job_ids(self.jobs@) =~= job_ids(old_jobs));
        Some(data)
    }

    /// The current snapshot of job `id`, if it has a runner.
    pub fn query_data(&self, id: &str) -> (r: Option<JobData>)
        requires
            self.wf(),
        ensures
            r is Some <==> job_ids(self.jobs@).contains(id@),
            forall|i: int|
                0 <= i < self.jobs.len() && #[trigger] self.jobs@[i].runner.id@ == id@ ==> r == Some(
                    self.jobs@[i].runner.data,
                ),
    {
        match self.find_job(id) {
            Some(i) => {
                proof {
                    self.lemma_job_index(id@, i as int);
                }
                Some(self.jobs[i].runner.query_data())
            },
            None => {
                proof {
                    self.lemma_job_absent(id@);
                }
                None
            },
        }
    }

    /// Where to read the artifact of `kind` for job `id`, or why there is
    /// none; `None` when the job has no runner.
    pub fn request_output(&self, id: &str, kind: OutputKind) -> (r: Option<
        Result<String, OutputRequestError>,
    >)
        requires
            self.wf(),
        ensures
            r is Some <==> job_ids(self.jobs@).contains(id@),
            forall|i: int|
                0 <= i < self.jobs.len() && #[trigger] self.jobs@[i].runner.id@ == id@ ==> {
                    let a = self.jobs@[i].runner.output_answer(kind);
                    &&& r is Some
                    &&& r->Some_0 is Ok <==> a is Ok
                    &&& r->Some_0 is Ok ==> r->Some_0->Ok_0@ == a->Ok_0
                    &&& r->Some_0 is Err ==> r->Some_0->Err_0 == a->Err_0
                },
    {
        match self.find_job(id) {
            Some(i) => {
                proof {
                    self.lemma_job_index(id@, i as int);
                }
                Some(self.jobs[i].runner.request_output(kind))
            },
            None => {
                proof {
                    self.lemma_job_absent(id@);
                }
                None
            },
        }
    }

    /// The runner of job `id`, if there is one.
    pub fn runner(&self, id: &str) -> (r: Option<&JobRunner<J>>)
        requires
            self.wf(),
        ensures
            r is Some <==> job_ids(self.jobs@).contains(id@),
            forall|i: int|
                0 <= i < self.jobs.len() && #[trigger] self.jobs@[i].runner.id@ == id@ ==> r == Some(
                    &self.jobs@[i].runner,
                ),
    {
        match self.find_job(id) {
            Some(i) => {
                proof {
                    self.lemma_job_index(id@, i as int);
                }
                Some(&self.jobs[i].runner)
            },
            None => {
                proof {
                    self.lemma_job_absent(id@);
                }
                None
            },
        }
    }

    /// The janitor's visit to job `id` at time `now`. The entry goes only
    /// when its runner ended at least one timeout ago and two timeouts have
    /// passed since it entered the map; otherwise the next time to look is
    /// given. Removing the entry does not touch the job's artifacts.
    pub fn remove_job(&mut self, id: &str, now: u64) -> (r: RemoveOutcome)
        requires
            old(self).wf(),
        ensures
            final(self).wf(),
            r is Unknown <==> !job_ids(old(self).jobs@).contains(id@),
            !(r is Removed) ==> *final(self) == *old(self),
            forall|i: int|
                0 <= i < old(self).jobs.len() && #[trigger] old(self).jobs@[i].runner.id@ == id@ ==> {
                    &&& r is Removed <==> removable(old(self).jobs@[i], now)
                    &&& r is Removed ==> final(self).jobs@ == old(self).jobs@.remove(i)
                    &&& r is NotYet ==> r->NotYet_0 > now || r->NotYet_0 == u64::MAX
                },
            r is Removed ==> final(self).queue == old(self).queue && final(self).starting == old(
                self,
            ).starting && final(self).active_jobs == old(self).active_jobs,
    {
        let i = match self.find_job(id) {
            Some(i) => i,
            None => {
                proof {
                    self.lemma_job_absent(id@);
                }
                return RemoveOutcome::Unknown;
            },
        };
        proof {
            self.lemma_job_index(id@, i as int);
        }
        let e = &self.jobs[i];
        let t = e.timeout_secs;
        let due: Option<u64> = match t.checked_mul(2) {
            Some(d) => e.inserted_at.checked_add(d),
            None => None,
        };
        let ended: Option<u64> = match e.runner.terminal_at {
            Some(at) => at.checked_add(t),
            None => None,
        };
        let terminal = e.runner.data.status.is_terminal();
        match (due, ended) {
            (Some(d), Some(x)) => {
                if terminal && d <= now && x <= now {
                    let ghost old_jobs = self.jobs@;
                    proof {
                        lemma_live_remove(old_jobs, i as int);
                    }
                    self.jobs.remove(i);
                    assert(job_ids(self.jobs@) =~= job_ids(old_jobs).remove(i as int));
                    return RemoveOutcome::Removed;
                }
                let later = if d > x {
                    d
                } else {
                    x
                };
                if later > now {
                    RemoveOutcome::NotYet(later)
                } else {
                    RemoveOutcome::NotYet(u64::MAX)
                }
            },
            (Some(d), None) => {
                let next = if d > now {
                    d
                } else if now < u64::MAX - t {
                    now + t + 1
                } else {
                    u64::MAX
                };
                RemoveOutcome::NotYet(next)
            },
            _ => RemoveOutcome::NotYet(u64::MAX),
        }
    }

    /// Queue and permit figures: the queue length (when the queue is in use,
    /// that is when concurrency is limited), its limit, and the permits held.
    pub fn vibe_check(&self) -> (r: JobManagerVibeCheckResponse)
        requires
            self.wf(),
        ensures
            r.queue_length == (if self.max_concurrent is Some {
                Some(self.queue.len())
            } else {
                None::<usize>
            }),
            r.max_queue_length == self.max_queue_length,
            r.active_jobs == self.active_jobs,
            self.max_concurrent is Some ==> r.active_jobs <= self.max_concurrent->Some_0,
            self.max_queue_length is Some && r.queue_length is Some ==> r.queue_length->Some_0
                <= self.max_queue_length->Some_0,
    {
        JobManagerVibeCheckResponse {
            queue_length: if self.max_concurrent.is_some() {
                Some(self.queue.len())
            } else {
                None
            },
            max_queue_length: self.max_queue_length,
            active_jobs: self.active_jobs,
        }
    }

    /// Validates the job of a dequeued runner `id` before the host sets it
    /// up. Invalid input ends the job as a setup error carrying the
    /// validation message, and its permit is handed on.
    pub fn validate_dequeued(&mut self, id: &str, now: u64) -> (r: SetupCheck)
        requires
            old(self).wf(),
        ensures
            final(self).wf(),
            !(r is Refused) ==> *final(self) == *old(self),
            r is NotQueued <==> !(exists|i: int|
                0 <= i < old(self).jobs.len() && #[trigger] old(self).jobs@[i].runner.id@ == id@
                    && old(self).jobs@[i].runner.data.status is Queued),
            forall|i: int|
                0 <= i < old(self).jobs.len() && #[trigger] old(self).jobs@[i].runner.id@ == id@
                    && old(self).jobs@[i].runner.data.status is Queued ==> {
                    let before = old(self).jobs@[i];
                    let after = final(self).jobs@[i];
                    &&& r is Proceed <==> before.runner.job_object.spec_input_valid()
                    &&& r is Refused ==> {
                        let step = r->Refused_0;
                        &&& after.runner.data.job_output is None
                        &&& after.runner.data.status is Failed
                        &&& after.runner.data.status->Failed_0 is SetupError
                        &&& after.runner.data.status->Failed_0->SetupError_0@
                            == before.runner.job_object.spec_validation_message()
                        &&& after.runner.terminal_at == Some(now)
                        &&& after.runner.id == before.runner.id
                        &&& after.runner.observers == before.runner.observers
                        &&& after.runner.workdir == before.runner.workdir
                        &&& step.broadcast is Some
                        &&& step.broadcast->Some_0.observers@ == before.runner.observers@
                        &&& step.broadcast->Some_0.data == after.runner.data
                        &&& forall|j: int|
                            0 <= j < old(self).jobs.len() && j != i ==> final(self).jobs@[j]
                                == old(self).jobs@[j]
                        &&& old(self).permit_handed_on(&*final(self), step.dequeued, now)
                    }
                },
    {
        let i = match self.find_job(id) {
            Some(i) => i,
            None => {
                proof {
                    self.lemma_job_absent(id@);
                }
                return SetupCheck::NotQueued;
            },
        };
        proof {
            self.lemma_job_index(id@, i as int);
        }
        match &self.jobs[i].runner.data.status {
            JobStatus::Queued => {},
            _ => {
                return SetupCheck::NotQueued;
            },
        }
        let message = match self.jobs[i].runner.job_object.validate_input() {
            Ok(()) => {
                return SetupCheck::Proceed;
            },
            Err(JobSpawnError::InputValidation(m)) => m,
            Err(_) => String::new(),
        };
        let step = self.initialize_result(id, Err(message), now);
        SetupCheck::Refused(step)
    }
}

} // verus!
