use bansu::http::{limit_from_setting, output_reply, spawn_reply, OutputReply, VibeCheckResponse};
use bansu::acedrg::MSG_NOT_ALLOWED;
use bansu::job_handle::{wait_exit_code, WaitEvent};
use bansu::job_manager::{Admission, MonitorOutcome, RemoveOutcome, SetupCheck};
use bansu::job_runner::WorkerResult;
use bansu::messages::{JobFailureInfo, JobStatusInfo};
use bansu::ws_connection::{close_code_for, CloseCode, TickAction, WsStartAction};
use bansu::{
    AcedrgArgs, AcedrgJob, JobEntry, JobFailureReason, JobManager, JobSpawnError, JobStatus,
    NewJobResponse, OutputKind, OutputRequestError, State, WsConnection, WsJobDataUpdate,
};

fn job(smiles: &str) -> AcedrgJob {
    AcedrgJob {
        args: AcedrgArgs {
            smiles: Some(smiles.to_string()),
            input_mmcif_base64: None,
            input_ccd_code: None,
            commandline_args: vec![],
        },
        timeout_override: None,
    }
}

/// Submits a job; one that gets a permit is set up in `/tmp/<id>`.
fn submit(m: &mut JobManager<AcedrgJob>, j: AcedrgJob, now: u64) -> Result<NewJobResponse, JobSpawnError> {
    match m.new_job(j) {
        Admission::Start { id, job_object } => {
            let workdir = format!("/tmp/{}", id);
            Ok(m.start_succeeded(id, job_object, workdir, now))
        }
        Admission::Queued(resp) => Ok(resp),
        Admission::Rejected(e) => Err(e),
    }
}

fn exited(success: bool) -> WorkerResult {
    WorkerResult::Exited { success, stdout: "out".to_string(), stderr: "err".to_string() }
}

#[test]
fn one_slot_no_queue_rejects_second() {
    let mut m = JobManager::new(Some(1), Some(0));
    let (code, _) = spawn_reply(submit(&mut m, job("CCO"), 0));
    assert_eq!(code, 201);
    let (code, reply) = spawn_reply(submit(&mut m, job("CCO"), 0));
    assert_eq!(code, 503);
    assert!(reply.job_id.is_none());
}

#[test]
fn one_slot_one_queue_place() {
    let mut m = JobManager::new(Some(1), Some(1));
    assert_eq!(spawn_reply(submit(&mut m, job("CCO"), 0)).0, 201);
    let (code, reply) = spawn_reply(submit(&mut m, job("CCO"), 0));
    assert_eq!(code, 202);
    assert_eq!(reply.queue_position, Some(1));
    assert_eq!(spawn_reply(submit(&mut m, job("CCO"), 0)).0, 503);
}

#[test]
fn happy_path() {
    let mut m = JobManager::new(Some(1), Some(0));
    let resp = submit(&mut m, job("CCO"), 0).unwrap();
    let id = resp.id.clone();
    let (code, reply) = spawn_reply(Ok(resp));
    assert_eq!(code, 201);
    assert_eq!(reply.job_id.as_deref(), Some(id.as_str()));
    assert_eq!(reply.queue_position, None);

    let mut ws = WsConnection::new(id.clone(), m.lookup_job(&id)).unwrap();
    assert_eq!(ws.started(), WsStartAction::Handshake);
    let snapshot = m.add_observer(&id, 7).unwrap();
    let frame = ws.job_data(snapshot).unwrap();
    assert_eq!(frame.update.status, JobStatusInfo::Pending);
    assert!(frame.close.is_none());

    let step = m.worker_result(&id, exited(true), 10);
    let b = step.broadcast.unwrap();
    assert_eq!(b.observers, vec![7]);
    let frame = ws.job_data(b.data).unwrap();
    assert_eq!(frame.update.status, JobStatusInfo::Finished);
    let out = frame.update.job_output.unwrap();
    assert_eq!((out.stdout.as_str(), out.stderr.as_str()), ("out", "err"));
    assert_eq!(frame.close, Some(CloseCode::Normal));
    assert!(ws.closed);

    match output_reply(&m, &id, OutputKind::CIF) {
        OutputReply::File(p) => assert_eq!(p, format!("/tmp/{}/acedrg_output.cif", id)),
        _ => panic!("expected a file"),
    }
}

#[test]
fn queuing_three_jobs() {
    let mut m = JobManager::new(Some(1), Some(2));
    let a = submit(&mut m, job("C"), 0).unwrap();
    assert!(matches!(a.entry, JobEntry::Spawned));
    let b = submit(&mut m, job("CC"), 0).unwrap();
    assert!(matches!(b.entry, JobEntry::Queued(1)));
    let c = submit(&mut m, job("CCC"), 0).unwrap();
    assert!(matches!(c.entry, JobEntry::Queued(2)));
    assert_eq!(spawn_reply(Ok(c)).1.queue_position, Some(2));
    let c_id = m.queue[1].id.clone();

    // B's WebSocket follows its queue slot.
    let mut ws_b = WsConnection::new(b.id.clone(), m.lookup_job(&b.id)).unwrap();
    assert_eq!(ws_b.started(), WsStartAction::MonitorQueued);
    assert!(matches!(m.monitor_queued_job(&b.id, 11), MonitorOutcome::Attached));
    let frame = ws_b.lookup_result(m.lookup_job(&b.id)).unwrap();
    assert_eq!(frame.queue_position, Some(1));

    // A finishes: B leaves the queue with its monitor.
    let step = m.worker_result(&a.id, exited(true), 5);
    let d = step.dequeued.unwrap();
    assert_eq!(d.id, b.id);
    assert_eq!(d.monitors, vec![11]);
    assert!(ws_b.set_runner());
    assert!(!ws_b.set_runner());
    assert!(matches!(m.lookup_job(&b.id), Some(JobEntry::Spawned)));

    // B's setup succeeds: its observer sees Pending.
    let step = m.initialize_result(&b.id, Ok("/tmp/b".to_string()), 6);
    let bc = step.broadcast.unwrap();
    assert_eq!(bc.observers, vec![11]);
    let frame = ws_b.job_data(bc.data).unwrap();
    assert_eq!(frame.update.status, JobStatusInfo::Pending);

    assert!(matches!(m.lookup_job(&c_id), Some(JobEntry::Queued(1))));
    let v = m.vibe_check();
    assert_eq!(v.queue_length, Some(1));
    assert_eq!(v.active_jobs, 1);
}

#[test]
fn overflow_is_refused() {
    let mut m = JobManager::new(Some(1), Some(2));
    for _ in 0..3 {
        submit(&mut m, job("C"), 0).unwrap();
    }
    let (code, reply) = spawn_reply(submit(&mut m, job("C"), 0));
    assert_eq!(code, 503);
    assert!(reply.job_id.is_none());
    assert!(reply.error_message.unwrap().starts_with("Server is at capacity"));
}

#[test]
fn validation_reject_changes_nothing() {
    let mut m = JobManager::new(Some(1), Some(2));
    let before = m.vibe_check();
    let mut j = job("CCO");
    j.args.input_mmcif_base64 = Some("Li4u".to_string());
    let (code, reply) = spawn_reply(submit(&mut m, j, 0));
    assert_eq!(code, 400);
    assert!(reply.error_message.unwrap().contains("Exactly one of"));
    assert!(reply.job_id.is_none());
    let after = m.vibe_check();
    assert_eq!(before.active_jobs, after.active_jobs);
    assert_eq!(before.queue_length, after.queue_length);
    assert!(m.jobs.is_empty() && m.queue.is_empty());
}

#[test]
fn timeout_fails_without_output() {
    let mut m = JobManager::new(Some(1), Some(0));
    let mut j = job("CCO");
    j.timeout_override = Some(1);
    let id = submit(&mut m, j, 0).unwrap().id;
    let mut ws = WsConnection::new(id.clone(), m.lookup_job(&id)).unwrap();
    let frame = ws.job_data(m.add_observer(&id, 1).unwrap()).unwrap();
    assert_eq!(frame.update.status, JobStatusInfo::Pending);
    let b = m.worker_result(&id, WorkerResult::TimedOut, 1).broadcast.unwrap();
    let frame = ws.job_data(b.data).unwrap();
    assert_eq!(frame.update.status, JobStatusInfo::Failed);
    assert_eq!(frame.update.failure_reason, Some(JobFailureInfo::TimedOut));
    assert!(frame.update.job_output.is_none());
    assert_eq!(frame.close, Some(CloseCode::Error));
    match output_reply(&m, &id, OutputKind::CIF) {
        OutputReply::BadRequest(OutputRequestError::NoOutputProduced) => {}
        _ => panic!("expected 400 without output"),
    }
    assert_eq!(output_reply(&m, &id, OutputKind::CIF).status_code(), 400);
}

#[test]
fn queued_setup_failure_reaches_monitor_without_pending() {
    let mut m = JobManager::new(Some(1), Some(1));
    let a = submit(&mut m, job("C"), 0).unwrap();
    let b = submit(&mut m, job("CC"), 0).unwrap();
    let mut ws = WsConnection::new(b.id.clone(), m.lookup_job(&b.id)).unwrap();
    assert!(matches!(m.monitor_queued_job(&b.id, 3), MonitorOutcome::Attached));
    let d = m.worker_result(&a.id, exited(true), 2).dequeued.unwrap();
    assert_eq!(d.monitors, vec![3]);
    assert!(ws.set_runner());
    let step = m.initialize_result(&b.id, Err("Could not write input for job".to_string()), 3);
    assert!(step.dequeued.is_none());
    let bc = step.broadcast.unwrap();
    assert_eq!(bc.observers, vec![3]);
    let frame = ws.job_data(bc.data).unwrap();
    assert_eq!(frame.update.status, JobStatusInfo::Failed);
    assert_eq!(frame.update.failure_reason, Some(JobFailureInfo::SetupError));
    assert_eq!(frame.update.error_message.as_deref(), Some("Could not write input for job"));
    assert_eq!(frame.close, Some(CloseCode::Error));
    // The permit is free again.
    assert_eq!(m.vibe_check().active_jobs, 0);
}

#[test]
fn output_while_queued_or_pending_is_refused() {
    let mut m = JobManager::new(Some(1), Some(1));
    let a = submit(&mut m, job("C"), 0).unwrap();
    let b = submit(&mut m, job("CC"), 0).unwrap();
    let r = output_reply(&m, &a.id, OutputKind::CIF);
    assert!(matches!(r, OutputReply::BadRequest(OutputRequestError::JobStillPending)));
    let r = output_reply(&m, &b.id, OutputKind::CIF);
    assert!(matches!(r, OutputReply::BadRequest(OutputRequestError::JobStillPending)));
    assert_eq!(r.status_code(), 400);
    m.worker_result(&a.id, exited(true), 1);
    // B is now a runner in Queued status.
    let r = output_reply(&m, &b.id, OutputKind::CIF);
    assert!(matches!(r, OutputReply::BadRequest(OutputRequestError::JobStillPending)));
    assert!(matches!(output_reply(&m, "nope", OutputKind::CIF), OutputReply::NotFound));
    assert_eq!(OutputReply::NotFound.status_code(), 404);
}

#[test]
fn late_observer_gets_final_frame_only() {
    let mut m = JobManager::new(None, None);
    let id = submit(&mut m, job("CCO"), 0).unwrap().id;
    assert!(m.worker_result(&id, exited(true), 4).broadcast.unwrap().observers.is_empty());
    let mut ws = WsConnection::new(id.clone(), m.lookup_job(&id)).unwrap();
    let frame = ws.job_data(m.add_observer(&id, 9).unwrap()).unwrap();
    assert_eq!(frame.update.status, JobStatusInfo::Finished);
    assert!(frame.update.job_output.is_some());
    assert_eq!(frame.close, Some(CloseCode::Normal));
    assert!(ws.job_data(m.query_data(&id).unwrap()).is_none());
    assert_eq!(ws.periodic_tick(), TickAction::Nothing);
}

#[test]
fn process_error_keeps_output() {
    let mut m = JobManager::new(None, None);
    let id = submit(&mut m, job("CCO"), 0).unwrap().id;
    m.worker_result(&id, exited(false), 1);
    let d = m.query_data(&id).unwrap();
    assert!(matches!(d.status, JobStatus::Failed(JobFailureReason::JobProcessError)));
    assert!(d.job_output.is_some());
    let u = WsJobDataUpdate::from(d);
    assert_eq!(u.failure_reason, Some(JobFailureInfo::JobProcessError));
    assert!(u.error_message.is_none());
}

#[test]
fn join_error_is_setup_error_without_output() {
    let mut m = JobManager::new(None, None);
    let id = submit(&mut m, job("CCO"), 0).unwrap().id;
    m.worker_result(&id, WorkerResult::JoinError("wait failed".to_string()), 1);
    let d = m.query_data(&id).unwrap();
    assert!(d.job_output.is_none());
    assert!(matches!(d.status, JobStatus::Failed(JobFailureReason::SetupError(ref s)) if s == "wait failed"));
}

#[test]
fn second_worker_report_is_ignored() {
    let mut m = JobManager::new(Some(2), None);
    let id = submit(&mut m, job("CCO"), 0).unwrap().id;
    assert!(m.worker_result(&id, exited(true), 1).broadcast.is_some());
    assert!(m.worker_result(&id, WorkerResult::TimedOut, 2).broadcast.is_none());
    assert!(matches!(m.query_data(&id).unwrap().status, JobStatus::Finished));
    assert_eq!(m.vibe_check().active_jobs, 0);
}

#[test]
fn janitor_waits_for_terminal_plus_timeout() {
    let mut m = JobManager::new(None, None);
    let mut j = job("CCO");
    j.timeout_override = Some(10);
    let id = submit(&mut m, j, 100).unwrap().id;
    // Running: not removable, even after two timeouts.
    assert!(matches!(m.remove_job(&id, 50), RemoveOutcome::NotYet(120)));
    assert!(matches!(m.remove_job(&id, 130), RemoveOutcome::NotYet(t) if t > 130));
    m.worker_result(&id, exited(true), 125);
    // Terminal at 125: removable from max(100 + 20, 125 + 10) = 135.
    assert!(matches!(m.remove_job(&id, 134), RemoveOutcome::NotYet(135)));
    assert!(matches!(m.remove_job(&id, 135), RemoveOutcome::Removed));
    assert!(m.lookup_job(&id).is_none());
    assert!(matches!(m.remove_job(&id, 136), RemoveOutcome::Unknown));
}

#[test]
fn ids_are_fresh_uuids() {
    let mut m = JobManager::new(None, None);
    let mut ids = Vec::new();
    for _ in 0..20 {
        let id = submit(&mut m, job("C"), 0).unwrap().id;
        assert_eq!(id.len(), 36);
        assert!(!ids.contains(&id));
        ids.push(id);
    }
}

#[test]
fn start_failure_frees_permit_for_queue() {
    let mut m = JobManager::new(Some(1), Some(1));
    let id = match m.new_job(job("C")) {
        Admission::Start { id, .. } => id,
        _ => panic!("expected a start"),
    };
    let queued = submit(&mut m, job("CC"), 0).unwrap();
    assert!(matches!(queued.entry, JobEntry::Queued(1)));
    assert!(m.is_starting(&id));
    let d = m.start_failed(&id, 1).unwrap();
    assert_eq!(d.id, queued.id);
    assert!(!m.is_starting(&id));
    assert!(m.lookup_job(&id).is_none());
    assert_eq!(m.vibe_check().active_jobs, 1);
    let (code, reply) = spawn_reply(Err(JobSpawnError::Other("Could not start job".to_string())));
    assert_eq!(code, 500);
    assert_eq!(reply.error_message.as_deref(), Some("Could not start job"));
}

#[test]
fn limits_hold_through_a_run() {
    let mut m = JobManager::new(Some(2), Some(3));
    let mut spawned = Vec::new();
    for i in 0..8u64 {
        if let Ok(r) = submit(&mut m, job("C"), i) {
            if matches!(r.entry, JobEntry::Spawned) {
                spawned.push(r.id);
            }
        }
        let v = m.vibe_check();
        assert!(v.active_jobs <= 2);
        assert!(v.queue_length.unwrap() <= 3);
    }
    assert_eq!(m.vibe_check().queue_length, Some(3));
    let step = m.worker_result(&spawned[0], exited(true), 10);
    assert!(step.dequeued.is_some());
    let v = m.vibe_check();
    assert_eq!((v.active_jobs, v.queue_length), (2, Some(2)));
}

#[test]
fn monitor_outcomes() {
    let mut m = JobManager::new(None, None);
    let id = submit(&mut m, job("C"), 0).unwrap().id;
    assert!(matches!(m.monitor_queued_job(&id, 1), MonitorOutcome::AlreadySpawned));
    assert!(matches!(m.monitor_queued_job("missing", 1), MonitorOutcome::Unknown));
    assert!(m.add_observer("missing", 1).is_none());
}

#[test]
fn ws_queue_frame_and_close_codes() {
    let u = WsJobDataUpdate::new_from_queue_pos(4);
    assert_eq!(u.status, JobStatusInfo::Queued);
    assert_eq!(u.queue_position, Some(4));
    assert_eq!(close_code_for(JobStatusInfo::Finished), Some(CloseCode::Normal));
    assert_eq!(close_code_for(JobStatusInfo::Failed), Some(CloseCode::Error));
    assert_eq!(close_code_for(JobStatusInfo::Queued), None);
    assert!(WsConnection::new("x".to_string(), None).is_none());
    let ws = WsConnection::new("x".to_string(), Some(JobEntry::Queued(2))).unwrap();
    assert_eq!(ws.periodic_tick(), TickAction::LookupJob);
    assert!(ws.lookup_result(Some(JobEntry::Spawned)).is_none());
}

#[test]
fn status_conversions() {
    assert_eq!(JobStatusInfo::from(JobStatus::Queued), JobStatusInfo::Queued);
    assert_eq!(
        JobFailureInfo::from(&JobFailureReason::SetupError("m".to_string())),
        JobFailureInfo::SetupError
    );
}

#[test]
fn configured_limits() {
    assert_eq!(limit_from_setting(None, 20), Some(20));
    assert_eq!(limit_from_setting(Some(0), 20), None);
    assert_eq!(limit_from_setting(Some(5), 20), Some(5));
}

#[test]
fn state_and_status_report() {
    let s = State::new(Some(3));
    assert_eq!(s.max_concurrent_jobs, Some(3));
    assert!(s.uptime() < 5);
    let m: JobManager<AcedrgJob> = JobManager::new(Some(3), None);
    let v = VibeCheckResponse::new(m.vibe_check(), s.uptime(), s.version);
    assert_eq!(v.active_jobs, 0);
    assert_eq!(v.queue_length, Some(0));
    assert_eq!(v.max_queue_length, None);
    assert_eq!(v.version, "0.1.0");
}

#[test]
fn monitoring_twice_attaches_once() {
    let mut m = JobManager::new(Some(1), None);
    let a = submit(&mut m, job("C"), 0).unwrap();
    let b = submit(&mut m, job("CC"), 0).unwrap();
    assert!(matches!(m.monitor_queued_job(&b.id, 5), MonitorOutcome::Attached));
    assert!(matches!(m.monitor_queued_job(&b.id, 5), MonitorOutcome::Attached));
    assert!(matches!(m.monitor_queued_job(&b.id, 6), MonitorOutcome::Attached));
    let d = m.worker_result(&a.id, exited(true), 1).dequeued.unwrap();
    assert_eq!(d.monitors, vec![5, 6]);
}

#[test]
fn admission_under_a_given_id() {
    let mut m = JobManager::new(Some(1), Some(2));
    match m.admit_with_id(job("C"), "job-a".to_string()) {
        Admission::Start { id, job_object } => {
            assert_eq!(id, "job-a");
            m.start_succeeded(id, job_object, "/tmp/a".to_string(), 0);
        }
        _ => panic!("expected a start"),
    }
    match m.admit_with_id(job("C"), "job-a".to_string()) {
        Admission::Rejected(JobSpawnError::Other(_)) => {}
        _ => panic!("an id in use must be refused"),
    }
    match m.admit_with_id(job("C"), "job-b".to_string()) {
        Admission::Queued(resp) => {
            assert_eq!(resp.id, "job-b");
            assert!(matches!(resp.entry, JobEntry::Queued(1)));
        }
        _ => panic!("expected the queue"),
    }
    match m.admit_with_id(job("C"), "job-c".to_string()) {
        Admission::Queued(resp) => assert!(matches!(resp.entry, JobEntry::Queued(2))),
        _ => panic!("expected the queue"),
    }
    assert!(matches!(
        m.admit_with_id(job("C"), "job-d".to_string()),
        Admission::Rejected(JobSpawnError::TooManyJobs)
    ));
    // The server is full: capacity decides before the input is looked at.
    assert!(matches!(
        m.admit_with_id(invalid_job(), "job-e".to_string()),
        Admission::Rejected(JobSpawnError::TooManyJobs)
    ));
    // With a free permit the input is validated before the job starts.
    let mut fresh = JobManager::new(Some(1), Some(2));
    assert!(matches!(
        fresh.admit_with_id(invalid_job(), "job-f".to_string()),
        Admission::Rejected(JobSpawnError::InputValidation(_))
    ));
}

#[test]
fn failed_setup_leaves_no_workdir() {
    let mut m = JobManager::new(Some(1), Some(1));
    let a = submit(&mut m, job("C"), 0).unwrap();
    let b = submit(&mut m, job("CC"), 0).unwrap();
    m.worker_result(&a.id, exited(true), 1);
    m.initialize_result(&b.id, Err("Could not write input for job".to_string()), 2);
    assert!(m.runner(&b.id).unwrap().workdir.is_none());
}

fn invalid_job() -> AcedrgJob {
    let mut j = job("CCO");
    j.args.commandline_args = vec!["--bogus".to_string()];
    j
}

#[test]
fn invalid_job_on_full_server_is_refused_for_capacity() {
    let mut m = JobManager::new(Some(1), Some(0));
    submit(&mut m, job("C"), 0).unwrap();
    assert!(matches!(m.new_job(invalid_job()), Admission::Rejected(JobSpawnError::TooManyJobs)));
}

#[test]
fn invalid_queued_job_fails_setup_when_dequeued() {
    let mut m = JobManager::new(Some(1), Some(1));
    let a = submit(&mut m, job("C"), 0).unwrap();
    let b = submit(&mut m, invalid_job(), 0).unwrap();
    assert!(matches!(b.entry, JobEntry::Queued(1)));
    assert!(matches!(m.monitor_queued_job(&b.id, 4), MonitorOutcome::Attached));
    let d = m.worker_result(&a.id, exited(true), 1).dequeued.unwrap();
    assert_eq!(d.id, b.id);
    match m.validate_dequeued(&b.id, 2) {
        SetupCheck::Refused(step) => {
            let bc = step.broadcast.unwrap();
            assert_eq!(bc.observers, vec![4]);
            match bc.data.status {
                JobStatus::Failed(JobFailureReason::SetupError(msg)) => assert_eq!(msg, MSG_NOT_ALLOWED),
                _ => panic!("expected a setup error"),
            }
            assert!(bc.data.job_output.is_none());
            assert!(step.dequeued.is_none());
        }
        _ => panic!("expected a refusal"),
    }
    assert_eq!(m.vibe_check().active_jobs, 0);
    assert!(matches!(m.validate_dequeued(&b.id, 3), SetupCheck::NotQueued));
}

#[test]
fn valid_dequeued_job_proceeds() {
    let mut m = JobManager::new(Some(1), Some(1));
    let a = submit(&mut m, job("C"), 0).unwrap();
    let b = submit(&mut m, job("CC"), 0).unwrap();
    m.worker_result(&a.id, exited(true), 1);
    assert!(matches!(m.validate_dequeued(&b.id, 2), SetupCheck::Proceed));
    assert!(matches!(m.validate_dequeued("unknown", 2), SetupCheck::NotQueued));
    assert!(matches!(m.query_data(&b.id).unwrap().status, JobStatus::Queued));
}

#[test]
fn container_wait_events() {
    assert_eq!(wait_exit_code(&WaitEvent::Exited(0)), Some(0));
    assert_eq!(wait_exit_code(&WaitEvent::WaitErrorWithCode(137)), Some(137));
    assert_eq!(wait_exit_code(&WaitEvent::WaitFailed), None);
}
