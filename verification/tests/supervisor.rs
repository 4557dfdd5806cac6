use cokernel::domain::{NotebookId, ProjectId, SessionId, SessionState, UtcTimestamp};
use cokernel::json::{JsonNumber, JsonValue};
use cokernel::protocol::worker::{event, WorkerFrame, WORKER_PROTOCOL_V1};
use cokernel::session::error::SessionError;
use cokernel::session::supervisor::{
    check_heartbeat_budget, check_ready_peer, ensure_primary_reuses, is_live_state, is_stale_session,
    is_terminal_state, queue_depth, restart_plan, socket_file_name, validate_ready, PrimaryState,
    SessionSupervisorConfig, SessionTable, WorkerReady,
};

fn ready_frame(session_id: SessionId, pid: u64, interval: u64) -> WorkerFrame {
    WorkerFrame::Event {
        protocol: WORKER_PROTOCOL_V1,
        session_id: session_id.to_string(),
        event: event::READY.into(),
        payload: JsonValue::Object(vec![
            ("pid".into(), JsonValue::Number(JsonNumber::PosInt(pid))),
            ("heartbeat_interval_ms".into(), JsonValue::Number(JsonNumber::PosInt(interval))),
        ]),
    }
}

#[test]
fn ready_event_announces_pid_and_positive_heartbeat() {
    let session_id = SessionId::new();
    let ready = validate_ready(&ready_frame(session_id, 4242, 2_000), session_id).unwrap();
    assert_eq!(ready, WorkerReady { pid: 4242, heartbeat_interval_ms: 2_000 });
    assert!(matches!(validate_ready(&ready_frame(session_id, 4242, 0), session_id), Err(SessionError::InvalidReady(_))));
    assert!(matches!(
        validate_ready(&ready_frame(session_id, u64::from(u32::MAX) + 1, 10), session_id),
        Err(SessionError::InvalidReady(_))
    ));
    assert!(validate_ready(&ready_frame(SessionId::new(), 1, 10), session_id).is_err());
    assert!(check_heartbeat_budget(10_000, ready).is_ok());
    assert!(check_heartbeat_budget(2_000, ready).is_err());
}

#[test]
fn terminal_states_and_queue_depth() {
    assert!(is_terminal_state(SessionState::Stopped));
    assert!(is_terminal_state(SessionState::Crashed));
    assert!(is_live_state(SessionState::Idle));
    assert_eq!(queue_depth(false, 128, 126), 2);
    assert_eq!(queue_depth(true, 128, 126), 0);
    let config = SessionSupervisorConfig::development("/opt/worker", "/run/ck");
    assert_eq!(config.heartbeat_timeout_ms, 10_000);
    assert_eq!(config.uv_executable, "uv");
}

#[test]
fn socket_name_combines_session_and_worker_generation() {
    let session_id = SessionId::new();
    assert_eq!(socket_file_name(session_id, 3), format!("{}-3.sock", session_id.to_string()));
}

#[test]
fn ensure_keeps_crashed_primary_but_replaces_stopped_one() {
    assert!(ensure_primary_reuses(Some(SessionState::Crashed)));
    assert!(ensure_primary_reuses(Some(SessionState::Idle)));
    assert!(!ensure_primary_reuses(Some(SessionState::Stopped)));
    assert!(!ensure_primary_reuses(None));
}

#[test]
fn restart_keeps_logical_session_at_next_generation() {
    let session_id = SessionId::new();
    let started = UtcTimestamp { unix_seconds: 100, nanos: 0 };
    let plan = restart_plan(Some(PrimaryState {
        session_id,
        state: SessionState::Executing,
        worker_generation: 1,
        started_at: started,
    }));
    assert!(plan.stop_first && plan.wait_first);
    assert_eq!(plan.session_id, Some(session_id));
    assert_eq!(plan.worker_generation, 2);
    assert_eq!(plan.started_at, Some(started));
    let stopping = restart_plan(Some(PrimaryState {
        session_id,
        state: SessionState::Stopping,
        worker_generation: 4,
        started_at: started,
    }));
    assert!(!stopping.stop_first && stopping.wait_first);
    let fresh = restart_plan(None);
    assert_eq!((fresh.session_id, fresh.worker_generation), (None, 1));
}

#[test]
fn only_live_sessions_of_the_project_on_an_old_generation_are_stale() {
    let project = ProjectId::new();
    assert!(is_stale_session(project, 2, project, 1, SessionState::Idle));
    assert!(!is_stale_session(project, 2, project, 2, SessionState::Idle));
    assert!(!is_stale_session(project, 2, ProjectId::new(), 1, SessionState::Idle));
    assert!(!is_stale_session(project, 2, project, 1, SessionState::Crashed));
}

#[test]
fn session_table_keeps_sessions_and_primaries() {
    let mut table: SessionTable<&str> = SessionTable::new();
    let notebook = NotebookId::new();
    let first = SessionId::new();
    let second = SessionId::new();
    table.insert_session(first, "first");
    table.set_primary(notebook, first);
    assert_eq!(table.primary_handle(notebook), Some(&"first"));
    table.insert_session(second, "second");
    table.insert_session(first, "first-restarted");
    assert_eq!(table.get(first), Some(&"first-restarted"));
    assert_eq!(table.get(second), Some(&"second"));
    assert_eq!(table.session_ids().len(), 2);
    table.set_primary(notebook, second);
    assert_eq!(table.primary_of(notebook), Some(second));
    assert_eq!(table.primary_handle(NotebookId::new()), None);
}

#[test]
fn startup_rejects_ready_pid_that_disagrees_with_unix_peer_credentials() {
    let ready = WorkerReady { pid: 4242, heartbeat_interval_ms: 2_000 };
    assert!(matches!(check_ready_peer(ready, Some(4243)), Err(SessionError::InvalidReady(_))));
    assert!(matches!(check_ready_peer(ready, Some(-1)), Err(SessionError::InvalidReady(_))));
    assert!(check_ready_peer(ready, Some(4242)).is_ok());
    assert!(check_ready_peer(ready, None).is_ok());
}

#[test]
fn ready_and_budget_refusals_say_what_is_wrong() {
    let session_id = SessionId::new();
    let ready = WorkerReady { pid: 7, heartbeat_interval_ms: 2_000 };
    match check_heartbeat_budget(2_000, ready) {
        Err(SessionError::InvalidReady(m)) => assert_eq!(m, "heartbeat timeout 2000ms must exceed worker interval 2000ms"),
        other => panic!("unexpected {other:?}"),
    }
    match validate_ready(&ready_frame(session_id, u64::from(u32::MAX) + 1, 10), session_id) {
        Err(SessionError::InvalidReady(m)) => assert_eq!(m, "ready event is missing worker pid"),
        other => panic!("unexpected {other:?}"),
    }
    match validate_ready(&ready_frame(session_id, 7, 0), session_id) {
        Err(SessionError::InvalidReady(m)) => assert_eq!(m, "ready event is missing a positive heartbeat interval"),
        other => panic!("unexpected {other:?}"),
    }
}
