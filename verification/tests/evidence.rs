use cokernel::domain::{
    FailureClassification, FailureId, FailureTrigger, LinuxOomEvidence, SessionEvidenceKind,
    SessionId, UtcTimestamp,
};
use cokernel::protocol::FrameError;
use cokernel::session::error::{failure_trigger, SessionError};
use cokernel::session::inspection::SessionInspectionError;
use cokernel::worker::WorkerTransportError;
use cokernel::session::evidence::{
    append_failure_detail, apply_oom_classification, bounded_failure_cell_id,
    correlate_linux_oom_evidence, crash_classification, crash_failure_classification,
    exit_failure_classification, failure_record, format_exit_status, heartbeat_expired,
    truncate_session_evidence_detail, ByteTail, SessionEventTail, RECENT_SESSION_EVENT_CAPACITY,
    RECENT_SESSION_EVENT_DETAIL_CHARS,
};
use cokernel::session::procfs::{
    cgroup_events_file, cgroup_v2_path_from, linux_oom_evidence, parse_cgroup_counter,
    parse_kib_field, process_memory_snapshot, system_memory_snapshot,
};

fn oom_evidence(cgroup_path: &str, oom: u64, oom_kill: u64) -> LinuxOomEvidence {
    LinuxOomEvidence {
        cgroup_path: cgroup_path.into(),
        oom_count: oom,
        oom_kill_count: oom_kill,
        baseline_oom_count: None,
        baseline_oom_kill_count: None,
        oom_delta: None,
        oom_kill_delta: None,
    }
}

fn at(seconds: i64) -> UtcTimestamp {
    UtcTimestamp { unix_seconds: seconds, nanos: 0 }
}

#[test]
fn parses_proc_kib_fields_as_bytes() {
    let sample = "Name:\tpython\nVmSize:\t 2048 kB\nVmRSS:\t 1024 kB\nVmSwap:\t 3 kB\n";
    assert_eq!(parse_kib_field(sample, "VmSize:"), Some(2 * 1024 * 1024));
    assert_eq!(parse_kib_field(sample, "VmRSS:"), Some(1024 * 1024));
    assert_eq!(parse_kib_field(sample, "VmSwap:"), Some(3 * 1024));
    assert_eq!(parse_kib_field(sample, "MemTotal:"), None);
}

#[test]
fn parses_cgroup_v2_memory_event_counters() {
    let sample = "low 0\nhigh 2\nmax 4\noom 3\noom_kill 1\noom_group_kill 0\n";
    assert_eq!(parse_cgroup_counter(sample, "oom"), Some(3));
    assert_eq!(parse_cgroup_counter(sample, "oom_kill"), Some(1));
    assert_eq!(parse_cgroup_counter(sample, "missing"), None);
}

#[test]
fn correlates_same_cgroup_against_session_start_baseline() {
    let baseline = oom_evidence("/user.slice/cokernel", 3, 1);
    let current = correlate_linux_oom_evidence(oom_evidence("/user.slice/cokernel", 5, 2), Some(&baseline));
    assert_eq!(current.baseline_oom_count, Some(3));
    assert_eq!(current.baseline_oom_kill_count, Some(1));
    assert_eq!(current.oom_delta, Some(2));
    assert_eq!(current.oom_kill_delta, Some(1));
    assert_eq!(
        apply_oom_classification(FailureClassification::ProcessSignal, 50, Some(&current)),
        (FailureClassification::OomSuspected, 85)
    );
}

#[test]
fn cgroup_change_or_counter_reset_does_not_invent_oom_causality() {
    let baseline = oom_evidence("/old", 10, 4);
    let changed = correlate_linux_oom_evidence(oom_evidence("/new", 11, 5), Some(&baseline));
    assert_eq!(changed.oom_kill_delta, None);
    assert_eq!(
        apply_oom_classification(FailureClassification::Unknown, 25, Some(&changed)),
        (FailureClassification::Unknown, 25)
    );

    let reset = correlate_linux_oom_evidence(oom_evidence("/old", 1, 0), Some(&baseline));
    assert_eq!(reset.oom_delta, None);
    assert_eq!(reset.oom_kill_delta, None);
}

#[test]
fn failure_triggers_are_structured_from_session_errors() {
    assert_eq!(failure_trigger(&SessionError::WorkerDisconnected), FailureTrigger::WorkerDisconnected);
    assert_eq!(failure_trigger(&SessionError::WorkerHeartbeatTimeout(10_000)), FailureTrigger::HeartbeatTimeout);
    assert_eq!(failure_trigger(&SessionError::CommandChannelClosed), FailureTrigger::RuntimeControl);
    assert_eq!(failure_trigger(&SessionError::StartupTimeout), FailureTrigger::Startup);
    assert_eq!(failure_trigger(&SessionError::Io("broken pipe".into())), FailureTrigger::RuntimeIo);
    assert_eq!(failure_trigger(&SessionError::WorkerExited("exit code 1".into())), FailureTrigger::ProcessExit);
}

#[test]
fn recent_session_event_tail_is_bounded_and_truncates_detail() {
    let mut tail = SessionEventTail::new();
    for index in 0..(RECENT_SESSION_EVENT_CAPACITY + 5) {
        let detail = format!("{index}-{}", "x".repeat(RECENT_SESSION_EVENT_DETAIL_CHARS + 20));
        tail.record(at(index as i64), SessionEvidenceKind::StateChanged, None, Some(&detail));
    }
    let events = tail.into_events();
    assert_eq!(events.len(), RECENT_SESSION_EVENT_CAPACITY);
    assert!(events[0].detail.as_deref().unwrap().starts_with("5-"));
    assert!(events.iter().all(|event| {
        event.detail.as_ref().is_none_or(|detail| detail.chars().count() <= RECENT_SESSION_EVENT_DETAIL_CHARS)
    }));
}

#[test]
fn byte_tail_keeps_only_recent_bytes() {
    let mut tail = ByteTail::new(5);
    tail.push(b"abc");
    tail.push(b"def");
    assert_eq!(tail.text_lossy(), "bcdef");
    tail.push(b"0123456789");
    assert_eq!(tail.text_lossy(), "56789");
}

#[test]
fn byte_tail_of_zero_keeps_nothing_and_decodes_leniently() {
    let mut none = ByteTail::new(0);
    none.push(b"abc");
    assert_eq!(none.text_lossy(), "");
    let mut tail = ByteTail::new(4);
    tail.push(&[b'a', 0xff, b'b']);
    assert_eq!(tail.text_lossy(), "a\u{fffd}b");
}

#[test]
fn long_details_end_with_an_ellipsis() {
    let long = "y".repeat(RECENT_SESSION_EVENT_DETAIL_CHARS + 1);
    let short = truncate_session_evidence_detail(&long);
    assert_eq!(short.chars().count(), RECENT_SESSION_EVENT_DETAIL_CHARS);
    assert!(short.ends_with('\u{2026}'));
    assert_eq!(truncate_session_evidence_detail("short"), "short");
    assert_eq!(bounded_failure_cell_id(None), None);
    assert_eq!(bounded_failure_cell_id(Some("cell-1")).as_deref(), Some("cell-1"));
}

#[test]
fn memory_snapshots_read_only_what_is_present() {
    let status = "Name:\tpython\nVmRSS:\t 10 kB\n";
    let snapshot = process_memory_snapshot(status).unwrap();
    assert_eq!(snapshot.rss_bytes, Some(10 * 1024));
    assert_eq!(snapshot.virtual_bytes, None);
    assert!(process_memory_snapshot("Name:\tpython\n").is_none());
    let meminfo = "MemTotal:       16384 kB\nMemAvailable:    8192 kB\nSwapTotal: 0 kB\n";
    let system = system_memory_snapshot(meminfo).unwrap();
    assert_eq!(system.total_bytes, Some(16384 * 1024));
    assert_eq!(system.available_bytes, Some(8192 * 1024));
    assert_eq!(system.swap_total_bytes, Some(0));
    assert_eq!(system.swap_free_bytes, None);
}

#[test]
fn cgroup_paths_and_events_files() {
    assert_eq!(cgroup_v2_path_from("12:cpu:/x\n0::/user.slice/cokernel \n").as_deref(), Some("/user.slice/cokernel"));
    assert_eq!(cgroup_v2_path_from("0::\n"), None);
    assert_eq!(cgroup_events_file("/user.slice/cokernel"), "/sys/fs/cgroup/user.slice/cokernel/memory.events");
    assert_eq!(cgroup_events_file("/"), "/sys/fs/cgroup/memory.events");
    let evidence = linux_oom_evidence("/a".into(), "oom 3\noom_kill 1\n").unwrap();
    assert_eq!((evidence.oom_count, evidence.oom_kill_count), (3, 1));
    assert!(linux_oom_evidence("/a".into(), "oom 3\n").is_none());
}

#[test]
fn crash_classification_does_not_blame_oom_on_a_terminated_worker() {
    let mut kill = oom_evidence("/a", 2, 2);
    kill.oom_kill_delta = Some(1);
    assert_eq!(crash_classification(Some(Some(9)), false), (FailureClassification::ProcessSignal, 50));
    assert_eq!(crash_classification(Some(None), false), (FailureClassification::Unknown, 50));
    assert_eq!(crash_classification(None, false), (FailureClassification::Unknown, 25));
    assert_eq!(
        crash_failure_classification(Some(Some(9)), true, Some(&kill)),
        (FailureClassification::Unknown, 25)
    );
    assert_eq!(
        crash_failure_classification(Some(Some(9)), false, Some(&kill)),
        (FailureClassification::OomSuspected, 85)
    );
    assert_eq!(exit_failure_classification(Some(9), None), (FailureClassification::ProcessSignal, 80));
    assert_eq!(exit_failure_classification(None, Some(&kill)), (FailureClassification::OomSuspected, 85));
}

#[test]
fn failure_records_carry_details_and_exit_descriptions() {
    assert_eq!(append_failure_detail("".into(), "worker disconnected"), "worker disconnected");
    assert_eq!(append_failure_detail("Traceback".into(), "worker disconnected"), "Traceback\nworker disconnected");
    assert_eq!(append_failure_detail("Traceback".into(), ""), "Traceback");
    assert_eq!(format_exit_status(Some(1), None).as_deref(), Some("exit code 1"));
    assert_eq!(format_exit_status(None, Some(9)).as_deref(), Some("signal 9"));
    assert_eq!(format_exit_status(None, None), None);
    assert!(heartbeat_expired(10_000, 10_000));
    assert!(!heartbeat_expired(9_999, 10_000));
    let session_id = SessionId::new();
    let record = failure_record(
        FailureId::new(),
        at(1),
        session_id,
        None,
        1,
        Some(1),
        None,
        "boom".into(),
        42,
        None,
        None,
        None,
        None,
        (FailureClassification::Unknown, 80),
    );
    assert_eq!(record.component, "session-worker");
    assert_eq!(record.session_id, Some(session_id));
    assert_eq!(record.worker_pid, Some(42));
    assert_eq!(record.environment_generation, Some(1));
    assert_eq!(record.confidence_percent, 80);
}

#[test]
fn errors_describe_themselves() {
    assert_eq!(SessionError::WorkerDisconnected.describe(), "worker disconnected unexpectedly");
    assert_eq!(SessionError::WorkerHeartbeatTimeout(10_000).describe(), "worker heartbeat timed out after 10000ms");
    assert_eq!(
        SessionError::WorkerTransport(WorkerTransportError::Frame(FrameError::TooLarge(9))).describe(),
        "frame length 9 exceeds configured maximum"
    );
    assert_eq!(
        SessionError::WorkerTransport(WorkerTransportError::Protocol("bad".into())).describe(),
        "worker protocol violation: bad"
    );
    let id = SessionId::new();
    assert_eq!(
        SessionError::StopTimeout(id).describe(),
        format!("session {} did not stop before restart timeout", id.to_string())
    );
    assert_eq!(
        SessionInspectionError::WorkerRequest { code: "CK-X".into(), summary: "no".into() }.describe(),
        "worker rejected inspection request (CK-X): no"
    );
    assert_eq!(SessionInspectionError::CommandChannelClosed.describe(), "session inspection channel is closed");
}
