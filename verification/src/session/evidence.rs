//! Failure evidence: bounded diagnostic tails, OOM counter correlation and
//! the classification of how a worker ended.
use vstd::prelude::*;

use std::collections::VecDeque;

use crate::domain::{
    FailureClassification, FailureId, FailureRecord, LinuxOomEvidence, OperationId,
    ProcessMemorySnapshot, RuntimeFailureContext, SessionEvidenceEvent, SessionEvidenceKind,
    SessionId, SystemMemorySnapshot, UtcTimestamp,
};
use crate::text::{bound_text, bounded_chars, concat2, i64_to_decimal, signed_decimal, str_eq};

verus! {

pub const RECENT_SESSION_EVENT_CAPACITY: usize = 64;
pub const RECENT_SESSION_EVENT_DETAIL_CHARS: usize = 160;
pub const FAILURE_CELL_ID_CHARS: usize = 256;

/// A detail text bounded for the recent-evidence tail.
pub fn truncate_session_evidence_detail(value: &str) -> (r: String)
    ensures
        r@ == bounded_chars(value@, RECENT_SESSION_EVENT_DETAIL_CHARS as nat),
{
    bound_text(value, RECENT_SESSION_EVENT_DETAIL_CHARS)
}

/// A cell id bounded for a failure record.
pub fn bounded_failure_cell_id(value: Option<&str>) -> (r: Option<String>)
    ensures
        match value {
            None => r is None,
            Some(v) => r matches Some(s) && s@ == bounded_chars(v@, FAILURE_CELL_ID_CHARS as nat),
        },
{
    match value {
        Some(v) => Some(bound_text(v, FAILURE_CELL_ID_CHARS)),
        None => None,
    }
}

/// Whether the worker has been silent for at least the heartbeat timeout.
pub fn heartbeat_expired(elapsed_ms: u64, heartbeat_timeout_ms: u64) -> (r: bool)
    ensures
        r == (elapsed_ms >= heartbeat_timeout_ms),
{
    elapsed_ms >= heartbeat_timeout_ms
}

/// The model of one evidence entry.
pub struct EvidenceView {
    pub timestamp: UtcTimestamp,
    pub kind: SessionEvidenceKind,
    pub operation_id: Option<OperationId>,
    pub detail: Option<Seq<char>>,
}

pub open spec fn evidence_view(e: SessionEvidenceEvent) -> EvidenceView {
    EvidenceView {
        timestamp: e.timestamp,
        kind: e.kind,
        operation_id: e.operation_id,
        detail: match e.detail {
            Some(d) => Some(d@),
            None => None,
        },
    }
}

/// The last `n` entries of `s` (all of them when there are fewer).
pub open spec fn last_n<A>(s: Seq<A>, n: nat) -> Seq<A> {
    if s.len() <= n {
        s
    } else {
        s.skip(s.len() - n)
    }
}

/// The tail after recording `e`: the oldest entry leaves when the tail is full.
pub open spec fn push_bounded<A>(s: Seq<A>, e: A, capacity: nat) -> Seq<A> {
    if s.len() >= capacity {
        s.skip(s.len() - capacity + 1).push(e)
    } else {
        s.push(e)
    }
}

/// A bounded tail of a Session's recent evidence: the last 64 entries, each
/// detail bounded to 160 characters.
pub struct SessionEventTail {
    events: VecDeque<SessionEvidenceEvent>,
}

impl View for SessionEventTail {
    type V = Seq<EvidenceView>;

    closed spec fn view(&self) -> Seq<EvidenceView> {
        self.events@.map_values(|e: SessionEvidenceEvent| evidence_view(e))
    }
}

impl SessionEventTail {
    /// The tail never holds more than its capacity.
    #[verifier::type_invariant]
    spec fn wf(&self) -> bool {
        self.events@.len() <= RECENT_SESSION_EVENT_CAPACITY
    }

    /// An empty tail.
    pub fn new() -> (r: Self)
        ensures
            r@ == Seq::<EvidenceView>::empty(),
    {
        let r = SessionEventTail { events: VecDeque::new() };
        assert(r@ =~= Seq::<EvidenceView>::empty());
        r
    }

    /// The number of entries held.
    pub fn len(&self) -> (r: usize)
        ensures
            r == self@.len(),
    {
        self.events.len()
    }

    /// Records an entry; its detail is bounded to 160 characters and the oldest
    /// entry leaves when 64 are held.
    pub fn record(
        &mut self,
        timestamp: UtcTimestamp,
        kind: SessionEvidenceKind,
        operation_id: Option<OperationId>,
        detail: Option<&str>,
    )
        ensures
            final(self)@ == push_bounded(
                old(self)@,
                EvidenceView {
                    timestamp,
                    kind,
                    operation_id,
                    detail: match detail {
                        Some(d) => Some(bounded_chars(d@, RECENT_SESSION_EVENT_DETAIL_CHARS as nat)),
                        None => None,
                    },
                },
                RECENT_SESSION_EVENT_CAPACITY as nat,
            ),
    {
        proof {
            use_type_invariant(&*self);
        }
        let ghost before = self@;
        let mut events: VecDeque<SessionEvidenceEvent> = VecDeque::new();
        std::mem::swap(&mut events, &mut self.events);
        if events.len() == RECENT_SESSION_EVENT_CAPACITY {
            let ghost old_events = events@;
            events.pop_front();
            assert(events@ =~= old_events.skip(1));
        }
        let detail = match detail {
            Some(d) => Some(truncate_session_evidence_detail(d)),
            None => None,
        };
        let event = SessionEvidenceEvent { timestamp, kind, operation_id, detail };
        let ghost e = evidence_view(event);
        events.push_back(event);
        self.events = events;
        proof {
            assert(self@ =~= push_bounded(before, e, RECENT_SESSION_EVENT_CAPACITY as nat));
        }
    }

    /// The entries, oldest first, ending the tail.
    pub fn into_events(self) -> (r: Vec<SessionEvidenceEvent>)
        ensures
            r@.map_values(|e: SessionEvidenceEvent| evidence_view(e)) == self@,
    {
        let ghost all = self.events@;
        let mut events = self.events;
        let mut out: Vec<SessionEvidenceEvent> = Vec::new();
        while events.len() > 0
            invariant
                out@ + events@ == all,
            decreases events@.len(),
        {
            let ghost before = events@;
            match events.pop_front() {
                Some(e) => {
                    out.push(e);
                    assert(out@ + events@ =~= all);
                },
                None => {},
            }
        }
        assert(out@ =~= all);
        out
    }
}

/// A tail that records every entry of `entries`, one after another, from empty.
pub open spec fn tail_of<A>(entries: Seq<A>, capacity: nat) -> Seq<A>
    decreases entries.len(),
{
    if entries.len() == 0 {
        Seq::empty()
    } else {
        push_bounded(tail_of(entries.drop_last(), capacity), entries.last(), capacity)
    }
}

/// A bounded tail holds exactly the latest `capacity` entries recorded, oldest first.
pub proof fn lemma_tail_keeps_latest<A>(entries: Seq<A>, capacity: nat)
    requires
        capacity > 0,
    ensures
        tail_of(entries, capacity) == last_n(entries, capacity),
    decreases entries.len(),
{
    if entries.len() > 0 {
        let prefix = entries.drop_last();
        lemma_tail_keeps_latest(prefix, capacity);
        let t = last_n(prefix, capacity);
        if prefix.len() >= capacity {
            assert(t.len() == capacity);
            assert(t.skip(t.len() - capacity + 1).push(entries.last()) =~= entries.skip(
                entries.len() - capacity,
            ));
        } else {
            assert(t.push(entries.last()) =~= last_n(entries, capacity));
        }
    }
}

/// The model of a byte tail: the bytes it holds.
pub open spec fn byte_tail_after(bytes: Seq<u8>, chunk: Seq<u8>, maximum: nat) -> Seq<u8> {
    if maximum == 0 {
        bytes
    } else {
        last_n(bytes + chunk, maximum)
    }
}

/// The last `maximum` bytes written to a stream, for diagnostics.
pub struct ByteTail {
    bytes: Vec<u8>,
    maximum: usize,
}

/// What `String::from_utf8_lossy` makes of a byte sequence.
pub uninterp spec fn utf8_lossy(bytes: Seq<u8>) -> Seq<char>;

/// Decodes bytes as UTF-8 with replacement characters; the wrapped call is
/// `String::from_utf8_lossy`. Its result is named by `utf8_lossy`; of it we
/// state that valid UTF-8 decodes to its characters.
#[verifier::external_body]
pub(crate) fn from_utf8_lossy(bytes: &[u8]) -> (r: String)
    ensures
        r@ == utf8_lossy(bytes@),
        vstd::utf8::valid_utf8(bytes@) ==> r@ == vstd::utf8::decode_utf8(bytes@),
{
    String::from_utf8_lossy(bytes).into_owned()
}

impl View for ByteTail {
    type V = Seq<u8>;

    closed spec fn view(&self) -> Seq<u8> {
        self.bytes@
    }
}

impl ByteTail {
    /// The tail never holds more than `maximum` bytes.
    #[verifier::type_invariant]
    spec fn wf(&self) -> bool {
        self.bytes@.len() <= self.maximum
    }

    pub closed spec fn spec_maximum(&self) -> nat {
        self.maximum as nat
    }

    /// An empty tail that keeps at most `maximum` bytes.
    pub fn new(maximum: usize) -> (r: Self)
        ensures
            r@ == Seq::<u8>::empty(),
            r.spec_maximum() == maximum,
    {
        ByteTail { bytes: Vec::new(), maximum }
    }

    /// Appends `chunk`, keeping only the last `maximum` bytes (nothing when `maximum` is 0).
    pub fn push(&mut self, chunk: &[u8])
        ensures
            final(self).spec_maximum() == old(self).spec_maximum(),
            final(self)@ == byte_tail_after(old(self)@, chunk@, old(self).spec_maximum()),
    {
        proof {
            use_type_invariant(&*self);
        }
        if self.maximum == 0 {
            return;
        }
        let ghost all = self.bytes@ + chunk@;
        if chunk.len() >= self.maximum {
            let mut kept: Vec<u8> = Vec::new();
            let start: usize = chunk.len() - self.maximum;
            let mut i: usize = start;
            while i < chunk.len()
                invariant
                    start <= i <= chunk@.len(),
                    kept@ == chunk@.subrange(start as int, i as int),
                decreases chunk@.len() - i,
            {
                kept.push(chunk[i]);
                assert(chunk@.subrange(start as int, i + 1) =~= chunk@.subrange(
                    start as int,
                    i as int,
                ).push(chunk@[i as int]));
                i += 1;
            }
            proof {
                assert(kept@ =~= all.skip(all.len() - self.maximum));
            }
            self.bytes = kept;
            return;
        }
        let room: usize = self.maximum - chunk.len();
        let overflow: usize = if self.bytes.len() > room {
            self.bytes.len() - room
        } else {
            0
        };
        let mut kept: Vec<u8> = Vec::new();
        let mut i: usize = overflow;
        while i < self.bytes.len()
            invariant
                overflow <= i <= self.bytes@.len(),
                kept@ == self.bytes@.subrange(overflow as int, i as int),
            decreases self.bytes@.len() - i,
        {
            kept.push(self.bytes[i]);
            assert(self.bytes@.subrange(overflow as int, i + 1) =~= self.bytes@.subrange(
                overflow as int,
                i as int,
            ).push(self.bytes@[i as int]));
            i += 1;
        }
        let mut j: usize = 0;
        while j < chunk.len()
            invariant
                0 <= j <= chunk@.len(),
                kept@ == self.bytes@.subrange(overflow as int, self.bytes@.len() as int)
                    + chunk@.take(j as int),
            decreases chunk@.len() - j,
        {
            kept.push(chunk[j]);
            assert(chunk@.take(j + 1) =~= chunk@.take(j as int).push(chunk@[j as int]));
            j += 1;
        }
        proof {
            assert(chunk@.take(j as int) =~= chunk@);
            assert(kept@ =~= last_n(all, self.maximum as nat));
        }
        self.bytes = kept;
    }

    /// The bytes held, decoded as UTF-8 with replacement characters; bytes
    /// that are valid UTF-8 give exactly their characters.
    pub fn text_lossy(&self) -> (r: String)
        ensures
            r@ == utf8_lossy(self@),
            vstd::utf8::valid_utf8(self@) ==> r@ == vstd::utf8::decode_utf8(self@),
    {
        from_utf8_lossy(self.bytes.as_slice())
    }
}

/// Two pushes keep what one push of both chunks keeps: the tail always holds
/// the last `maximum` bytes of everything pushed.
pub proof fn lemma_byte_tail_concat(bytes: Seq<u8>, a: Seq<u8>, b: Seq<u8>, maximum: nat)
    requires
        bytes.len() <= maximum,
    ensures
        byte_tail_after(byte_tail_after(bytes, a, maximum), b, maximum) == byte_tail_after(
            bytes,
            a + b,
            maximum,
        ),
{
    if maximum > 0 {
        let all = bytes + a + b;
        assert(bytes + (a + b) =~= all);
        let t = last_n(bytes + a, maximum);
        assert(last_n(t + b, maximum) =~= last_n(all, maximum));
    }
}

/// Correlates the OOM counters read at failure time with those read when the
/// Session started. A baseline of another cgroup is ignored; a counter that
/// went backwards (a reset) gives no delta.
pub fn correlate_linux_oom_evidence(
    current: LinuxOomEvidence,
    baseline: Option<&LinuxOomEvidence>,
) -> (r: LinuxOomEvidence)
    ensures
        r.cgroup_path == current.cgroup_path,
        r.oom_count == current.oom_count,
        r.oom_kill_count == current.oom_kill_count,
        match baseline {
            Some(b) if b.cgroup_path@ == current.cgroup_path@ => {
                &&& r.baseline_oom_count == Some(b.oom_count)
                &&& r.baseline_oom_kill_count == Some(b.oom_kill_count)
                &&& r.oom_delta == (if current.oom_count >= b.oom_count {
                    Some((current.oom_count - b.oom_count) as u64)
                } else {
                    None::<u64>
                })
                &&& r.oom_kill_delta == (if current.oom_kill_count >= b.oom_kill_count {
                    Some((current.oom_kill_count - b.oom_kill_count) as u64)
                } else {
                    None::<u64>
                })
            },
            _ => r == current,
        },
{
    let mut current = current;
    match baseline {
        Some(b) => {
            if !str_eq(b.cgroup_path.as_str(), current.cgroup_path.as_str()) {
                return current;
            }
            current.baseline_oom_count = Some(b.oom_count);
            current.baseline_oom_kill_count = Some(b.oom_kill_count);
            current.oom_delta = if current.oom_count >= b.oom_count {
                Some(current.oom_count - b.oom_count)
            } else {
                None
            };
            current.oom_kill_delta = if current.oom_kill_count >= b.oom_kill_count {
                Some(current.oom_kill_count - b.oom_kill_count)
            } else {
                None
            };
            current
        },
        None => current,
    }
}

/// An OOM kill in the worker's cgroup since its Session started overrides the
/// classification (OOM suspected, confidence 85 hundredths).
pub fn apply_oom_classification(
    classification: FailureClassification,
    confidence_percent: u8,
    evidence: Option<&LinuxOomEvidence>,
) -> (r: (FailureClassification, u8))
    ensures
        r == (if evidence matches Some(e) && e.oom_kill_delta matches Some(d) && d > 0 {
            (FailureClassification::OomSuspected, 85u8)
        } else {
            (classification, confidence_percent)
        }),
{
    match evidence {
        Some(e) => match e.oom_kill_delta {
            Some(d) => {
                if d > 0 {
                    return (FailureClassification::OomSuspected, 85);
                }
            },
            None => {},
        },
        None => {},
    }
    (classification, confidence_percent)
}

/// How a process exit is classified: an exit by signal is a process signal.
pub fn classify_exit_ref(signal: Option<i32>) -> (r: FailureClassification)
    ensures
        r == (if signal is Some {
            FailureClassification::ProcessSignal
        } else {
            FailureClassification::Unknown
        }),
{
    if signal.is_some() {
        FailureClassification::ProcessSignal
    } else {
        FailureClassification::Unknown
    }
}

/// The classification of a crash. When the Supervisor itself terminated the
/// worker, the signal is recovery, not cause (unknown, 25 hundredths); an
/// observed exit is classified by its signal (50 hundredths); no exit status
/// is unknown (25 hundredths).
pub fn crash_classification(
    exit_signal: Option<Option<i32>>,
    supervisor_terminated: bool,
) -> (r: (FailureClassification, u8))
    ensures
        r == (if supervisor_terminated {
            (FailureClassification::Unknown, 25u8)
        } else {
            match exit_signal {
                Some(signal) => (
                    if signal is Some {
                        FailureClassification::ProcessSignal
                    } else {
                        FailureClassification::Unknown
                    },
                    50u8,
                ),
                None => (FailureClassification::Unknown, 25u8),
            }
        }),
{
    if supervisor_terminated {
        return (FailureClassification::Unknown, 25);
    }
    match exit_signal {
        Some(signal) => (classify_exit_ref(signal), 50),
        None => (FailureClassification::Unknown, 25),
    }
}

/// The description of an exit status with a code or a signal.
pub open spec fn exit_status_text(code: Option<i32>, signal: Option<i32>) -> Option<Seq<char>> {
    match (code, signal) {
        (Some(c), _) => Some("exit code "@ + signed_decimal(c as int)),
        (None, Some(n)) => Some("signal "@ + signed_decimal(n as int)),
        (None, None) => None,
    }
}

/// How an exit status is described: `exit code <n>` when it has a code,
/// otherwise `signal <n>`; `None` when it has neither.
pub fn format_exit_status_ref(code: Option<i32>, signal: Option<i32>) -> (r: Option<String>)
    ensures
        match (code, signal) {
            (Some(c), _) => r matches Some(s) && s@ == "exit code "@ + signed_decimal(c as int),
            (None, Some(n)) => r matches Some(s) && s@ == "signal "@ + signed_decimal(n as int),
            (None, None) => r is None,
        },
{
    match (code, signal) {
        (Some(c), _) => {
            let digits = i64_to_decimal(c as i64);
            Some(concat2("exit code ", digits.as_str()))
        },
        (None, Some(n)) => {
            let digits = i64_to_decimal(n as i64);
            Some(concat2("signal ", digits.as_str()))
        },
        (None, None) => None,
    }
}

/// The same description, for an exit status taken by value.
pub fn format_exit_status(code: Option<i32>, signal: Option<i32>) -> (r: Option<String>)
    ensures
        match (code, signal) {
            (Some(c), _) => r matches Some(s) && s@ == "exit code "@ + signed_decimal(c as int),
            (None, Some(n)) => r matches Some(s) && s@ == "signal "@ + signed_decimal(n as int),
            (None, None) => r is None,
        },
{
    format_exit_status_ref(code, signal)
}

/// A classification with an observed OOM kill taken into account, as
/// `apply_oom_classification` decides.
pub open spec fn oom_override(
    c: (FailureClassification, u8),
    evidence: Option<&LinuxOomEvidence>,
) -> (FailureClassification, u8) {
    if evidence matches Some(e) && e.oom_kill_delta matches Some(d) && d > 0 {
        (FailureClassification::OomSuspected, 85u8)
    } else {
        c
    }
}

/// The classification of a worker that exited by itself: by its signal (80
/// hundredths), unless an OOM kill was observed.
pub fn exit_failure_classification(signal: Option<i32>, evidence: Option<&LinuxOomEvidence>) -> (r: (
    FailureClassification,
    u8,
))
    ensures
        r == oom_override(
            (
                if signal is Some {
                    FailureClassification::ProcessSignal
                } else {
                    FailureClassification::Unknown
                },
                80u8,
            ),
            evidence,
        ),
{
    apply_oom_classification(classify_exit_ref(signal), 80, evidence)
}

/// The classification of a crash. When the Supervisor terminated the worker,
/// an OOM kill counted in the cgroup is not attributed to it; otherwise an
/// observed OOM kill overrides the classification by exit.
pub fn crash_failure_classification(
    exit_signal: Option<Option<i32>>,
    supervisor_terminated: bool,
    evidence: Option<&LinuxOomEvidence>,
) -> (r: (FailureClassification, u8))
    ensures
        supervisor_terminated ==> r == (FailureClassification::Unknown, 25u8),
        !supervisor_terminated ==> r == oom_override(
            match exit_signal {
                Some(signal) => (
                    if signal is Some {
                        FailureClassification::ProcessSignal
                    } else {
                        FailureClassification::Unknown
                    },
                    50u8,
                ),
                None => (FailureClassification::Unknown, 25u8),
            },
            evidence,
        ),
{
    let base = crash_classification(exit_signal, supervisor_terminated);
    if supervisor_terminated {
        base
    } else {
        apply_oom_classification(base.0, base.1, evidence)
    }
}

/// The worker's last standard error with the crash detail appended on a line of its own.
pub open spec fn with_detail(stderr: Seq<char>, detail: Seq<char>) -> Seq<char> {
    if detail.len() == 0 {
        stderr
    } else if stderr.len() == 0 {
        detail
    } else {
        stderr + seq!['\n'] + detail
    }
}

/// Appends a crash detail to the recorded standard error, as `with_detail` states.
pub fn append_failure_detail(stderr: String, detail: &str) -> (r: String)
    ensures
        r@ == with_detail(stderr@, detail@),
{
    if detail.unicode_len() == 0 {
        return stderr;
    }
    let mut out = stderr;
    if out.as_str().unicode_len() > 0 {
        crate::text::push_char(&mut out, '\n');
    }
    out.append(detail);
    out
}

/// The record of one worker failure of a Session.
pub fn failure_record(
    failure_id: FailureId,
    timestamp: UtcTimestamp,
    session_id: SessionId,
    operation_id: Option<OperationId>,
    environment_generation: u64,
    exit_code: Option<i32>,
    signal: Option<i32>,
    last_stderr: String,
    worker_pid: u32,
    worker_memory_snapshot: Option<ProcessMemorySnapshot>,
    wsl_memory_snapshot: Option<SystemMemorySnapshot>,
    linux_oom_evidence: Option<LinuxOomEvidence>,
    runtime_event_context: Option<RuntimeFailureContext>,
    classification: (FailureClassification, u8),
) -> (r: FailureRecord)
    ensures
        r.failure_id == failure_id,
        r.component@ == "session-worker"@,
        r.session_id == Some(session_id),
        r.operation_id == operation_id,
        r.environment_generation == Some(environment_generation),
        r.timestamp == timestamp,
        r.exit_code == exit_code,
        r.signal == signal,
        r.last_stderr == last_stderr,
        r.worker_pid == Some(worker_pid),
        r.worker_memory_snapshot == worker_memory_snapshot,
        r.wsl_memory_snapshot == wsl_memory_snapshot,
        r.linux_oom_evidence == linux_oom_evidence,
        r.runtime_event_context == runtime_event_context,
        r.classification == classification.0,
        r.confidence_percent == classification.1,
{
    FailureRecord {
        failure_id,
        component: crate::text::string_of("session-worker"),
        session_id: Some(session_id),
        operation_id,
        environment_generation: Some(environment_generation),
        timestamp,
        exit_code,
        signal,
        last_stderr,
        worker_pid: Some(worker_pid),
        worker_memory_snapshot,
        wsl_memory_snapshot,
        linux_oom_evidence,
        runtime_event_context,
        classification: classification.0,
        confidence_percent: classification.1,
    }
}

} // verus!
