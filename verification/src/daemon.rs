//! State and decisions of the root helper: its numbered log, the snapshot it
//! reports, its single OpenVPN session, and the answer to each client request.
//! Sockets, threads and the OpenVPN process itself are driven from outside.
use vstd::prelude::*;
use crate::ipc::{
    clone_opt_string, Ack, ClientMessage, ConnectRequest, ErrorCode, ErrorMessage, HelloOk, LogEntry,
    LogStream, ServerMessage, SessionSnapshot, VpnPhase, PROTOCOL_VERSION,
};
use crate::text::{cat, cat3, decimal, decimal_string};

verus! {

/// The helper keeps at most this many log lines.
pub const MAX_LOG_LINES: usize = 1000;

/// How many log lines a `get_logs` request without a limit looks at.
pub const DEFAULT_LOGS_LIMIT: usize = 200;

/// The last `n` elements of `s`, or all of it when it is shorter.
pub open spec fn keep_last<A>(s: Seq<A>, n: nat) -> Seq<A> {
    if s.len() > n {
        s.subrange(s.len() - n, s.len() as int)
    } else {
        s
    }
}

/// The log after one more entry: the newest `MAX_LOG_LINES` entries are kept.
pub open spec fn record<A>(logs: Seq<A>, e: A) -> Seq<A> {
    keep_last(logs.push(e), MAX_LOG_LINES as nat)
}

/// The log after recording the entries `es` in order.
pub open spec fn record_all<A>(logs: Seq<A>, es: Seq<A>) -> Seq<A>
    decreases es.len(),
{
    if es.len() == 0 {
        logs
    } else {
        record(record_all(logs, es.drop_last()), es.last())
    }
}

/// The log entries carried by `msgs`, in order.
pub open spec fn logged(msgs: Seq<ServerMessage>) -> Seq<LogEntry>
    decreases msgs.len(),
{
    if msgs.len() == 0 {
        Seq::empty()
    } else {
        let rest = logged(msgs.drop_last());
        match msgs.last() {
            ServerMessage::Log(e) => rest.push(e),
            _ => rest,
        }
    }
}

/// `m` announces the log entry number `seq`, from `stream`, reading `line`.
pub open spec fn is_log(m: ServerMessage, seq: u64, stream: LogStream, line: Seq<char>) -> bool {
    &&& m matches ServerMessage::Log(e)
    &&& e.seq == seq
    &&& e.stream == stream
    &&& e.line@ == line
}

/// The last `n` entries of a log, as `logs_tail` returns them.
pub open spec fn tail<A>(logs: Seq<A>, n: nat) -> Seq<A> {
    keep_last(logs, n)
}

/// The entries of `s` numbered `from` or later.
pub open spec fn entries_from(s: Seq<LogEntry>, from: u64) -> Seq<LogEntry>
    decreases s.len(),
{
    if s.len() == 0 {
        Seq::empty()
    } else {
        let rest = entries_from(s.drop_last(), from);
        if s.last().seq >= from {
            rest.push(s.last())
        } else {
            rest
        }
    }
}

/// Law: recording a line keeps the newest lines: the log grows by one until
/// it holds `MAX_LOG_LINES`, and its last entry is the line just recorded.
pub proof fn law_record_keeps_newest<A>(logs: Seq<A>, e: A)
    requires
        logs.len() <= MAX_LOG_LINES,
    ensures
        record(logs, e).len() == if logs.len() < MAX_LOG_LINES { logs.len() + 1 } else { MAX_LOG_LINES as nat },
        record(logs, e).last() == e,
        forall|i: int| 0 <= i < record(logs, e).len() - 1 ==>
            #[trigger] record(logs, e)[i] == logs[i + logs.len() + 1 - record(logs, e).len()],
{
}

/// Law: the tail of a log just recorded ends with the recorded entry; a
/// client that asks for at least one line sees the newest one last.
pub proof fn law_tail_ends_with_newest<A>(logs: Seq<A>, e: A, n: nat)
    requires
        n >= 1,
    ensures
        tail(record(logs, e), n).len() >= 1,
        tail(record(logs, e), n).last() == e,
{
}

/// Law: the tail of a log is its last `min(n, len)` entries, in order.
pub proof fn law_tail_is_suffix<A>(logs: Seq<A>, n: nat)
    ensures
        tail(logs, n).len() == if n < logs.len() { n } else { logs.len() },
        forall|i: int| 0 <= i < tail(logs, n).len() ==>
            #[trigger] tail(logs, n)[i] == logs[i + logs.len() - tail(logs, n).len()],
{
}

/// The running OpenVPN session, as the helper remembers it.
#[derive(Debug, Clone)]
pub struct SessionInfo {
    pub profile_name: String,
    pub proxy_name: Option<String>,
    pub pid: u32,
    pub started_at_unix_ms: u64,
}

/// A message sent to the thread that owns the session.
#[derive(Debug)]
pub enum ManagerCommand {
    Connect(ConnectRequest),
    Disconnect,
    ProcessConnected,
    ProcessExited(Result<(), String>),
}

/// What the helper does with one client request.
#[derive(Debug)]
pub enum ClientAction {
    /// Answer the client with this message.
    Reply(ServerMessage),
    /// Pass the command to the session owner and answer the client with the acknowledgement.
    Forward(ManagerCommand, ServerMessage),
    /// Collect the environment checks and answer with them.
    ReportHealth,
}

/// The name of the proxy of a request, if it has one.
pub open spec fn proxy_name_of(req: ConnectRequest) -> Option<String> {
    match req.proxy {
        Some(p) => Some(p.name),
        None => None,
    }
}

/// The helper's shared state.
pub struct HelperState {
    pub snapshot: SessionSnapshot,
    pub logs: Vec<LogEntry>,
    pub next_log_seq: u64,
    pub session: Option<SessionInfo>,
}

impl HelperState {
    /// The invariant of the log: bounded, numbered in increasing order below
    /// the next number, and the snapshot names the last number handed out.
    pub open spec fn wf(self) -> bool {
        &&& self.logs@.len() <= MAX_LOG_LINES
        &&& 1 <= self.next_log_seq
        &&& forall|i: int, j: int|
            0 <= i < j < self.logs@.len() ==> #[trigger] self.logs@[i].seq < #[trigger] self.logs@[j].seq
        &&& forall|i: int| 0 <= i < self.logs@.len() ==> #[trigger] self.logs@[i].seq < self.next_log_seq
        &&& self.snapshot.last_log_seq == self.next_log_seq - 1
    }

    /// The session and the snapshot agree: a session exists exactly while the
    /// phase is connecting or connected, and the snapshot names it.
    pub open spec fn settled(self) -> bool {
        match self.session {
            Some(s) => {
                &&& (self.snapshot.phase == VpnPhase::Connecting || self.snapshot.phase == VpnPhase::Connected)
                &&& self.snapshot.active_profile_name == Some(s.profile_name)
                &&& self.snapshot.active_proxy_name == s.proxy_name
                &&& self.snapshot.pid == Some(s.pid)
                &&& self.snapshot.started_at_unix_ms == Some(s.started_at_unix_ms)
            },
            None => self.snapshot.phase == VpnPhase::Idle || self.snapshot.phase == VpnPhase::Failed,
        }
    }

    /// `new` has recorded the messages `msgs` on top of `old`: its log holds
    /// their entries, numbered on from the old counter.
    pub open spec fn recorded(old: Self, new: Self, msgs: Seq<ServerMessage>) -> bool {
        &&& new.logs@ == record_all(old.logs@, logged(msgs))
        &&& new.next_log_seq == old.next_log_seq + logged(msgs).len()
    }

    /// A helper with no session and an empty log.
    pub fn new() -> (r: Self)
        ensures
            r.wf(),
            r.settled(),
            r.snapshot == (SessionSnapshot { phase: VpnPhase::Idle, active_profile_name: None,
                active_proxy_name: None, pid: None, started_at_unix_ms: None, last_error: None,
                last_log_seq: 0 }),
            r.logs@.len() == 0,
            r.next_log_seq == 1,
            r.session is None,
    {
        HelperState { snapshot: SessionSnapshot::idle(), logs: Vec::new(), next_log_seq: 1, session: None }
    }

    /// A copy of the current snapshot.
    pub fn snapshot(&self) -> (r: SessionSnapshot)
        ensures
            r == self.snapshot,
    {
        self.snapshot.duplicate()
    }

    /// The number of the newest log entry, 0 before the first.
    pub fn last_log_seq(&self) -> (r: u64)
        ensures
            r == (if self.next_log_seq == 0 { 0 } else { self.next_log_seq - 1 }),
    {
        if self.next_log_seq == 0 {
            0
        } else {
            self.next_log_seq - 1
        }
    }

    /// The newest `requested` log entries, oldest first.
    pub fn logs_tail(&self, requested: usize) -> (r: Vec<LogEntry>)
        ensures
            r@ == tail(self.logs@, requested as nat),
    {
        let len = self.logs.len();
        let count = if requested < len { requested } else { len };
        let start = len - count;
        let mut r: Vec<LogEntry> = Vec::new();
        let mut i = start;
        while i < len
            invariant
                len == self.logs@.len(),
                start <= i <= len,
                r@ == self.logs@.subrange(start as int, i as int),
            decreases len - i,
        {
            r.push(self.logs[i].duplicate());
            i = i + 1;
            assert(r@ =~= self.logs@.subrange(start as int, i as int));
        }
        r
    }

    /// The log entries a `get_logs` request asks for: among the newest
    /// `limit` (200 when not given), those numbered `from_seq` or later.
    pub fn logs_for_request(&self, from_seq: Option<u64>, limit: Option<usize>) -> (r: Vec<LogEntry>)
        ensures
            r@ == ({
                let t = tail(self.logs@, match limit { Some(l) => l as nat, None => DEFAULT_LOGS_LIMIT as nat });
                match from_seq {
                    Some(s) => entries_from(t, s),
                    None => t,
                }
            }),
    {
        let n = match limit {
            Some(l) => l,
            None => DEFAULT_LOGS_LIMIT,
        };
        let logs = self.logs_tail(n);
        match from_seq {
            None => logs,
            Some(from) => {
                let mut r: Vec<LogEntry> = Vec::new();
                let mut i: usize = 0;
                while i < logs.len()
                    invariant
                        i <= logs.len(),
                        r@ == entries_from(logs@.take(i as int), from),
                    decreases logs.len() - i,
                {
                    proof {
                        assert(logs@.take(i + 1).drop_last() =~= logs@.take(i as int));
                    }
                    if logs[i].seq >= from {
                        r.push(logs[i].duplicate());
                    }
                    i = i + 1;
                }
                assert(logs@.take(logs.len() as int) =~= logs@);
                r
            },
        }
    }

    /// Records one log line and returns the message that announces it.
    pub fn append_log(&mut self, stream: LogStream, line: String) -> (m: ServerMessage)
        requires
            old(self).wf(),
            old(self).next_log_seq < u64::MAX,
        ensures
            final(self).wf(),
            is_log(m, old(self).next_log_seq, stream, line@),
            m matches ServerMessage::Log(e) && final(self).logs@ == record(old(self).logs@, e),
            final(self).next_log_seq == old(self).next_log_seq + 1,
            final(self).snapshot == (SessionSnapshot { last_log_seq: old(self).next_log_seq, ..old(self).snapshot }),
            final(self).session == old(self).session,
    {
        let seq = self.next_log_seq;
        self.next_log_seq = self.next_log_seq + 1;
        let entry = LogEntry::new(seq, stream, line);
        let ghost before = self.logs@;
        self.logs.push(entry.duplicate());
        while self.logs.len() > MAX_LOG_LINES
            invariant
                self.logs@.len() <= MAX_LOG_LINES + 1,
                before.len() <= MAX_LOG_LINES,
                before == old(self).logs@,
                self.next_log_seq == seq + 1,
                self.snapshot == old(self).snapshot,
                self.session == old(self).session,
                entry.seq == seq,
                self.logs@.len() >= MAX_LOG_LINES || self.logs@.len() == before.len() + 1,
                self.logs@ == keep_last(before.push(entry), self.logs@.len() as nat),
            decreases self.logs@.len(),
        {
            self.logs.remove(0);
        }
        self.snapshot.last_log_seq = seq;
        proof {
            let pushed = before.push(entry);
            assert(self.logs@ == keep_last(pushed, MAX_LOG_LINES as nat));
            assert forall|i: int, j: int| 0 <= i < j < self.logs@.len() implies
                #[trigger] self.logs@[i].seq < #[trigger] self.logs@[j].seq by {
                let off = pushed.len() - self.logs@.len();
                assert(self.logs@[i] == pushed[i + off]);
                assert(self.logs@[j] == pushed[j + off]);
                if j + off < before.len() {
                    assert(before[i + off].seq < before[j + off].seq);
                } else {
                    assert(before[i + off].seq < seq);
                }
            }
            assert forall|i: int| 0 <= i < self.logs@.len() implies #[trigger] self.logs@[i].seq < self.next_log_seq by {
                let off = pushed.len() - self.logs@.len();
                assert(self.logs@[i] == pushed[i + off]);
                if i + off < before.len() {
                    assert(before[i + off].seq < seq);
                }
            }
        }
        ServerMessage::Log(entry)
    }

    /// Replaces the snapshot and returns the message that announces it.
    pub fn set_phase(
        &mut self,
        phase: VpnPhase,
        active_profile_name: Option<String>,
        active_proxy_name: Option<String>,
        pid: Option<u32>,
        started_at_unix_ms: Option<u64>,
        last_error: Option<String>,
    ) -> (m: ServerMessage)
        requires
            old(self).wf(),
        ensures
            final(self).wf(),
            final(self).snapshot == (SessionSnapshot { phase, active_profile_name, active_proxy_name, pid,
                started_at_unix_ms, last_error, last_log_seq: (old(self).next_log_seq - 1) as u64 }),
            m == ServerMessage::StateChanged(final(self).snapshot),
            final(self).logs == old(self).logs,
            final(self).next_log_seq == old(self).next_log_seq,
            final(self).session == old(self).session,
    {
        let last = self.last_log_seq();
        self.snapshot = SessionSnapshot {
            phase,
            active_profile_name,
            active_proxy_name,
            pid,
            started_at_unix_ms,
            last_error,
            last_log_seq: last,
        };
        ServerMessage::StateChanged(self.snapshot.duplicate())
    }
}


/// `logged` of a sequence grown by one message.
pub proof fn lemma_logged_push(msgs: Seq<ServerMessage>, m: ServerMessage)
    ensures
        logged(msgs.push(m)) == (match m {
            ServerMessage::Log(e) => logged(msgs).push(e),
            _ => logged(msgs),
        }),
{
    assert(msgs.push(m).drop_last() =~= msgs);
}

/// `record_all` of a sequence grown by one entry.
pub proof fn lemma_record_all_push<A>(logs: Seq<A>, es: Seq<A>, e: A)
    ensures
        record_all(logs, es.push(e)) == record(record_all(logs, es), e),
{
    assert(es.push(e).drop_last() =~= es);
}

/// A log line followed by a message of another kind records just that line.
pub proof fn lemma_log_then_other(logs: Seq<LogEntry>, msgs: Seq<ServerMessage>)
    requires
        msgs.len() == 2,
        msgs[0] is Log,
        !(msgs[1] is Log),
    ensures
        logged(msgs) == seq![msgs[0]->Log_0],
        record_all(logs, logged(msgs)) == record(logs, msgs[0]->Log_0),
{
    lemma_logged_push(Seq::empty(), msgs[0]);
    lemma_logged_push(seq![msgs[0]], msgs[1]);
    assert(seq![msgs[0]].push(msgs[1]) =~= msgs);
    assert(Seq::<ServerMessage>::empty().push(msgs[0]) =~= seq![msgs[0]]);
    let e = msgs[0]->Log_0;
    lemma_record_all_push(logs, Seq::empty(), e);
    assert(Seq::<LogEntry>::empty().push(e) =~= seq![e]);
}

/// A single message that is no log line records nothing.
pub proof fn lemma_single_other(msgs: Seq<ServerMessage>)
    requires
        msgs.len() == 1,
        !(msgs[0] is Log),
    ensures
        logged(msgs) == Seq::<LogEntry>::empty(),
{
    lemma_logged_push(Seq::empty(), msgs[0]);
    assert(Seq::<ServerMessage>::empty().push(msgs[0]) =~= msgs);
}

/// The snapshot that `set_phase` stores when the next log number is `next`.
pub open spec fn phase_snapshot(
    phase: VpnPhase,
    profile: Option<String>,
    proxy: Option<String>,
    pid: Option<u32>,
    started: Option<u64>,
    error: Option<String>,
    next: u64,
) -> SessionSnapshot {
    SessionSnapshot {
        phase,
        active_profile_name: profile,
        active_proxy_name: proxy,
        pid,
        started_at_unix_ms: started,
        last_error: error,
        last_log_seq: (next - 1) as u64,
    }
}

/// The outcome of starting OpenVPN: its process id and start time.
#[derive(Debug, Clone, Copy)]
pub struct SpawnedProcess {
    pub pid: u32,
    pub started_at_unix_ms: u64,
}

/// `msgs` is a log line numbered `seq` followed by the announcement of the
/// snapshot `snap`.
pub open spec fn log_then_state(msgs: Seq<ServerMessage>, seq: u64, line: Seq<char>, snap: SessionSnapshot) -> bool {
    &&& msgs.len() == 2
    &&& is_log(msgs[0], seq, LogStream::Internal, line)
    &&& msgs[1] == ServerMessage::StateChanged(snap)
}

impl HelperState {
    /// A connection request reaches the session owner. With a session running
    /// the request is refused as busy and nothing but the log changes;
    /// otherwise the helper announces that it is connecting and `true` asks
    /// the caller to start OpenVPN.
    pub fn on_connect(&mut self, req: &ConnectRequest) -> (r: (Vec<ServerMessage>, bool))
        requires
            old(self).wf(),
            old(self).next_log_seq < u64::MAX,
        ensures
            final(self).wf(),
            Self::recorded(*old(self), *final(self), r.0@),
            final(self).next_log_seq == old(self).next_log_seq + 1,
            old(self).session is Some ==> ({
                &&& !r.1
                &&& r.0@.len() == 2
                &&& is_log(r.0@[0], old(self).next_log_seq, LogStream::Internal,
                    "Ya existe una sesión activa; ignorando nueva conexión"@)
                &&& r.0@[1] matches ServerMessage::Error(em)
                &&& em.code == ErrorCode::Busy
                &&& em.message@ == "Ya existe una VPN activa"@
                &&& final(self).session == old(self).session
                &&& final(self).snapshot == (SessionSnapshot { last_log_seq: old(self).next_log_seq, ..old(self).snapshot })
            }),
            old(self).session is None ==> ({
                &&& r.1
                &&& log_then_state(r.0@, old(self).next_log_seq,
                    "Iniciando OpenVPN para '"@ + req.profile_name@ + "'"@, final(self).snapshot)
                &&& final(self).snapshot == phase_snapshot(VpnPhase::Connecting, Some(req.profile_name),
                    proxy_name_of(*req), None, None, None, final(self).next_log_seq)
                &&& final(self).session is None
            }),
    {
        let ghost start = *self;
        let mut msgs: Vec<ServerMessage> = Vec::new();
        if self.session.is_some() {
            let m = self.append_log(LogStream::Internal, String::from_str("Ya existe una sesión activa; ignorando nueva conexión"));
            msgs.push(m);
            msgs.push(ServerMessage::Error(ErrorMessage {
                code: ErrorCode::Busy,
                message: String::from_str("Ya existe una VPN activa"),
            }));
            proof { lemma_log_then_other(start.logs@, msgs@); }
            return (msgs, false);
        }
        let line = cat3("Iniciando OpenVPN para '", req.profile_name.as_str(), "'");
        let m = self.append_log(LogStream::Internal, line);
        msgs.push(m);
        let proxy_name = match &req.proxy {
            Some(p) => Some(p.name.clone()),
            None => None,
        };
        let s = self.set_phase(VpnPhase::Connecting, Some(req.profile_name.clone()), proxy_name, None, None, None);
        msgs.push(s);
        proof { lemma_log_then_other(start.logs@, msgs@); }
        (msgs, true)
    }

    /// The outcome of starting OpenVPN after `on_connect` asked for it. A
    /// started process becomes the session, still connecting; a failure to
    /// start is logged and leaves the helper failed with no session.
    pub fn on_spawned(&mut self, req: &ConnectRequest, outcome: Result<SpawnedProcess, String>) -> (msgs: Vec<ServerMessage>)
        requires
            old(self).wf(),
            old(self).next_log_seq < u64::MAX,
            old(self).session is None,
        ensures
            final(self).wf(),
            final(self).settled(),
            Self::recorded(*old(self), *final(self), msgs@),
            final(self).next_log_seq == old(self).next_log_seq + if outcome is Ok { 0int } else { 1int },
            match outcome {
                Ok(p) => {
                    &&& msgs@ == seq![ServerMessage::StateChanged(final(self).snapshot)]
                    &&& final(self).snapshot == phase_snapshot(VpnPhase::Connecting, Some(req.profile_name),
                        proxy_name_of(*req), Some(p.pid), Some(p.started_at_unix_ms), None, final(self).next_log_seq)
                    &&& final(self).session == Some(SessionInfo { profile_name: req.profile_name,
                        proxy_name: proxy_name_of(*req), pid: p.pid, started_at_unix_ms: p.started_at_unix_ms })
                },
                Err(e) => {
                    let text = "No se pudo lanzar OpenVPN: "@ + e@;
                    &&& log_then_state(msgs@, old(self).next_log_seq, text, final(self).snapshot)
                    &&& final(self).snapshot.phase == VpnPhase::Failed
                    &&& final(self).snapshot.active_profile_name is None
                    &&& final(self).snapshot.active_proxy_name is None
                    &&& final(self).snapshot.pid is None
                    &&& final(self).snapshot.started_at_unix_ms is None
                    &&& final(self).snapshot.last_error matches Some(t) && t@ == text
                    &&& final(self).snapshot.last_log_seq == old(self).next_log_seq
                    &&& final(self).session is None
                },
            },
    {
        let ghost start = *self;
        let mut msgs: Vec<ServerMessage> = Vec::new();
        let proxy_name = match &req.proxy {
            Some(p) => Some(p.name.clone()),
            None => None,
        };
        match outcome {
            Ok(p) => {
                let s = self.set_phase(VpnPhase::Connecting, Some(req.profile_name.clone()),
                    clone_opt_string(&proxy_name), Some(p.pid), Some(p.started_at_unix_ms), None);
                msgs.push(s);
                self.session = Some(SessionInfo {
                    profile_name: req.profile_name.clone(),
                    proxy_name,
                    pid: p.pid,
                    started_at_unix_ms: p.started_at_unix_ms,
                });
                proof { lemma_single_other(msgs@); }
            },
            Err(e) => {
                let text = cat("No se pudo lanzar OpenVPN: ", e.as_str());
                let m = self.append_log(LogStream::Internal, text.clone());
                msgs.push(m);
                let s = self.set_phase(VpnPhase::Failed, None, None, None, None, Some(text));
                msgs.push(s);
                proof { lemma_log_then_other(start.logs@, msgs@); }
            },
        }
        msgs
    }

    /// A disconnection request reaches the session owner. A running session is
    /// taken out of the state and returned for the caller to stop, while the
    /// helper announces that it is disconnecting; without one the helper logs
    /// so and repeats its snapshot.
    pub fn on_disconnect(&mut self) -> (r: (Vec<ServerMessage>, Option<SessionInfo>))
        requires
            old(self).wf(),
            old(self).next_log_seq < u64::MAX,
        ensures
            final(self).wf(),
            Self::recorded(*old(self), *final(self), r.0@),
            final(self).next_log_seq == old(self).next_log_seq + 1,
            final(self).session is None,
            r.1 == old(self).session,
            match old(self).session {
                Some(s) => {
                    &&& log_then_state(r.0@, old(self).next_log_seq, "Solicitando desconexión"@, final(self).snapshot)
                    &&& final(self).snapshot == phase_snapshot(VpnPhase::Disconnecting, Some(s.profile_name),
                        s.proxy_name, Some(s.pid), Some(s.started_at_unix_ms), None, final(self).next_log_seq)
                },
                None => {
                    &&& r.0@.len() == 2
                    &&& is_log(r.0@[0], old(self).next_log_seq, LogStream::Internal, "No hay VPN activa"@)
                    &&& r.0@[1] == ServerMessage::Snapshot(final(self).snapshot)
                    &&& final(self).snapshot == (SessionSnapshot { last_log_seq: old(self).next_log_seq, ..old(self).snapshot })
                },
            },
    {
        let ghost start = *self;
        let mut msgs: Vec<ServerMessage> = Vec::new();
        let taken = self.session.take();
        match taken {
            Some(s) => {
                let m = self.append_log(LogStream::Internal, String::from_str("Solicitando desconexión"));
                msgs.push(m);
                let st = self.set_phase(VpnPhase::Disconnecting, Some(s.profile_name.clone()),
                    clone_opt_string(&s.proxy_name), Some(s.pid), Some(s.started_at_unix_ms), None);
                msgs.push(st);
                proof { lemma_log_then_other(start.logs@, msgs@); }
                (msgs, Some(s))
            },
            None => {
                let m = self.append_log(LogStream::Internal, String::from_str("No hay VPN activa"));
                msgs.push(m);
                msgs.push(ServerMessage::Snapshot(self.snapshot()));
                proof { lemma_log_then_other(start.logs@, msgs@); }
                (msgs, None)
            },
        }
    }

    /// The session taken by `on_disconnect` has been stopped, or stopping it
    /// failed. Either way the helper ends settled with no session: idle, or
    /// failed with the stopped session's names and the error.
    pub fn on_stopped(&mut self, stopped: &SessionInfo, result: Result<(), String>) -> (msgs: Vec<ServerMessage>)
        requires
            old(self).wf(),
            old(self).next_log_seq < u64::MAX,
            old(self).session is None,
        ensures
            final(self).wf(),
            final(self).settled(),
            final(self).session is None,
            Self::recorded(*old(self), *final(self), msgs@),
            final(self).next_log_seq == old(self).next_log_seq + 1,
            match result {
                Ok(_) => {
                    &&& log_then_state(msgs@, old(self).next_log_seq, "VPN desconectada"@, final(self).snapshot)
                    &&& final(self).snapshot == phase_snapshot(VpnPhase::Idle, None, None, None, None, None,
                        final(self).next_log_seq)
                },
                Err(e) => {
                    let text = "Error al detener OpenVPN: "@ + e@;
                    &&& log_then_state(msgs@, old(self).next_log_seq, text, final(self).snapshot)
                    &&& final(self).snapshot.phase == VpnPhase::Failed
                    &&& final(self).snapshot.active_profile_name == Some(stopped.profile_name)
                    &&& final(self).snapshot.active_proxy_name == stopped.proxy_name
                    &&& final(self).snapshot.pid is None
                    &&& final(self).snapshot.started_at_unix_ms is None
                    &&& final(self).snapshot.last_error matches Some(t) && t@ == text
                    &&& final(self).snapshot.last_log_seq == old(self).next_log_seq
                },
            },
    {
        let ghost start = *self;
        let mut msgs: Vec<ServerMessage> = Vec::new();
        match result {
            Ok(_) => {
                let m = self.append_log(LogStream::Internal, String::from_str("VPN desconectada"));
                msgs.push(m);
                let st = self.set_phase(VpnPhase::Idle, None, None, None, None, None);
                msgs.push(st);
            },
            Err(e) => {
                let text = cat("Error al detener OpenVPN: ", e.as_str());
                let m = self.append_log(LogStream::Internal, text.clone());
                msgs.push(m);
                let st = self.set_phase(VpnPhase::Failed, Some(stopped.profile_name.clone()),
                    clone_opt_string(&stopped.proxy_name), None, None, Some(text));
                msgs.push(st);
            },
        }
        proof { lemma_log_then_other(start.logs@, msgs@); }
        msgs
    }

    /// OpenVPN reported that the tunnel is up. A running session becomes
    /// connected; without one nothing happens.
    pub fn on_process_connected(&mut self) -> (msgs: Vec<ServerMessage>)
        requires
            old(self).wf(),
        ensures
            final(self).wf(),
            old(self).settled() ==> final(self).settled(),
            Self::recorded(*old(self), *final(self), msgs@),
            final(self).next_log_seq == old(self).next_log_seq,
            final(self).session == old(self).session,
            match old(self).session {
                Some(s) => {
                    &&& msgs@ == seq![ServerMessage::StateChanged(final(self).snapshot)]
                    &&& final(self).snapshot == phase_snapshot(VpnPhase::Connected, Some(s.profile_name),
                        s.proxy_name, Some(s.pid), Some(s.started_at_unix_ms), None, final(self).next_log_seq)
                },
                None => msgs@.len() == 0 && *final(self) == *old(self),
            },
    {
        let mut msgs: Vec<ServerMessage> = Vec::new();
        match &self.session {
            Some(s) => {
                let profile = s.profile_name.clone();
                let proxy = clone_opt_string(&s.proxy_name);
                let pid = s.pid;
                let started = s.started_at_unix_ms;
                let st = self.set_phase(VpnPhase::Connected, Some(profile), proxy, Some(pid), Some(started), None);
                msgs.push(st);
                proof { lemma_single_other(msgs@); }
            },
            None => {
                assert(msgs@ =~= Seq::<ServerMessage>::empty());
            },
        }
        msgs
    }

    /// The OpenVPN process ended. The session, if any, is dropped and the
    /// helper becomes idle after a clean exit, or failed with the session's
    /// names and the error otherwise.
    pub fn on_process_exited(&mut self, result: Result<(), String>) -> (msgs: Vec<ServerMessage>)
        requires
            old(self).wf(),
            old(self).next_log_seq < u64::MAX,
        ensures
            final(self).wf(),
            final(self).settled(),
            final(self).session is None,
            Self::recorded(*old(self), *final(self), msgs@),
            final(self).next_log_seq == old(self).next_log_seq + 1,
            match result {
                Ok(_) => {
                    &&& log_then_state(msgs@, old(self).next_log_seq, "OpenVPN terminó correctamente"@, final(self).snapshot)
                    &&& final(self).snapshot == phase_snapshot(VpnPhase::Idle, None, None, None, None, None,
                        final(self).next_log_seq)
                },
                Err(e) => {
                    let text = "OpenVPN terminó con error: "@ + e@;
                    &&& log_then_state(msgs@, old(self).next_log_seq, text, final(self).snapshot)
                    &&& final(self).snapshot.phase == VpnPhase::Failed
                    &&& final(self).snapshot.active_profile_name == (match old(self).session {
                        Some(s) => Some(s.profile_name),
                        None => None,
                    })
                    &&& final(self).snapshot.active_proxy_name == (match old(self).session {
                        Some(s) => s.proxy_name,
                        None => None,
                    })
                    &&& final(self).snapshot.pid is None
                    &&& final(self).snapshot.started_at_unix_ms is None
                    &&& final(self).snapshot.last_error matches Some(t) && t@ == text
                    &&& final(self).snapshot.last_log_seq == old(self).next_log_seq
                },
            },
    {
        let ghost start = *self;
        let taken = self.session.take();
        let (profile_name, proxy_name) = match taken {
            Some(s) => (Some(s.profile_name), s.proxy_name),
            None => (None, None),
        };
        let mut msgs: Vec<ServerMessage> = Vec::new();
        match result {
            Ok(_) => {
                let m = self.append_log(LogStream::Internal, String::from_str("OpenVPN terminó correctamente"));
                msgs.push(m);
                let st = self.set_phase(VpnPhase::Idle, None, None, None, None, None);
                msgs.push(st);
            },
            Err(e) => {
                let text = cat("OpenVPN terminó con error: ", e.as_str());
                let m = self.append_log(LogStream::Internal, text.clone());
                msgs.push(m);
                let st = self.set_phase(VpnPhase::Failed, profile_name, proxy_name, None, None, Some(text));
                msgs.push(st);
            },
        }
        proof { lemma_log_then_other(start.logs@, msgs@); }
        msgs
    }
}


/// The refusal of a greeting in another protocol version.
pub open spec fn protocol_mismatch_text(v: u32) -> Seq<char> {
    "Versión de protocolo no soportada: "@ + decimal(v as nat) + " (esperada "@ + decimal(PROTOCOL_VERSION as nat)
        + ")"@
}

/// The acknowledgement of a forwarded request named `request`.
pub open spec fn is_ack(m: ServerMessage, request: Seq<char>, text: Seq<char>) -> bool {
    &&& m matches ServerMessage::Ack(a)
    &&& a.request@ == request
    &&& a.message matches Some(t) && t@ == text
}

impl HelperState {
    /// The helper's answer to one client request.
    pub fn respond(&self, msg: ClientMessage) -> (r: ClientAction)
        ensures
            match msg {
                ClientMessage::Hello(h) => if h.protocol_version != PROTOCOL_VERSION {
                    &&& r matches ClientAction::Reply(ServerMessage::Error(em))
                    &&& em.code == ErrorCode::InvalidProtocol
                    &&& em.message@ == protocol_mismatch_text(h.protocol_version)
                } else {
                    &&& r matches ClientAction::Reply(ServerMessage::HelloOk(ok))
                    &&& ok.protocol_version == PROTOCOL_VERSION
                    &&& ok.snapshot == self.snapshot
                    &&& ok.logs_tail@ == tail(self.logs@, h.want_logs_tail as nat)
                },
                ClientMessage::GetStatus => r == ClientAction::Reply(ServerMessage::Snapshot(self.snapshot)),
                ClientMessage::GetHealth => r == ClientAction::ReportHealth,
                ClientMessage::Connect(req) => {
                    &&& r matches ClientAction::Forward(ManagerCommand::Connect(fwd), ack)
                    &&& fwd == req
                    &&& is_ack(ack, "connect"@, "Solicitud de conexión enviada"@)
                },
                ClientMessage::Disconnect => {
                    &&& r matches ClientAction::Forward(ManagerCommand::Disconnect, ack)
                    &&& is_ack(ack, "disconnect"@, "Solicitud de desconexión enviada"@)
                },
                ClientMessage::Ping => r == ClientAction::Reply(ServerMessage::Pong),
                ClientMessage::GetLogs { from_seq, limit } => {
                    &&& r matches ClientAction::Reply(ServerMessage::Logs { entries })
                    &&& entries@ == ({
                        let t = tail(self.logs@, match limit { Some(l) => l as nat, None => DEFAULT_LOGS_LIMIT as nat });
                        match from_seq {
                            Some(s) => entries_from(t, s),
                            None => t,
                        }
                    })
                },
            },
    {
        match msg {
            ClientMessage::Hello(h) => {
                if h.protocol_version != PROTOCOL_VERSION {
                    let mut text = cat("Versión de protocolo no soportada: ",
                        decimal_string(h.protocol_version as u64).as_str());
                    text.append(" (esperada ");
                    text.append(decimal_string(PROTOCOL_VERSION as u64).as_str());
                    text.append(")");
                    ClientAction::Reply(ServerMessage::Error(ErrorMessage { code: ErrorCode::InvalidProtocol, message: text }))
                } else {
                    ClientAction::Reply(ServerMessage::HelloOk(HelloOk {
                        protocol_version: PROTOCOL_VERSION,
                        snapshot: self.snapshot(),
                        logs_tail: self.logs_tail(h.want_logs_tail),
                    }))
                }
            },
            ClientMessage::GetStatus => ClientAction::Reply(ServerMessage::Snapshot(self.snapshot())),
            ClientMessage::GetHealth => ClientAction::ReportHealth,
            ClientMessage::Connect(req) => ClientAction::Forward(
                ManagerCommand::Connect(req),
                ServerMessage::Ack(Ack {
                    request: String::from_str("connect"),
                    message: Some(String::from_str("Solicitud de conexión enviada")),
                }),
            ),
            ClientMessage::Disconnect => ClientAction::Forward(
                ManagerCommand::Disconnect,
                ServerMessage::Ack(Ack {
                    request: String::from_str("disconnect"),
                    message: Some(String::from_str("Solicitud de desconexión enviada")),
                }),
            ),
            ClientMessage::Ping => ClientAction::Reply(ServerMessage::Pong),
            ClientMessage::GetLogs { from_seq, limit } => {
                ClientAction::Reply(ServerMessage::Logs { entries: self.logs_for_request(from_seq, limit) })
            },
        }
    }
}

/// The result a finished OpenVPN process is reported with: success, or the
/// error naming its exit status.
pub fn exit_result(success: bool, status_text: &str) -> (r: Result<(), String>)
    ensures
        success ==> r is Ok,
        !success ==> (r matches Err(e) && e@ == "openvpn terminó con estado "@ + status_text@),
{
    if success {
        Ok(())
    } else {
        Err(cat("openvpn terminó con estado ", status_text))
    }
}

/// The error reported when the helper could not poll the OpenVPN process.
pub fn poll_failure(detail: &str) -> (r: String)
    ensures
        r@ == "falló try_wait(): "@ + detail@,
{
    cat("falló try_wait(): ", detail)
}

} // verus!
