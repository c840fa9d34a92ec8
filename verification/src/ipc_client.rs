//! The front end's side of the helper connection: what each message from the
//! helper means for the interface, the request sent for each command, and the
//! texts for connection failures. The socket and threads are driven from outside.
use vstd::prelude::*;
use crate::ipc::{
    Ack, ClientMessage, ConnectRequest, ErrorMessage, HelloOk, HelloRequest, HelperHealthReport, LogEntry, LogStream,
    ServerMessage, SessionSnapshot, VpnPhase, DEFAULT_SOCKET_PATH,
};
use crate::text::{cat, cat3};
use crate::vpn::VpnStatus;

verus! {

/// Commands the interface gives the connection worker.
#[derive(Debug, Clone)]
pub enum GuiCommand {
    Connect(ConnectRequest),
    Disconnect,
    RequestStatus,
    RequestHealth,
    Ping,
    RequestLogs { from_seq: Option<u64>, limit: Option<usize> },
}

/// What the connection worker reports to the interface.
#[derive(Debug, Clone)]
pub enum GuiEvent {
    ConnectedToHelper,
    HelperUnavailable(String),
    Snapshot(SessionSnapshot),
    StatusChanged(VpnStatus),
    Log(String),
    Error(String),
    Pong,
    Health(HelperHealthReport),
    Ack(String),
}

/// The status the interface shows for a phase of the helper, given the
/// helper's last error.
pub open spec fn status_for_phase(phase: VpnPhase, last_error: Option<Seq<char>>, s: VpnStatus) -> bool {
    match phase {
        VpnPhase::Idle => s == VpnStatus::Disconnected,
        VpnPhase::Connecting => s == VpnStatus::Connecting,
        VpnPhase::Connected => s == VpnStatus::Connected,
        VpnPhase::Disconnecting => s == VpnStatus::Connecting,
        VpnPhase::Failed => s matches VpnStatus::Failed(m) && m@ == match last_error {
            Some(e) => e,
            None => "Error desconocido"@,
        },
    }
}

/// The status the interface shows for a phase of the helper.
pub fn map_phase_to_status(phase: &VpnPhase, last_error: Option<&str>) -> (r: VpnStatus)
    ensures
        status_for_phase(*phase, match last_error {
            Some(e) => Some(e@),
            None => None,
        }, r),
{
    match phase {
        VpnPhase::Idle => VpnStatus::Disconnected,
        VpnPhase::Connecting => VpnStatus::Connecting,
        VpnPhase::Connected => VpnStatus::Connected,
        VpnPhase::Disconnecting => VpnStatus::Connecting,
        VpnPhase::Failed => VpnStatus::Failed(String::from_str(match last_error {
            Some(e) => e,
            None => "Error desconocido",
        })),
    }
}

/// How the interface shows a helper log line: OpenVPN's standard output as
/// is, the rest tagged with its origin.
pub open spec fn log_line_text(e: LogEntry) -> Seq<char> {
    match e.stream {
        LogStream::Stdout => e.line@,
        LogStream::Stderr => "[stderr] "@ + e.line@,
        LogStream::Internal => "[helper] "@ + e.line@,
    }
}

/// Executable form of [`log_line_text`].
pub fn format_log_entry(entry: &LogEntry) -> (r: String)
    ensures
        r@ == log_line_text(*entry),
{
    match entry.stream {
        LogStream::Stdout => entry.line.clone(),
        LogStream::Stderr => cat("[stderr] ", entry.line.as_str()),
        LogStream::Internal => cat("[helper] ", entry.line.as_str()),
    }
}

/// Why connecting to the helper socket failed.
#[derive(Debug, Clone, Copy, PartialEq, Eq)]
pub enum ConnectFailure {
    /// The socket does not exist.
    NotFound,
    /// The user may not use the socket.
    PermissionDenied,
    /// Anything else.
    Other,
}

/// The message shown when connecting to the helper failed; `detail` is the
/// system's description of the failure.
pub open spec fn connect_error_text(kind: ConnectFailure, detail: Seq<char>) -> Seq<char> {
    match kind {
        ConnectFailure::NotFound => "No se encontró el socket del helper en '"@ + DEFAULT_SOCKET_PATH@
            + "'. Asegúrate de que el servicio root está instalado y activo."@,
        ConnectFailure::PermissionDenied => "No tienes permisos para usar el helper en '"@ + DEFAULT_SOCKET_PATH@
            + "'. Revisa el grupo/permisos del socket."@,
        ConnectFailure::Other => "No se pudo conectar con el helper: "@ + detail,
    }
}

/// Executable form of [`connect_error_text`].
pub fn map_connect_error(kind: ConnectFailure, detail: &str) -> (r: String)
    ensures
        r@ == connect_error_text(kind, detail@),
{
    match kind {
        ConnectFailure::NotFound => cat3("No se encontró el socket del helper en '", DEFAULT_SOCKET_PATH,
            "'. Asegúrate de que el servicio root está instalado y activo."),
        ConnectFailure::PermissionDenied => cat3("No tienes permisos para usar el helper en '", DEFAULT_SOCKET_PATH,
            "'. Revisa el grupo/permisos del socket."),
        ConnectFailure::Other => cat("No se pudo conectar con el helper: ", detail),
    }
}

/// The event reported when the connection to the helper broke while sending.
pub fn lost_connection_text(detail: &str) -> (r: String)
    ensures
        r@ == "Se perdió la conexión con el helper: "@ + detail@,
{
    cat("Se perdió la conexión con el helper: ", detail)
}

/// The event reported when the helper closed the connection while reading.
pub fn closed_connection_text(detail: &str) -> (r: String)
    ensures
        r@ == "Se cerró la conexión con el helper: "@ + detail@,
{
    cat("Se cerró la conexión con el helper: ", detail)
}

/// The error reported for a line from the helper that is no valid message.
pub fn invalid_message_text(detail: &str) -> (r: String)
    ensures
        r@ == "Mensaje inválido del helper: "@ + detail@,
{
    cat("Mensaje inválido del helper: ", detail)
}

/// The request sent to the helper for a command.
pub open spec fn message_for(cmd: GuiCommand) -> ClientMessage {
    match cmd {
        GuiCommand::Connect(r) => ClientMessage::Connect(r),
        GuiCommand::Disconnect => ClientMessage::Disconnect,
        GuiCommand::RequestStatus => ClientMessage::GetStatus,
        GuiCommand::RequestHealth => ClientMessage::GetHealth,
        GuiCommand::Ping => ClientMessage::Ping,
        GuiCommand::RequestLogs { from_seq, limit } => ClientMessage::GetLogs { from_seq, limit },
    }
}

/// Executable form of [`message_for`].
pub fn command_message(cmd: GuiCommand) -> (r: ClientMessage)
    ensures
        r == message_for(cmd),
{
    match cmd {
        GuiCommand::Connect(r) => ClientMessage::Connect(r),
        GuiCommand::Disconnect => ClientMessage::Disconnect,
        GuiCommand::RequestStatus => ClientMessage::GetStatus,
        GuiCommand::RequestHealth => ClientMessage::GetHealth,
        GuiCommand::Ping => ClientMessage::Ping,
        GuiCommand::RequestLogs { from_seq, limit } => ClientMessage::GetLogs { from_seq, limit },
    }
}

/// How many log lines the interface asks for when it greets the helper.
pub const HELLO_LOGS_TAIL: usize = 200;

/// The greeting the interface sends first, from process `pid`.
pub fn hello_message(pid: u32) -> (r: ClientMessage)
    ensures
        r matches ClientMessage::Hello(h) && h.client_name@ == "vpn-desktop"@ && h.client_pid == Some(pid)
            && h.want_logs_tail == HELLO_LOGS_TAIL && h.protocol_version == crate::ipc::PROTOCOL_VERSION,
{
    ClientMessage::Hello(HelloRequest::new(String::from_str("vpn-desktop"), Some(pid), HELLO_LOGS_TAIL))
}

/// `evs` are log events with the texts of `entries`, in order.
pub open spec fn log_events(evs: Seq<GuiEvent>, entries: Seq<LogEntry>) -> bool {
    &&& evs.len() == entries.len()
    &&& forall|i: int| 0 <= i < evs.len() ==> (#[trigger] evs[i] matches GuiEvent::Log(l) && l@ == log_line_text(entries[i]))
}

/// `evs` report snapshot `s`: the snapshot itself, then the status it means.
pub open spec fn snapshot_events(evs: Seq<GuiEvent>, s: SessionSnapshot) -> bool {
    &&& evs.len() == 2
    &&& evs[0] == GuiEvent::Snapshot(s)
    &&& evs[1] matches GuiEvent::StatusChanged(st) && status_for_phase(s.phase, match s.last_error {
        Some(e) => Some(e@),
        None => None,
    }, st)
}

fn push_snapshot_events(evs: &mut Vec<GuiEvent>, snapshot: SessionSnapshot)
    ensures
        final(evs)@.len() == old(evs)@.len() + 2,
        final(evs)@.subrange(0, old(evs)@.len() as int) == old(evs)@,
        snapshot_events(final(evs)@.subrange(old(evs)@.len() as int, final(evs)@.len() as int), snapshot),
{
    let status = map_phase_to_status(&snapshot.phase, match &snapshot.last_error {
        Some(e) => Some(e.as_str()),
        None => None,
    });
    evs.push(GuiEvent::Snapshot(snapshot));
    evs.push(GuiEvent::StatusChanged(status));
}

fn push_log_events(evs: &mut Vec<GuiEvent>, entries: &Vec<LogEntry>)
    ensures
        final(evs)@.len() == old(evs)@.len() + entries@.len(),
        final(evs)@.subrange(0, old(evs)@.len() as int) == old(evs)@,
        log_events(final(evs)@.subrange(old(evs)@.len() as int, final(evs)@.len() as int), entries@),
{
    let ghost start = evs@;
    let mut i: usize = 0;
    while i < entries.len()
        invariant
            i <= entries@.len(),
            evs@.len() == start.len() + i,
            evs@.subrange(0, start.len() as int) == start,
            forall|j: int| 0 <= j < i ==> (#[trigger] evs@[start.len() + j] matches GuiEvent::Log(l)
                && l@ == log_line_text(entries@[j])),
        decreases entries@.len() - i,
    {
        evs.push(GuiEvent::Log(format_log_entry(&entries[i])));
        proof {
            assert(evs@.subrange(0, start.len() as int) =~= start);
        }
        i = i + 1;
    }
    proof {
        let tail = evs@.subrange(start.len() as int, evs@.len() as int);
        assert forall|j: int| 0 <= j < tail.len() implies (#[trigger] tail[j] matches GuiEvent::Log(l)
            && l@ == log_line_text(entries@[j])) by {
            assert(tail[j] == evs@[start.len() + j]);
        }
    }
}

/// What a message from the helper means for the interface.
pub open spec fn events_for(msg: ServerMessage, evs: Seq<GuiEvent>) -> bool {
    match msg {
        ServerMessage::HelloOk(ok) => {
            &&& evs.len() == 2 + ok.logs_tail@.len()
            &&& snapshot_events(evs.subrange(0, 2), ok.snapshot)
            &&& log_events(evs.subrange(2, evs.len() as int), ok.logs_tail@)
        },
        ServerMessage::Ack(a) => {
            &&& evs.len() == 1
            &&& evs[0] matches GuiEvent::Ack(t)
            &&& t@ == match a.message {
                Some(m) => m@,
                None => "Operación '"@ + a.request@ + "' aceptada por el helper"@,
            }
        },
        ServerMessage::Error(em) => {
            &&& evs.len() == 2
            &&& evs[0] matches GuiEvent::Error(m) && m@ == em.message@
            &&& evs[1] matches GuiEvent::StatusChanged(VpnStatus::Failed(m)) && m@ == em.message@
        },
        ServerMessage::Snapshot(s) => snapshot_events(evs, s),
        ServerMessage::StateChanged(s) => snapshot_events(evs, s),
        ServerMessage::Log(e) => log_events(evs, seq![e]),
        ServerMessage::Logs { entries } => log_events(evs, entries@),
        ServerMessage::Pong => evs == seq![GuiEvent::Pong],
        ServerMessage::Health(h) => evs == seq![GuiEvent::Health(h)],
    }
}

/// The events a message from the helper produces for the interface.
pub fn handle_server_message(msg: ServerMessage) -> (r: Vec<GuiEvent>)
    ensures
        events_for(msg, r@),
{
    let mut evs: Vec<GuiEvent> = Vec::new();
    match msg {
        ServerMessage::HelloOk(HelloOk { protocol_version, snapshot, logs_tail }) => {
            push_snapshot_events(&mut evs, snapshot);
            push_log_events(&mut evs, &logs_tail);
            proof {
                assert(evs@.subrange(0, 2) =~= evs@.subrange(0, 2).subrange(0, 2));
            }
        },
        ServerMessage::Ack(Ack { request, message }) => {
            match message {
                Some(text) => evs.push(GuiEvent::Ack(text)),
                None => evs.push(GuiEvent::Ack(cat3("Operación '", request.as_str(), "' aceptada por el helper"))),
            }
        },
        ServerMessage::Error(ErrorMessage { code, message }) => {
            evs.push(GuiEvent::Error(message.clone()));
            evs.push(GuiEvent::StatusChanged(VpnStatus::Failed(message)));
        },
        ServerMessage::Snapshot(snapshot) => {
            push_snapshot_events(&mut evs, snapshot);
            assert(evs@.subrange(0, 2) =~= evs@);
        },
        ServerMessage::StateChanged(snapshot) => {
            push_snapshot_events(&mut evs, snapshot);
            assert(evs@.subrange(0, 2) =~= evs@);
        },
        ServerMessage::Log(entry) => {
            let ghost e = entry;
            let mut one: Vec<LogEntry> = Vec::new();
            one.push(entry);
            push_log_events(&mut evs, &one);
            assert(evs@.subrange(0, evs@.len() as int) =~= evs@);
            assert(one@ =~= seq![e]);
        },
        ServerMessage::Logs { entries } => {
            push_log_events(&mut evs, &entries);
            assert(evs@.subrange(0, evs@.len() as int) =~= evs@);
        },
        ServerMessage::Pong => {
            evs.push(GuiEvent::Pong);
            assert(evs@ =~= seq![GuiEvent::Pong]);
        },
        ServerMessage::Health(h) => {
            let ghost hh = h;
            evs.push(GuiEvent::Health(h));
            assert(evs@ =~= seq![GuiEvent::Health(hh)]);
        },
    }
    evs
}

/// Whether the worker holds a connection to the helper.
#[derive(Debug, Clone, Copy, PartialEq, Eq)]
pub enum LinkState {
    Disconnected,
    Connected,
}

/// The outcome of an attempt to connect to the helper: connected and
/// announced, or still disconnected with the reason reported.
pub fn after_connect_attempt(result: Result<(), String>) -> (r: (LinkState, Vec<GuiEvent>))
    ensures
        match result {
            Ok(_) => r.0 == LinkState::Connected && r.1@ == seq![GuiEvent::ConnectedToHelper],
            Err(m) => r.0 == LinkState::Disconnected && r.1@ == seq![GuiEvent::HelperUnavailable(m)],
        },
{
    let mut evs: Vec<GuiEvent> = Vec::new();
    match result {
        Ok(()) => {
            evs.push(GuiEvent::ConnectedToHelper);
            assert(evs@ =~= seq![GuiEvent::ConnectedToHelper]);
            (LinkState::Connected, evs)
        },
        Err(m) => {
            let ghost mm = m;
            evs.push(GuiEvent::HelperUnavailable(m));
            assert(evs@ =~= seq![GuiEvent::HelperUnavailable(mm)]);
            (LinkState::Disconnected, evs)
        },
    }
}

/// The outcome of sending a request over the connection: still connected, or
/// disconnected with the loss reported.
pub fn after_send(result: Result<(), String>) -> (r: (LinkState, Vec<GuiEvent>))
    ensures
        match result {
            Ok(_) => r.0 == LinkState::Connected && r.1@.len() == 0,
            Err(e) => {
                &&& r.0 == LinkState::Disconnected
                &&& r.1@.len() == 1
                &&& r.1@[0] matches GuiEvent::HelperUnavailable(m)
                &&& m@ == "Se perdió la conexión con el helper: "@ + e@
            },
        },
{
    let mut evs: Vec<GuiEvent> = Vec::new();
    match result {
        Ok(()) => (LinkState::Connected, evs),
        Err(e) => {
            evs.push(GuiEvent::HelperUnavailable(lost_connection_text(e.as_str())));
            (LinkState::Disconnected, evs)
        },
    }
}

} // verus!
