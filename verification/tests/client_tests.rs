use vpn_desktop::ipc::{
    Ack, ClientMessage, ErrorCode, ErrorMessage, HelloOk, HelperHealthReport, LogEntry, LogStream, ServerMessage,
    SessionSnapshot, VpnPhase,
};
use vpn_desktop::ipc_client::{
    after_connect_attempt, after_send, closed_connection_text, command_message, format_log_entry, handle_server_message,
    hello_message, invalid_message_text, lost_connection_text, map_connect_error, map_phase_to_status, ConnectFailure,
    GuiCommand, GuiEvent, LinkState,
};
use vpn_desktop::daemon::{HelperState, SpawnedProcess};
use vpn_desktop::ipc::ConnectRequest;
use vpn_desktop::vpn::VpnStatus;

fn entry(seq: u64, stream: LogStream, line: &str) -> LogEntry {
    LogEntry { seq, stream, line: line.to_string(), ts_unix_ms: 0 }
}

#[test]
fn phases_map_to_statuses() {
    assert_eq!(map_phase_to_status(&VpnPhase::Idle, None), VpnStatus::Disconnected);
    assert_eq!(map_phase_to_status(&VpnPhase::Connecting, None), VpnStatus::Connecting);
    assert_eq!(map_phase_to_status(&VpnPhase::Disconnecting, None), VpnStatus::Connecting);
    assert_eq!(map_phase_to_status(&VpnPhase::Connected, Some("x")), VpnStatus::Connected);
    assert_eq!(map_phase_to_status(&VpnPhase::Failed, Some("boom")), VpnStatus::Failed("boom".into()));
    assert_eq!(map_phase_to_status(&VpnPhase::Failed, None), VpnStatus::Failed("Error desconocido".into()));
}

#[test]
fn log_entries_are_tagged() {
    assert_eq!(format_log_entry(&entry(1, LogStream::Stdout, "a")), "a");
    assert_eq!(format_log_entry(&entry(1, LogStream::Stderr, "a")), "[stderr] a");
    assert_eq!(format_log_entry(&entry(1, LogStream::Internal, "a")), "[helper] a");
}

#[test]
fn connect_errors() {
    assert_eq!(
        map_connect_error(ConnectFailure::NotFound, "x"),
        "No se encontró el socket del helper en '/run/vpn-desktopd.sock'. Asegúrate de que el servicio root está instalado y activo."
    );
    assert_eq!(
        map_connect_error(ConnectFailure::PermissionDenied, "x"),
        "No tienes permisos para usar el helper en '/run/vpn-desktopd.sock'. Revisa el grupo/permisos del socket."
    );
    assert_eq!(
        map_connect_error(ConnectFailure::Other, "Connection refused (os error 111)"),
        "No se pudo conectar con el helper: Connection refused (os error 111)"
    );
    assert_eq!(lost_connection_text("e"), "Se perdió la conexión con el helper: e");
    assert_eq!(closed_connection_text("e"), "Se cerró la conexión con el helper: e");
    assert_eq!(invalid_message_text("e"), "Mensaje inválido del helper: e");
}

#[test]
fn commands_become_requests() {
    assert!(matches!(command_message(GuiCommand::Disconnect), ClientMessage::Disconnect));
    assert!(matches!(command_message(GuiCommand::RequestStatus), ClientMessage::GetStatus));
    assert!(matches!(command_message(GuiCommand::RequestHealth), ClientMessage::GetHealth));
    assert!(matches!(command_message(GuiCommand::Ping), ClientMessage::Ping));
    assert!(matches!(
        command_message(GuiCommand::RequestLogs { from_seq: Some(3), limit: None }),
        ClientMessage::GetLogs { from_seq: Some(3), limit: None }
    ));
    match hello_message(42) {
        ClientMessage::Hello(h) => {
            assert_eq!(h.client_name, "vpn-desktop");
            assert_eq!(h.client_pid, Some(42));
            assert_eq!(h.want_logs_tail, 200);
            assert_eq!(h.protocol_version, 1);
        }
        _ => panic!(),
    }
    assert_eq!(ClientMessage::Ping.kind(), "ping");
    assert_eq!(ClientMessage::GetLogs { from_seq: None, limit: None }.kind(), "get_logs");
}

#[test]
fn server_messages_become_events() {
    let mut snap = SessionSnapshot::idle();
    snap.phase = VpnPhase::Failed;
    snap.last_error = Some("falló".into());
    let evs = handle_server_message(ServerMessage::HelloOk(HelloOk {
        protocol_version: 1,
        snapshot: snap.clone(),
        logs_tail: vec![entry(1, LogStream::Stdout, "a"), entry(2, LogStream::Internal, "b")],
    }));
    assert_eq!(evs.len(), 4);
    assert!(matches!(&evs[0], GuiEvent::Snapshot(s) if s.phase == VpnPhase::Failed));
    assert!(matches!(&evs[1], GuiEvent::StatusChanged(VpnStatus::Failed(m)) if m == "falló"));
    assert!(matches!(&evs[2], GuiEvent::Log(l) if l == "a"));
    assert!(matches!(&evs[3], GuiEvent::Log(l) if l == "[helper] b"));

    let evs = handle_server_message(ServerMessage::Ack(Ack { request: "connect".into(), message: None }));
    assert!(matches!(&evs[0], GuiEvent::Ack(t) if t == "Operación 'connect' aceptada por el helper"));
    let evs = handle_server_message(ServerMessage::Ack(Ack { request: "connect".into(), message: Some("ok".into()) }));
    assert!(matches!(&evs[0], GuiEvent::Ack(t) if t == "ok"));

    let evs = handle_server_message(ServerMessage::Error(ErrorMessage { code: ErrorCode::Busy, message: "busy".into() }));
    assert_eq!(evs.len(), 2);
    assert!(matches!(&evs[0], GuiEvent::Error(m) if m == "busy"));
    assert!(matches!(&evs[1], GuiEvent::StatusChanged(VpnStatus::Failed(m)) if m == "busy"));

    let evs = handle_server_message(ServerMessage::StateChanged(SessionSnapshot::idle()));
    assert!(matches!(&evs[1], GuiEvent::StatusChanged(VpnStatus::Disconnected)));
    let evs = handle_server_message(ServerMessage::Log(entry(3, LogStream::Stderr, "x")));
    assert!(matches!(&evs[0], GuiEvent::Log(l) if l == "[stderr] x"));
    let evs = handle_server_message(ServerMessage::Logs { entries: vec![] });
    assert!(evs.is_empty());
    assert!(matches!(handle_server_message(ServerMessage::Pong)[0], GuiEvent::Pong));
    let evs = handle_server_message(ServerMessage::Health(HelperHealthReport { generated_at_unix_ms: 1, items: vec![] }));
    assert!(matches!(&evs[0], GuiEvent::Health(h) if h.generated_at_unix_ms == 1));
}

#[test]
fn link_state_changes() {
    let (s, evs) = after_connect_attempt(Ok(()));
    assert_eq!(s, LinkState::Connected);
    assert!(matches!(evs[0], GuiEvent::ConnectedToHelper));
    let (s, evs) = after_connect_attempt(Err("nope".into()));
    assert_eq!(s, LinkState::Disconnected);
    assert!(matches!(&evs[0], GuiEvent::HelperUnavailable(m) if m == "nope"));
    let (s, evs) = after_send(Ok(()));
    assert_eq!(s, LinkState::Connected);
    assert!(evs.is_empty());
    let (s, evs) = after_send(Err("Broken pipe".into()));
    assert_eq!(s, LinkState::Disconnected);
    assert!(matches!(&evs[0], GuiEvent::HelperUnavailable(m) if m == "Se perdió la conexión con el helper: Broken pipe"));
}

fn statuses(messages: Vec<ServerMessage>) -> Vec<VpnStatus> {
    let mut out = Vec::new();
    for m in messages {
        for ev in handle_server_message(m) {
            if let GuiEvent::StatusChanged(s) = ev {
                out.push(s);
            }
        }
    }
    out
}

#[test]
fn window_follows_a_session_from_connect_to_disconnect() {
    let req = ConnectRequest {
        profile_name: "Oficina".into(),
        config_path: "/c/profiles/a.ovpn".into(),
        username: "u".into(),
        password: "p".into(),
        proxy: None,
        use_update_resolv_conf: false,
    };
    let mut h = HelperState::new();

    let (msgs, start) = h.on_connect(&req);
    assert!(start);
    assert_eq!(statuses(msgs), vec![VpnStatus::Connecting]);

    let msgs = h.on_spawned(&req, Ok(SpawnedProcess { pid: 42, started_at_unix_ms: 7 }));
    assert_eq!(statuses(msgs), vec![VpnStatus::Connecting]);

    let msgs = h.on_process_connected();
    assert_eq!(statuses(msgs), vec![VpnStatus::Connected]);

    let (msgs, taken) = h.on_disconnect();
    assert_eq!(statuses(msgs), vec![VpnStatus::Connecting]);
    let stopped = taken.expect("a running session is handed over to be stopped");
    assert_eq!(stopped.pid, 42);

    let msgs = h.on_stopped(&stopped, Ok(()));
    assert_eq!(statuses(msgs), vec![VpnStatus::Disconnected]);
    assert!(h.session.is_none());
    assert_eq!(h.snapshot.phase, VpnPhase::Idle);
}
