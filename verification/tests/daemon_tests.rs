use vpn_desktop::daemon::{exit_result, poll_failure, ClientAction, HelperState, ManagerCommand, SpawnedProcess, MAX_LOG_LINES};
use vpn_desktop::ipc::{
    ClientMessage, ConnectRequest, ErrorCode, HelloRequest, LogStream, ProxyAuthMethod, ProxyRuntime, ServerMessage,
    VpnPhase,
};

fn request(name: &str, proxy: Option<&str>) -> ConnectRequest {
    ConnectRequest {
        profile_name: name.to_string(),
        config_path: "/etc/openvpn/work.ovpn".to_string(),
        username: "u".to_string(),
        password: "p".to_string(),
        proxy: proxy.map(|n| ProxyRuntime {
            name: n.to_string(),
            host: "proxy".to_string(),
            port: 3128,
            auth_method: ProxyAuthMethod::NoAuth,
            username: String::new(),
            password: String::new(),
        }),
        use_update_resolv_conf: false,
    }
}

fn log_line(m: &ServerMessage) -> (u64, LogStream, String) {
    match m {
        ServerMessage::Log(e) => (e.seq, e.stream, e.line.clone()),
        other => panic!("not a log message: {:?}", other),
    }
}

#[test]
fn new_helper_is_idle() {
    let h = HelperState::new();
    assert_eq!(h.snapshot.phase, VpnPhase::Idle);
    assert_eq!(h.snapshot.last_log_seq, 0);
    assert_eq!(h.last_log_seq(), 0);
    assert!(h.logs.is_empty());
    assert!(h.session.is_none());
}

#[test]
fn logs_are_numbered_and_bounded() {
    let mut h = HelperState::new();
    for i in 0..(MAX_LOG_LINES + 5) {
        let m = h.append_log(LogStream::Stdout, format!("line {}", i));
        assert_eq!(log_line(&m).0, i as u64 + 1);
    }
    assert_eq!(h.logs.len(), MAX_LOG_LINES);
    assert_eq!(h.logs[0].seq, 6);
    assert_eq!(h.logs.last().unwrap().line, format!("line {}", MAX_LOG_LINES + 4));
    assert_eq!(h.snapshot.last_log_seq, (MAX_LOG_LINES + 5) as u64);
    assert_eq!(h.last_log_seq(), (MAX_LOG_LINES + 5) as u64);
}

#[test]
fn tail_and_get_logs() {
    let mut h = HelperState::new();
    for i in 0..10 {
        h.append_log(LogStream::Internal, format!("l{}", i));
    }
    let t = h.logs_tail(3);
    assert_eq!(t.iter().map(|e| e.seq).collect::<Vec<_>>(), vec![8, 9, 10]);
    assert_eq!(h.logs_tail(100).len(), 10);
    assert_eq!(h.logs_tail(0).len(), 0);
    let from = h.logs_for_request(Some(6), Some(8));
    assert_eq!(from.iter().map(|e| e.seq).collect::<Vec<_>>(), vec![6, 7, 8, 9, 10]);
    assert_eq!(h.logs_for_request(None, None).len(), 10);
    assert_eq!(h.logs_for_request(Some(11), None).len(), 0);
}

#[test]
fn set_phase_announces_snapshot() {
    let mut h = HelperState::new();
    h.append_log(LogStream::Internal, "x".to_string());
    let m = h.set_phase(VpnPhase::Connected, Some("p".into()), None, Some(42), Some(7), None);
    match m {
        ServerMessage::StateChanged(s) => {
            assert_eq!(s.phase, VpnPhase::Connected);
            assert_eq!(s.pid, Some(42));
            assert_eq!(s.last_log_seq, 1);
        }
        _ => panic!(),
    }
}

#[test]
fn connect_lifecycle() {
    let mut h = HelperState::new();
    let req = request("Oficina", Some("Proxy"));
    let (msgs, start) = h.on_connect(&req);
    assert!(start);
    assert_eq!(log_line(&msgs[0]).2, "Iniciando OpenVPN para 'Oficina'");
    match &msgs[1] {
        ServerMessage::StateChanged(s) => {
            assert_eq!(s.phase, VpnPhase::Connecting);
            assert_eq!(s.active_profile_name.as_deref(), Some("Oficina"));
            assert_eq!(s.active_proxy_name.as_deref(), Some("Proxy"));
        }
        _ => panic!(),
    }
    let msgs = h.on_spawned(&req, Ok(SpawnedProcess { pid: 99, started_at_unix_ms: 1000 }));
    assert_eq!(msgs.len(), 1);
    assert_eq!(h.snapshot.pid, Some(99));
    assert!(h.session.is_some());
    let msgs = h.on_process_connected();
    assert_eq!(msgs.len(), 1);
    assert_eq!(h.snapshot.phase, VpnPhase::Connected);
    // a second connect is refused as busy
    let (msgs, start) = h.on_connect(&request("Otra", None));
    assert!(!start);
    assert_eq!(log_line(&msgs[0]).2, "Ya existe una sesión activa; ignorando nueva conexión");
    match &msgs[1] {
        ServerMessage::Error(e) => {
            assert_eq!(e.code, ErrorCode::Busy);
            assert_eq!(e.message, "Ya existe una VPN activa");
        }
        _ => panic!(),
    }
    assert_eq!(h.snapshot.phase, VpnPhase::Connected);
    assert_eq!(h.snapshot.active_profile_name.as_deref(), Some("Oficina"));
    // disconnect
    let (msgs, taken) = h.on_disconnect();
    let taken = taken.unwrap();
    assert_eq!(taken.pid, 99);
    assert_eq!(log_line(&msgs[0]).2, "Solicitando desconexión");
    assert_eq!(h.snapshot.phase, VpnPhase::Disconnecting);
    let msgs = h.on_stopped(&taken, Ok(()));
    assert_eq!(log_line(&msgs[0]).2, "VPN desconectada");
    assert_eq!(h.snapshot.phase, VpnPhase::Idle);
    assert!(h.snapshot.active_profile_name.is_none());
}

#[test]
fn disconnect_without_session() {
    let mut h = HelperState::new();
    let (msgs, taken) = h.on_disconnect();
    assert!(taken.is_none());
    assert_eq!(log_line(&msgs[0]).2, "No hay VPN activa");
    assert!(matches!(msgs[1], ServerMessage::Snapshot(_)));
}

#[test]
fn failures_are_reported() {
    let mut h = HelperState::new();
    let req = request("P", None);
    h.on_connect(&req);
    let msgs = h.on_spawned(&req, Err("falló spawn de openvpn: No such file or directory (os error 2)".into()));
    let text = "No se pudo lanzar OpenVPN: falló spawn de openvpn: No such file or directory (os error 2)";
    assert_eq!(log_line(&msgs[0]).2, text);
    assert_eq!(h.snapshot.phase, VpnPhase::Failed);
    assert_eq!(h.snapshot.last_error.as_deref(), Some(text));
    assert!(h.session.is_none());

    let mut h = HelperState::new();
    h.on_connect(&req);
    h.on_spawned(&req, Ok(SpawnedProcess { pid: 5, started_at_unix_ms: 1 }));
    let msgs = h.on_process_exited(Err("openvpn terminó con estado exit status: 1".into()));
    assert_eq!(log_line(&msgs[0]).2, "OpenVPN terminó con error: openvpn terminó con estado exit status: 1");
    assert_eq!(h.snapshot.phase, VpnPhase::Failed);
    assert_eq!(h.snapshot.active_profile_name.as_deref(), Some("P"));

    let mut h = HelperState::new();
    h.on_connect(&req);
    h.on_spawned(&req, Ok(SpawnedProcess { pid: 5, started_at_unix_ms: 1 }));
    let msgs = h.on_process_exited(Ok(()));
    assert_eq!(log_line(&msgs[0]).2, "OpenVPN terminó correctamente");
    assert_eq!(h.snapshot.phase, VpnPhase::Idle);

    let mut h = HelperState::new();
    h.on_connect(&req);
    h.on_spawned(&req, Ok(SpawnedProcess { pid: 5, started_at_unix_ms: 1 }));
    let (_, s) = h.on_disconnect();
    let msgs = h.on_stopped(&s.unwrap(), Err("try_wait falló: x".into()));
    assert_eq!(log_line(&msgs[0]).2, "Error al detener OpenVPN: try_wait falló: x");
    assert_eq!(h.snapshot.phase, VpnPhase::Failed);
    assert_eq!(h.snapshot.active_profile_name.as_deref(), Some("P"));
}

#[test]
fn process_connected_without_session_does_nothing() {
    let mut h = HelperState::new();
    assert!(h.on_process_connected().is_empty());
    assert_eq!(h.snapshot.phase, VpnPhase::Idle);
}

#[test]
fn respond_to_requests() {
    let mut h = HelperState::new();
    for i in 0..5 {
        h.append_log(LogStream::Stderr, format!("e{}", i));
    }
    match h.respond(ClientMessage::Hello(HelloRequest::new("t".into(), None, 2))) {
        ClientAction::Reply(ServerMessage::HelloOk(ok)) => {
            assert_eq!(ok.protocol_version, 1);
            assert_eq!(ok.logs_tail.iter().map(|e| e.seq).collect::<Vec<_>>(), vec![4, 5]);
        }
        _ => panic!(),
    }
    let mut hello = HelloRequest::new("t".into(), None, 2);
    hello.protocol_version = 7;
    match h.respond(ClientMessage::Hello(hello)) {
        ClientAction::Reply(ServerMessage::Error(e)) => {
            assert_eq!(e.code, ErrorCode::InvalidProtocol);
            assert_eq!(e.message, "Versión de protocolo no soportada: 7 (esperada 1)");
        }
        _ => panic!(),
    }
    assert!(matches!(h.respond(ClientMessage::GetStatus), ClientAction::Reply(ServerMessage::Snapshot(_))));
    assert!(matches!(h.respond(ClientMessage::Ping), ClientAction::Reply(ServerMessage::Pong)));
    assert!(matches!(h.respond(ClientMessage::GetHealth), ClientAction::ReportHealth));
    match h.respond(ClientMessage::Connect(request("x", None))) {
        ClientAction::Forward(ManagerCommand::Connect(r), ServerMessage::Ack(a)) => {
            assert_eq!(r.profile_name, "x");
            assert_eq!(a.request, "connect");
            assert_eq!(a.message.as_deref(), Some("Solicitud de conexión enviada"));
        }
        _ => panic!(),
    }
    match h.respond(ClientMessage::Disconnect) {
        ClientAction::Forward(ManagerCommand::Disconnect, ServerMessage::Ack(a)) => {
            assert_eq!(a.request, "disconnect");
            assert_eq!(a.message.as_deref(), Some("Solicitud de desconexión enviada"));
        }
        _ => panic!(),
    }
    match h.respond(ClientMessage::GetLogs { from_seq: Some(4), limit: None }) {
        ClientAction::Reply(ServerMessage::Logs { entries }) => {
            assert_eq!(entries.iter().map(|e| e.seq).collect::<Vec<_>>(), vec![4, 5]);
        }
        _ => panic!(),
    }
}

#[test]
fn exit_results() {
    assert_eq!(exit_result(true, "exit status: 0"), Ok(()));
    assert_eq!(exit_result(false, "exit status: 1"), Err("openvpn terminó con estado exit status: 1".to_string()));
    assert_eq!(poll_failure("boom"), "falló try_wait(): boom");
}
