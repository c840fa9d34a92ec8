use vpn_desktop::config::{ProxyAuthMethod, ProxyConfig, VpnProfile};
use vpn_desktop::ipc::{HealthStatus, HelperHealthItem, HelperHealthReport, ProxyAuthMethod as Ipc, SessionSnapshot};
use vpn_desktop::ipc_client::{map_connect_error, ConnectFailure, GuiCommand, GuiEvent};
use vpn_desktop::vpn::{
    build_connect_request, build_connect_request_with, format_health_report_details, map_proxy_auth_method,
    HelperDiagnosticKind, HelperStatus, VpnEvent, VpnStatus, VpnWorker, WorkerAction,
};

fn item(key: &str, status: HealthStatus, summary: &str, details: Option<&str>) -> HelperHealthItem {
    HelperHealthItem { key: key.into(), status, summary: summary.into(), details: details.map(|d| d.into()) }
}

fn profile() -> VpnProfile {
    VpnProfile {
        id: "id".into(),
        name: "Oficina".into(),
        config_file: "/".into(),
        username: "u".into(),
        password: "p".into(),
        use_update_resolv_conf: false,
    }
}

#[test]
fn status_activity() {
    assert!(VpnStatus::Connecting.is_active());
    assert!(VpnStatus::Connected.is_active());
    assert!(!VpnStatus::Disconnected.is_active());
    assert!(!VpnStatus::Failed("x".into()).is_active());
}

#[test]
fn helper_error_diagnosis() {
    let k = |m: String| HelperStatus::from_helper_error(m).kind;
    assert_eq!(k(map_connect_error(ConnectFailure::NotFound, "")), HelperDiagnosticKind::MissingSocket);
    assert_eq!(k(map_connect_error(ConnectFailure::PermissionDenied, "")), HelperDiagnosticKind::PermissionDenied);
    assert_eq!(k("Se perdió la conexión con el helper: x".into()), HelperDiagnosticKind::ConnectionLost);
    assert_eq!(k("Se cerró la conexión con el HELPER".into()), HelperDiagnosticKind::ConnectionLost);
    assert_eq!(k("otra cosa".into()), HelperDiagnosticKind::Other);
    let s = HelperStatus::from_helper_error("otra cosa".into());
    assert_eq!(s.message, "otra cosa");
    assert_eq!(s.details, None);
}

#[test]
fn runtime_error_diagnosis() {
    let k = |m: &str| HelperStatus::from_runtime_error(m.into()).kind;
    assert_eq!(k("No se pudo lanzar OpenVPN: falló spawn de openvpn: x"), HelperDiagnosticKind::OpenVpnMissing);
    assert_eq!(k("No se pudo lanzar OpenVPN: No such file"), HelperDiagnosticKind::OpenVpnMissing);
    assert_eq!(k("No se pudo lanzar OpenVPN: permission denied"), HelperDiagnosticKind::Other);
    assert_eq!(k("not found"), HelperDiagnosticKind::Other);
}

#[test]
fn health_report_diagnosis() {
    let r = HelperHealthReport {
        generated_at_unix_ms: 0,
        items: vec![
            item("socket", HealthStatus::Healthy, "ok", Some("ruta=x")),
            item("openvpn", HealthStatus::Error, "OpenVPN no está disponible", Some("  ")),
        ],
    };
    let s = HelperStatus::from_health_report(&r);
    assert_eq!(s.kind, HelperDiagnosticKind::OpenVpnUnavailable);
    assert_eq!(s.message, "OpenVPN no está disponible");
    assert_eq!(s.details.as_deref(), Some("socket=ok (ruta=x); openvpn=error (OpenVPN no está disponible)"));

    let r = HelperHealthReport {
        generated_at_unix_ms: 0,
        items: vec![item("socket", HealthStatus::Warn, "Revisa el GRUPO", None)],
    };
    assert_eq!(HelperStatus::from_health_report(&r).kind, HelperDiagnosticKind::PermissionDenied);
    let r = HelperHealthReport {
        generated_at_unix_ms: 0,
        items: vec![item("socket", HealthStatus::Error, "No existe el socket esperado del helper.", None)],
    };
    assert_eq!(HelperStatus::from_health_report(&r).kind, HelperDiagnosticKind::MissingSocket);
    let r = HelperHealthReport {
        generated_at_unix_ms: 0,
        items: vec![item("socket", HealthStatus::Error, "raro", None)],
    };
    assert_eq!(HelperStatus::from_health_report(&r).kind, HelperDiagnosticKind::Other);
    let r = HelperHealthReport { generated_at_unix_ms: 0, items: vec![item("x", HealthStatus::Error, "s", None)] };
    assert_eq!(HelperStatus::from_health_report(&r).message, "El helper detectó errores en el entorno.");
    let r = HelperHealthReport { generated_at_unix_ms: 0, items: vec![item("x", HealthStatus::Warn, "s", None)] };
    assert_eq!(HelperStatus::from_health_report(&r).message, "El helper detectó avisos en el entorno.");
    let r = HelperHealthReport { generated_at_unix_ms: 0, items: vec![item("x", HealthStatus::Healthy, "s", None)] };
    let s = HelperStatus::from_health_report(&r);
    assert_eq!(s.kind, HelperDiagnosticKind::Connected);
    assert_eq!(s.message, "Helper root disponible y entorno básico listo.");
    assert_eq!(format_health_report_details(&HelperHealthReport { generated_at_unix_ms: 0, items: vec![] }), "");
}

#[test]
fn statuses_compare_by_content() {
    assert!(HelperStatus::connected().same_as(&HelperStatus::connected()));
    assert!(!HelperStatus::connected().same_as(&HelperStatus::unknown()));
    assert_eq!(HelperStatus::unknown().message, "Comprobando disponibilidad del helper…");
    assert_eq!(HelperStatus::connected().message, "Helper root disponible.");
}

#[test]
fn connect_requests() {
    let proxy = ProxyConfig {
        id: "px".into(),
        name: "Proxy".into(),
        host: "h".into(),
        port: 1,
        auth_method: ProxyAuthMethod::Basic,
        username: "a".into(),
        password: "b".into(),
    };
    let r = build_connect_request_with(profile(), Some(proxy.clone()), true).unwrap();
    assert_eq!(r.profile_name, "Oficina");
    assert_eq!(r.config_path, "/");
    let p = r.proxy.unwrap();
    assert_eq!(p.auth_method, Ipc::Basic);
    assert_eq!(p.name, "Proxy");
    assert_eq!(
        build_connect_request_with(profile(), None, false).unwrap_err(),
        "El fichero .ovpn no existe:\n/"
    );
    let mut bad = proxy.clone();
    bad.host = "".into();
    assert_eq!(
        build_connect_request_with(profile(), Some(bad), true).unwrap_err(),
        "La dirección del servidor proxy no puede estar vacía."
    );
    assert!(build_connect_request(profile(), None).is_ok());
    assert_eq!(map_proxy_auth_method(&ProxyAuthMethod::NoAuth), Ipc::NoAuth);
    assert_eq!(map_proxy_auth_method(&ProxyAuthMethod::Ntlm), Ipc::Ntlm);
}

fn is_log(a: &WorkerAction, text: &str) -> bool {
    matches!(a, WorkerAction::Emit(VpnEvent::Log(l)) if l == text)
}

#[test]
fn worker_announces_helper_status_only_on_change() {
    let (mut w, start) = VpnWorker::new();
    assert!(!w.helper_available);
    assert_eq!(start.len(), 1);
    assert!(matches!(start[0], WorkerAction::Send(GuiCommand::RequestStatus)));
    let a = w.on_gui_event(GuiEvent::ConnectedToHelper);
    assert!(w.helper_available);
    assert_eq!(a.len(), 3);
    assert!(matches!(&a[0], WorkerAction::Emit(VpnEvent::HelperStatusChanged(s)) if s.kind == HelperDiagnosticKind::Connected));
    assert!(is_log(&a[1], "Conectado con el helper root de VPN."));
    assert!(matches!(a[2], WorkerAction::Send(GuiCommand::RequestHealth)));
    // the same status again is not announced
    let a = w.on_gui_event(GuiEvent::Pong);
    assert!(a.is_empty());
    let a = w.on_gui_event(GuiEvent::HelperUnavailable("Se cerró la conexión con el helper: eof".into()));
    assert!(!w.helper_available);
    assert_eq!(a.len(), 3);
    assert!(matches!(&a[0], WorkerAction::Emit(VpnEvent::HelperStatusChanged(s)) if s.kind == HelperDiagnosticKind::ConnectionLost));
    assert!(matches!(&a[2], WorkerAction::Emit(VpnEvent::StatusChanged(VpnStatus::Failed(m))) if m == "Se cerró la conexión con el helper: eof"));
    let a = w.on_tick();
    assert_eq!(a.len(), 3);
    assert!(matches!(a[2], WorkerAction::Send(GuiCommand::RequestStatus)));
}

#[test]
fn worker_passes_events_on() {
    let (mut w, _) = VpnWorker::new();
    let mut snap = SessionSnapshot::idle();
    snap.active_profile_name = Some("Oficina".into());
    let a = w.on_gui_event(GuiEvent::Snapshot(snap));
    assert!(is_log(&a[0], "Estado actualizado para el perfil 'Oficina'."));
    assert!(w.on_gui_event(GuiEvent::Snapshot(SessionSnapshot::idle())).is_empty());
    let a = w.on_gui_event(GuiEvent::Log("[helper] No se pudo lanzar OpenVPN: falló spawn de openvpn".into()));
    assert_eq!(a.len(), 2);
    assert!(matches!(&a[0], WorkerAction::Emit(VpnEvent::HelperStatusChanged(s)) if s.kind == HelperDiagnosticKind::OpenVpnMissing));
    let a = w.on_gui_event(GuiEvent::Log("hola".into()));
    assert_eq!(a.len(), 1);
    let a = w.on_gui_event(GuiEvent::Ack("ok".into()));
    assert!(is_log(&a[0], "ok"));
    let a = w.on_gui_event(GuiEvent::StatusChanged(VpnStatus::Connected));
    assert!(matches!(a[0], WorkerAction::Emit(VpnEvent::StatusChanged(VpnStatus::Connected))));
    let a = w.on_gui_event(GuiEvent::Error("x".into()));
    assert_eq!(a.len(), 3);
    let report = HelperHealthReport { generated_at_unix_ms: 3, items: vec![] };
    let a = w.on_gui_event(GuiEvent::Health(report));
    assert!(matches!(a.last().unwrap(), WorkerAction::Emit(VpnEvent::HealthReportChanged(r)) if r.generated_at_unix_ms == 3));
}

#[test]
fn worker_connect_and_disconnect() {
    let (w, _) = VpnWorker::new();
    let a = w.on_connect(profile(), None);
    assert_eq!(a.len(), 4);
    assert!(matches!(a[0], WorkerAction::Send(GuiCommand::RequestStatus)));
    assert!(is_log(&a[1], "Solicitando conexión al helper root..."));
    assert!(matches!(a[2], WorkerAction::Emit(VpnEvent::StatusChanged(VpnStatus::Connecting))));
    assert!(matches!(&a[3], WorkerAction::Send(GuiCommand::Connect(r)) if r.profile_name == "Oficina"));
    let mut bad = profile();
    bad.username = " ".into();
    let a = w.on_connect(bad, None);
    assert_eq!(a.len(), 2);
    assert!(is_log(&a[0], "El usuario de la VPN no puede estar vacío."));
    let a = w.on_disconnect();
    assert!(is_log(&a[0], "Solicitando desconexión al helper root..."));
    assert!(matches!(a[1], WorkerAction::Send(GuiCommand::Disconnect)));
}
