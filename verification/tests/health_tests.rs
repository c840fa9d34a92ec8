use vpn_desktop::health::{health_report, HealthObservations, OpenVpnCheck, SocketMetadata};
use vpn_desktop::ipc::HealthStatus;

fn obs() -> HealthObservations {
    HealthObservations {
        socket_exists: true,
        socket_is_unix: true,
        socket_metadata: Some(SocketMetadata { mode: 0o140660, uid: 0, gid: 1001 }),
        socket_accessible: true,
        openvpn: OpenVpnCheck::Succeeded { stdout: "OpenVPN 2.6.3 x86_64\r\nlibrary versions\n".into() },
        update_resolv_conf_exists: true,
        socket_unit_active: Some(true),
        socket_unit_enabled: None,
        service_unit_active: Some(false),
        service_unit_enabled: Some(true),
        helper_binary_path: Some("/usr/libexec/vpn-desktopd".into()),
        generated_at_unix_ms: 77,
    }
}

#[test]
fn healthy_report() {
    let r = health_report(&obs());
    assert_eq!(r.generated_at_unix_ms, 77);
    let keys: Vec<&str> = r.items.iter().map(|i| i.key.as_str()).collect();
    assert_eq!(keys, vec!["socket", "socket_access", "openvpn", "update_resolv_conf", "systemd", "helper_binary"]);
    assert!(r.items.iter().all(|i| i.status == HealthStatus::Healthy));
    assert_eq!(
        r.items[0].details.as_deref(),
        Some("ruta=/run/vpn-desktopd.sock; modo=0660; uid=0; gid=1001")
    );
    assert_eq!(r.items[1].details.as_deref(), Some("ruta=/run/vpn-desktopd.sock"));
    assert_eq!(r.items[2].details.as_deref(), Some("OpenVPN 2.6.3 x86_64"));
    assert_eq!(
        r.items[4].details.as_deref(),
        Some("socket_active=Some(true); socket_enabled=None; service_active=Some(false); service_enabled=Some(true)")
    );
    assert_eq!(r.items[5].details.as_deref(), Some("/usr/libexec/vpn-desktopd"));
}

#[test]
fn degraded_report() {
    let mut o = obs();
    o.socket_exists = false;
    o.socket_is_unix = false;
    o.socket_metadata = None;
    o.socket_accessible = false;
    o.openvpn = OpenVpnCheck::Unavailable { error_text: "No such file or directory (os error 2)".into() };
    o.update_resolv_conf_exists = false;
    o.socket_unit_active = Some(false);
    o.socket_unit_enabled = Some(false);
    o.helper_binary_path = None;
    let r = health_report(&o);
    assert_eq!(r.items[0].status, HealthStatus::Error);
    assert_eq!(r.items[0].summary, "No existe el socket esperado del helper.");
    assert_eq!(r.items[0].details.as_deref(), Some("ruta=/run/vpn-desktopd.sock; sin metadatos disponibles"));
    assert_eq!(r.items[1].status, HealthStatus::Error);
    assert_eq!(r.items[2].status, HealthStatus::Error);
    assert_eq!(r.items[2].details.as_deref(), Some("No such file or directory (os error 2)"));
    assert_eq!(r.items[3].status, HealthStatus::Warn);
    assert_eq!(r.items[4].status, HealthStatus::Warn);
    assert_eq!(r.items[5].details.as_deref(), Some("desconocida"));

    let mut o = obs();
    o.socket_is_unix = false;
    o.socket_accessible = false;
    o.openvpn = OpenVpnCheck::Unsuccessful { status_text: "exit status: 1".into() };
    let r = health_report(&o);
    assert_eq!(r.items[0].summary, "La ruta del helper existe, pero no es un socket Unix.");
    assert_eq!(r.items[1].status, HealthStatus::Warn);
    assert_eq!(r.items[2].status, HealthStatus::Warn);
    assert_eq!(r.items[2].details.as_deref(), Some("exit_status=exit status: 1"));

    let mut o = obs();
    o.openvpn = OpenVpnCheck::Succeeded { stdout: String::new() };
    assert_eq!(health_report(&o).items[2].details.as_deref(), Some("Versión de OpenVPN detectada"));
}
