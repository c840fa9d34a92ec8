use vpn_desktop::app_state::{
    choose_auth_method, clamp_port, form_outcome, FormAction, health_tone, helper_card_text, log_line_tone, profile_form_can_save,
    proxy_form_can_save, quit_effects, tray_effects, AppState, CardTone, LogTone, Tab, TrayAction, WindowEffect,
    MAX_GUI_LOG_LINES,
};
use vpn_desktop::config::{AppConfig, ProxyAuthMethod, ProxyConfig, VpnProfile};
use vpn_desktop::ipc::HealthStatus;
use vpn_desktop::vpn::{HelperDiagnosticKind, VpnEvent, VpnStatus};

fn profile(id: &str) -> VpnProfile {
    VpnProfile {
        id: id.into(),
        name: format!("P{}", id),
        config_file: "/".into(),
        username: "u".into(),
        password: "p".into(),
        use_update_resolv_conf: true,
    }
}

fn proxy(id: &str) -> ProxyConfig {
    ProxyConfig {
        id: id.into(),
        name: "X".into(),
        host: "h".into(),
        port: 3128,
        auth_method: ProxyAuthMethod::NoAuth,
        username: String::new(),
        password: String::new(),
    }
}

#[test]
fn new_state_selects_first_entries() {
    let mut c = AppConfig::default();
    c.vpn_profiles.push(profile("a"));
    c.vpn_profiles.push(profile("b"));
    let s = AppState::new(c);
    assert_eq!(s.selected_profile_id.as_deref(), Some("a"));
    assert_eq!(s.selected_proxy_id, None);
    assert_eq!(s.current_tab, Tab::Connect);
    assert_eq!(s.vpn_status, VpnStatus::Disconnected);
    assert_eq!(s.helper_status.kind, HelperDiagnosticKind::Unknown);
}

#[test]
fn log_is_trimmed() {
    let mut s = AppState::new(AppConfig::default());
    for i in 0..=MAX_GUI_LOG_LINES {
        s.apply_vpn_event(VpnEvent::Log(format!("{}", i)));
    }
    assert_eq!(s.logs.len(), MAX_GUI_LOG_LINES + 1 - 500);
    assert_eq!(s.logs[0], "500");
    s.apply_vpn_event(VpnEvent::StatusChanged(VpnStatus::Connected));
    assert_eq!(s.vpn_status, VpnStatus::Connected);
}

#[test]
fn forms_are_checked_before_saving() {
    let mut s = AppState::new(AppConfig::default());
    let mut p = profile("a");
    p.name = " ".into();
    assert!(!s.submit_profile_form_with(p.clone(), true, true));
    assert_eq!(s.notification.as_ref().unwrap().text, "El nombre del perfil no puede estar vacío.");
    assert!(s.notification.as_ref().unwrap().is_error);
    assert!(s.profile_form.is_some());
    assert!(s.config.vpn_profiles.is_empty());
    assert!(s.submit_profile_form_with(profile("a"), true, true));
    assert_eq!(s.selected_profile_id.as_deref(), Some("a"));
    assert!(s.submit_profile_form_with(profile("b"), true, true));
    assert_eq!(s.selected_profile_id.as_deref(), Some("a"));
    assert_eq!(s.config.vpn_profiles.len(), 2);
    assert!(s.submit_profile_form(profile("c"), true));

    let mut x = proxy("x");
    x.port = 0;
    assert!(!s.submit_proxy_form(x, true));
    assert_eq!(s.notification.as_ref().unwrap().text, "El puerto debe ser mayor que 0.");
    assert!(s.submit_proxy_form(proxy("x"), true));
    assert_eq!(s.selected_proxy_id.as_deref(), Some("x"));
}

#[test]
fn removing_the_selection_selects_the_first() {
    let mut c = AppConfig::default();
    c.vpn_profiles.push(profile("a"));
    c.vpn_profiles.push(profile("b"));
    c.proxy_configs.push(proxy("x"));
    let mut s = AppState::new(c);
    s.remove_profile("b");
    assert_eq!(s.selected_profile_id.as_deref(), Some("a"));
    s.remove_profile("a");
    assert_eq!(s.selected_profile_id, None);
    s.remove_proxy("x");
    assert_eq!(s.selected_proxy_id, None);
}

#[test]
fn editing_opens_a_copy() {
    let mut c = AppConfig::default();
    c.vpn_profiles.push(profile("a"));
    c.proxy_configs.push(proxy("x"));
    let mut s = AppState::new(c);
    s.edit_profile("a");
    let (p, is_new) = s.profile_form.clone().unwrap();
    assert_eq!(p.id, "a");
    assert!(!is_new);
    s.edit_proxy("zzz");
    assert!(s.proxy_form.is_none());
    s.edit_proxy("x");
    assert!(s.proxy_form.is_some());
}

#[test]
fn preparing_a_connection() {
    let mut s = AppState::new(AppConfig::default());
    assert!(s.prepare_connect_with(true).is_none());
    assert!(s.notification.is_none());
    s.selected_profile_id = Some("missing".into());
    assert!(s.prepare_connect_with(true).is_none());
    assert_eq!(s.notification.as_ref().unwrap().text, "Perfil VPN no encontrado.");
    let mut c = AppConfig::default();
    c.vpn_profiles.push(profile("a"));
    c.proxy_configs.push(proxy("x"));
    let mut s = AppState::new(c);
    assert_eq!(s.selected_proxy_id, None);
    s.selected_proxy_id = Some("x".into());
    s.logs.push("old".into());
    assert!(s.prepare_connect_with(false).is_none());
    assert_eq!(s.notification.as_ref().unwrap().text, "El fichero .ovpn no existe:\n/");
    let (p, x) = s.prepare_connect_with(true).unwrap();
    assert_eq!(p.id, "a");
    assert_eq!(x.unwrap().id, "x");
    assert!(s.logs.is_empty());
    s.config.proxy_configs[0].host = "".into();
    assert!(s.prepare_connect().is_none());
    assert_eq!(s.notification.as_ref().unwrap().text, "La dirección del servidor proxy no puede estar vacía.");
}

#[test]
fn proxy_form_helpers() {
    let mut p = proxy("x");
    p.username = "u".into();
    p.password = "p".into();
    choose_auth_method(&mut p, ProxyAuthMethod::Basic);
    assert_eq!(p.username, "u");
    choose_auth_method(&mut p, ProxyAuthMethod::NoAuth);
    assert!(p.username.is_empty() && p.password.is_empty());
    assert_eq!(clamp_port(0), 1);
    assert_eq!(clamp_port(70000), 65535);
    assert_eq!(clamp_port(8080), 8080);
    assert!(proxy_form_can_save(&p));
    p.host = " ".into();
    assert!(!proxy_form_can_save(&p));
    assert!(profile_form_can_save(&profile("a")));
    let mut q = profile("a");
    q.config_file = String::new();
    assert!(!profile_form_can_save(&q));
}

#[test]
fn log_tones() {
    assert_eq!(log_line_tone("━━━ Sesión"), LogTone::Header);
    assert_eq!(log_line_tone("Initialization Sequence Completed"), LogTone::Success);
    assert_eq!(log_line_tone("[stderr] FATAL: x"), LogTone::Failure);
    assert_eq!(log_line_tone("WARNING: y"), LogTone::Warning);
    assert_eq!(log_line_tone("$ openvpn --config a"), LogTone::Command);
    assert_eq!(log_line_tone("TUN/TAP tunnel opened"), LogTone::Connected);
    assert_eq!(log_line_tone("hola"), LogTone::Plain);
    assert_eq!(log_line_tone(""), LogTone::Plain);
}

#[test]
fn helper_cards() {
    let (t, s, tone) = helper_card_text(HelperDiagnosticKind::Connected);
    assert_eq!(t, "✅ Helper disponible");
    assert_eq!(s, "La GUI puede comunicarse con el helper privilegiado.");
    assert_eq!(tone, CardTone::Good);
    assert_eq!(helper_card_text(HelperDiagnosticKind::OpenVpnMissing).2, CardTone::Bad);
    assert_eq!(helper_card_text(HelperDiagnosticKind::Unknown).0, "⏳ Comprobando helper");
    assert_eq!(health_tone(HealthStatus::Warn), CardTone::Caution);
}

#[test]
fn stored_selection_survives_a_restart() {
    let mut c = AppConfig::default();
    c.vpn_profiles.push(profile("a"));
    c.vpn_profiles.push(profile("b"));
    c.proxy_configs.push(proxy("x"));
    c.proxy_configs.push(proxy("y"));
    c.selected_profile_id = Some("b".into());
    c.selected_proxy_id = Some("y".into());
    let s = AppState::new(c.clone());
    assert_eq!(s.selected_profile_id.as_deref(), Some("b"));
    assert_eq!(s.selected_proxy_id.as_deref(), Some("y"));

    c.selected_profile_id = Some("gone".into());
    c.selected_proxy_id = Some("gone".into());
    let s = AppState::new(c.clone());
    assert_eq!(s.selected_profile_id.as_deref(), Some("a"));
    assert_eq!(s.selected_proxy_id.as_deref(), Some("x"));

    c.selected_proxy_id = None;
    let s = AppState::new(c);
    assert_eq!(s.selected_proxy_id, None);
}

#[test]
fn selection_is_remembered_before_saving() {
    let mut c = AppConfig::default();
    c.vpn_profiles.push(profile("a"));
    c.vpn_profiles.push(profile("b"));
    let mut s = AppState::new(c);
    s.selected_profile_id = Some("b".into());
    s.remember_selection();
    assert_eq!(s.config.selected_profile_id.as_deref(), Some("b"));
    assert_eq!(s.config.selected_proxy_id, None);
    let restarted = AppState::new(s.config.clone());
    assert_eq!(restarted.selected_profile_id.as_deref(), Some("b"));
}

#[test]
fn blank_profile_form_is_refused_without_asking_the_disk() {
    let mut s = AppState::new(AppConfig::default());
    let mut p = profile("a");
    p.name = "  ".into();
    assert!(!s.submit_profile_form(p, true));
    let n = s.notification.clone().expect("the problem is shown");
    assert!(n.is_error);
    assert_eq!(n.text, "El nombre del perfil no puede estar vacío.");
    assert!(s.profile_form.is_some());
    assert!(s.config.vpn_profiles.is_empty());
}

#[test]
fn tray_and_quit_steps() {
    let (visible, effects) = tray_effects(true, TrayAction::ToggleWindow);
    assert!(!visible);
    assert_eq!(effects, vec![WindowEffect::SetVisible(false)]);
    let (visible, effects) = tray_effects(false, TrayAction::Quit);
    assert!(!visible);
    assert_eq!(effects, quit_effects());
    assert_eq!(
        quit_effects(),
        vec![WindowEffect::CancelReconnect, WindowEffect::DisconnectVpn, WindowEffect::Pause(60), WindowEffect::Close]
    );
}

#[test]
fn removal_reports_cleanup_failures() {
    let mut c = AppConfig::default();
    c.vpn_profiles.push(profile("a"));
    c.vpn_profiles.push(profile("b"));
    c.proxy_configs.push(proxy("x"));
    let mut s = AppState::new(c);

    s.remove_profile_with("a", Err("disco lleno".into()));
    let n = s.notification.clone().expect("the failure is shown");
    assert!(n.is_error);
    assert_eq!(n.text, "Error al limpiar archivos del perfil: disco lleno");
    assert_eq!(s.config.vpn_profiles.len(), 1);
    assert_eq!(s.selected_profile_id.as_deref(), Some("b"));

    s.notification = None;
    s.remove_proxy_with("x", Err("bloqueado".into()));
    assert_eq!(
        s.notification.clone().map(|n| n.text),
        Some("No se pudo eliminar el secreto del proxy 'X': bloqueado".to_string())
    );
    assert!(s.config.proxy_configs.is_empty());
    assert_eq!(s.selected_proxy_id, None);

    s.notification = None;
    s.remove_proxy_with("missing", Err("ignored".into()));
    assert!(s.notification.is_none());

    s.delete_profile("b", Err("no se pudo borrar".into()));
    assert_eq!(
        s.notification.clone().map(|n| n.text),
        Some("Error al limpiar archivos del perfil: no se pudo borrar".to_string())
    );
    assert!(s.config.vpn_profiles.is_empty());
}

#[test]
fn form_outcomes() {
    assert!(matches!(form_outcome(1, true, true, true), FormAction::Save { value: 1, is_new: true }));
    assert!(matches!(form_outcome(1, false, false, true), FormAction::Cancel));
    assert!(matches!(form_outcome(2, false, false, false), FormAction::Continue { value: 2, is_new: false }));
}
