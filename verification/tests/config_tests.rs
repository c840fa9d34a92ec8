use vpn_desktop::config::{
    deleted_result, read_result, stored_result, AppConfig, KeyringFailure, ProxyAuthMethod, ProxyConfig, VpnProfile,
};

fn profile(id: &str, name: &str, password: &str) -> VpnProfile {
    VpnProfile {
        id: id.to_string(),
        name: name.to_string(),
        config_file: "/tmp/x.ovpn".to_string(),
        username: "user".to_string(),
        password: password.to_string(),
        use_update_resolv_conf: true,
    }
}

fn proxy(id: &str, name: &str, password: &str) -> ProxyConfig {
    ProxyConfig {
        id: id.to_string(),
        name: name.to_string(),
        host: "proxy.local".to_string(),
        port: 8080,
        auth_method: ProxyAuthMethod::Basic,
        username: "puser".to_string(),
        password: password.to_string(),
    }
}

#[test]
fn auth_method_words_and_names() {
    assert_eq!(ProxyAuthMethod::NoAuth.as_openvpn_arg(), "none");
    assert_eq!(ProxyAuthMethod::Basic.as_openvpn_arg(), "basic");
    assert_eq!(ProxyAuthMethod::Ntlm.as_openvpn_arg(), "ntlm");
    assert_eq!(ProxyAuthMethod::NoAuth.display_name(), "Sin autenticación");
    assert_eq!(ProxyAuthMethod::Basic.display_name(), "Basic");
    assert_eq!(ProxyAuthMethod::Ntlm.display_name(), "NTLM");
    assert!(!ProxyAuthMethod::NoAuth.needs_auth_file());
    assert!(ProxyAuthMethod::Basic.needs_auth_file());
    assert!(ProxyAuthMethod::Ntlm.needs_auth_file());
    assert_eq!(
        ProxyAuthMethod::all(),
        &[ProxyAuthMethod::NoAuth, ProxyAuthMethod::Basic, ProxyAuthMethod::Ntlm]
    );
    assert_eq!(ProxyAuthMethod::default(), ProxyAuthMethod::NoAuth);
}

#[test]
fn new_profile_has_uuid_and_defaults() {
    let p = VpnProfile::new();
    assert_eq!(p.id.chars().count(), 36);
    for (i, c) in p.id.chars().enumerate() {
        if i == 8 || i == 13 || i == 18 || i == 23 {
            assert_eq!(c, '-');
        } else {
            assert!(c.is_ascii_hexdigit() && !c.is_ascii_uppercase());
        }
    }
    let chars: Vec<char> = p.id.chars().collect();
    assert_eq!(chars[14], '4');
    assert!(matches!(chars[19], '8' | '9' | 'a' | 'b'));
    assert!(p.name.is_empty() && p.config_file.is_empty() && p.username.is_empty() && p.password.is_empty());
    assert!(p.use_update_resolv_conf);
    let q = VpnProfile::new();
    assert_ne!(p.id, q.id);
}

#[test]
fn new_proxy_defaults() {
    let p = ProxyConfig::new();
    assert_eq!(p.id.len(), 36);
    assert_eq!(p.port, 3128);
    assert_eq!(p.auth_method, ProxyAuthMethod::NoAuth);
    assert!(p.name.is_empty() && p.host.is_empty());
}

#[test]
fn profile_validation_messages_in_order() {
    let mut p = profile("a", "  ", "pw");
    assert_eq!(p.validate_with_file(true), Err("El nombre del perfil no puede estar vacío.".to_string()));
    p.name = "Oficina".into();
    p.config_file = "\t".into();
    assert_eq!(p.validate_with_file(true), Err("Debes seleccionar un fichero .ovpn.".to_string()));
    p.config_file = "/no/such/file.ovpn".into();
    assert_eq!(
        p.validate_with_file(false),
        Err("El fichero .ovpn no existe:\n/no/such/file.ovpn".to_string())
    );
    p.username = " ".into();
    assert_eq!(p.validate_with_file(true), Err("El usuario de la VPN no puede estar vacío.".to_string()));
    p.username = "u".into();
    p.password = "\u{3000}".into();
    assert_eq!(p.validate_with_file(true), Err("La contraseña de la VPN no puede estar vacía.".to_string()));
    p.password = "s3cr3t".into();
    assert_eq!(p.validate_with_file(true), Ok(()));
}

#[test]
fn profile_validate_checks_the_file_system() {
    let mut p = profile("a", "Oficina", "pw");
    p.config_file = "/definitely/not/here/x.ovpn".into();
    assert_eq!(p.validate(), Err("El fichero .ovpn no existe:\n/definitely/not/here/x.ovpn".to_string()));
    p.config_file = "/".into();
    assert_eq!(p.validate(), Ok(()));
}

#[test]
fn proxy_validation_messages() {
    let mut p = proxy("x", "", "pw");
    assert_eq!(p.validate(), Err("El nombre del proxy no puede estar vacío.".to_string()));
    p.name = "Oficina".into();
    p.host = " ".into();
    assert_eq!(p.validate(), Err("La dirección del servidor proxy no puede estar vacía.".to_string()));
    p.host = "10.0.0.1".into();
    p.port = 0;
    assert_eq!(p.validate(), Err("El puerto debe ser mayor que 0.".to_string()));
    p.port = 3128;
    p.username = "".into();
    assert_eq!(p.validate(), Err("El método 'Basic' requiere un usuario de proxy.".to_string()));
    p.username = "u".into();
    p.password = "".into();
    p.auth_method = ProxyAuthMethod::Ntlm;
    assert_eq!(p.validate(), Err("El método 'NTLM' requiere una contraseña de proxy.".to_string()));
    p.auth_method = ProxyAuthMethod::NoAuth;
    assert_eq!(p.validate(), Ok(()));
}

#[test]
fn paths_are_joined_under_the_config_dir() {
    assert_eq!(
        AppConfig::config_dir_from(Some("/home/u/.config".into()), "/home/u".into()),
        "/home/u/.config/vpn-desktop"
    );
    assert_eq!(AppConfig::config_dir_from(None, "/home/u".into()), "/home/u/vpn-desktop");
    assert_eq!(AppConfig::config_dir_from(None, "".into()), "vpn-desktop");
    assert_eq!(AppConfig::config_path("/c/vpn-desktop"), "/c/vpn-desktop/config.toml");
    assert_eq!(AppConfig::profiles_dir("/c/vpn-desktop/"), "/c/vpn-desktop/profiles");
}

#[test]
fn managed_profile_paths() {
    assert_eq!(
        AppConfig::managed_profile_config_path("/c", "abc", "/home/u/work.conf"),
        "/c/profiles/abc.conf"
    );
    assert_eq!(AppConfig::managed_profile_config_path("/c", "abc", "/home/u/work"), "/c/profiles/abc.ovpn");
    assert_eq!(AppConfig::managed_profile_config_path("/c", "abc", "/home/u/work."), "/c/profiles/abc.ovpn");
    assert_eq!(AppConfig::managed_profile_config_path("/c", "abc", "/home/u/.hidden"), "/c/profiles/abc.ovpn");
    assert_eq!(AppConfig::managed_profile_file_name("id", Some(" ".into())), "id.ovpn");
    assert_eq!(AppConfig::managed_profile_file_name("id", Some("ovpn".into())), "id.ovpn");
    assert!(AppConfig::is_managed_profile_config("/c", "/c/profiles/abc.ovpn"));
    assert!(!AppConfig::is_managed_profile_config("/c", "/c/profilesX/abc.ovpn"));
    assert!(!AppConfig::is_managed_profile_config("/c", "/elsewhere/abc.ovpn"));
    assert!(!AppConfig::should_delete_profile_config("/c", "  "));
    assert!(AppConfig::should_delete_profile_config("/c", "/c/profiles/a.ovpn"));
    let mut p = profile("a", "n", "pw");
    p.config_file = "/c/profiles/a.ovpn".into();
    assert_eq!(AppConfig::profile_config_to_delete("/c", &p), Some("/c/profiles/a.ovpn".to_string()));
    p.config_file = "/home/a.ovpn".into();
    assert_eq!(AppConfig::profile_config_to_delete("/c", &p), None);
    assert!(!AppConfig::import_needs_copy("/c/profiles/a.ovpn", "/c/profiles//a.ovpn"));
    assert!(AppConfig::import_needs_copy("/home/a.ovpn", "/c/profiles/a.ovpn"));
}

#[test]
fn keyring_keys() {
    assert_eq!(AppConfig::vpn_password_key("123"), "vpn-profile:123");
    assert_eq!(AppConfig::proxy_password_key("123"), "proxy-config:123");
}

#[test]
fn keyring_errors_have_the_documented_shape() {
    let p = profile("cfg-test-id", "n", "pw");
    if let Err(e) = AppConfig::store_vpn_password(&p) {
        assert!(
            e.starts_with("No se pudo abrir el keyring para 'vpn-profile:cfg-test-id': ")
                || e.starts_with("No se pudo guardar la contraseña VPN en keyring: ")
        );
    }
    if let Err(e) = AppConfig::delete_vpn_password(&p) {
        assert!(
            e.starts_with("No se pudo abrir el keyring para 'vpn-profile:cfg-test-id': ")
                || e.starts_with("No se pudo eliminar la contraseña VPN del keyring: ")
        );
    }
    let x = proxy("cfg-test-proxy", "n", "pw");
    if let Err(e) = AppConfig::store_proxy_password(&x) {
        assert!(
            e.starts_with("No se pudo abrir el keyring para 'proxy-config:cfg-test-proxy': ")
                || e.starts_with("No se pudo guardar la contraseña del proxy en keyring: ")
        );
    }
    if let Err(e) = AppConfig::delete_proxy_password(&x) {
        assert!(
            e.starts_with("No se pudo abrir el keyring para 'proxy-config:cfg-test-proxy': ")
                || e.starts_with("No se pudo eliminar la contraseña del proxy del keyring: ")
        );
    }
}

#[test]
fn cleanup_returns_file_error_first() {
    let p = profile("a", "n", "pw");
    assert_eq!(
        AppConfig::cleanup_profile_assets(&p, Err("no se pudo borrar".into())),
        Err("no se pudo borrar".to_string())
    );
}

#[test]
fn find_upsert_remove_profiles() {
    let mut c = AppConfig::default();
    c.upsert_profile(profile("a", "A", "pa"));
    c.upsert_profile(profile("b", "B", "pb"));
    assert_eq!(c.vpn_profiles.len(), 2);
    assert_eq!(c.find_profile("b").unwrap().name, "B");
    assert!(c.find_profile("z").is_none());
    // saving with a blank password keeps the stored one
    c.upsert_profile(profile("a", "A2", "  "));
    assert_eq!(c.vpn_profiles.len(), 2);
    let a = c.find_profile("a").unwrap();
    assert_eq!(a.name, "A2");
    assert_eq!(a.password, "pa");
    // saving with a new password replaces it
    c.upsert_profile(profile("a", "A3", "new"));
    assert_eq!(c.find_profile("a").unwrap().password, "new");
    c.remove_profile("a");
    assert!(c.find_profile("a").is_none());
    assert_eq!(c.find_profile("b").unwrap().name, "B");
    assert_eq!(c.vpn_profiles.len(), 1);
}

#[test]
fn find_upsert_remove_proxies() {
    let mut c = AppConfig::default();
    c.upsert_proxy(proxy("p", "P", "secret"));
    c.upsert_proxy(proxy("p", "P2", ""));
    assert_eq!(c.proxy_configs.len(), 1);
    assert_eq!(c.find_proxy("p").unwrap().password, "secret");
    assert_eq!(c.find_proxy("p").unwrap().name, "P2");
    c.upsert_proxy(proxy("q", "Q", "x"));
    c.remove_proxy("p");
    assert!(c.find_proxy("p").is_none());
    assert!(c.find_proxy("q").is_some());
}

#[test]
fn upsert_is_idempotent_on_values() {
    let mut c = AppConfig::default();
    c.upsert_profile(profile("a", "A", "pa"));
    let p = profile("a", "B", "");
    c.upsert_profile(p.clone());
    let once: Vec<(String, String)> = c.vpn_profiles.iter().map(|p| (p.name.clone(), p.password.clone())).collect();
    c.upsert_profile(p);
    let twice: Vec<(String, String)> = c.vpn_profiles.iter().map(|p| (p.name.clone(), p.password.clone())).collect();
    assert_eq!(once, twice);
}

#[test]
fn keyring_round_trip_only_touches_passwords() {
    let mut c = AppConfig::default();
    c.vpn_profiles.push(profile("rt-a", "A", "pw"));
    c.proxy_configs.push(proxy("rt-x", "X", "px"));
    let warnings = c.store_secrets_in_keyring();
    assert!(warnings.len() <= 2);
    let before_names: Vec<String> = c.vpn_profiles.iter().map(|p| p.name.clone()).collect();
    let _ = c.load_secrets_from_keyring();
    let after_names: Vec<String> = c.vpn_profiles.iter().map(|p| p.name.clone()).collect();
    assert_eq!(before_names, after_names);
    assert_eq!(c.proxy_configs[0].host, "proxy.local");
    let _ = AppConfig::delete_vpn_password(&c.vpn_profiles[0]);
    let _ = AppConfig::delete_proxy_password(&c.proxy_configs[0]);
}

fn failure(missing: bool, text: &str) -> KeyringFailure {
    KeyringFailure { missing_entry: missing, text: text.to_string() }
}

#[test]
fn keyring_outcomes() {
    assert_eq!(stored_result(Ok(()), "F: "), Ok(()));
    assert_eq!(stored_result(Err(failure(false, "locked")), "F: "), Err("F: locked".to_string()));
    assert_eq!(stored_result(Err(failure(true, "none")), "F: "), Err("F: none".to_string()));
    assert_eq!(deleted_result(Ok(()), "D: "), Ok(()));
    assert_eq!(deleted_result(Err(failure(true, "none")), "D: "), Ok(()));
    assert_eq!(deleted_result(Err(failure(false, "locked")), "D: "), Err("D: locked".to_string()));
    assert_eq!(read_result(Ok("pw".into()), "R: "), Ok(Some("pw".to_string())));
    assert_eq!(read_result(Err(failure(true, "none")), "R: "), Ok(None));
    assert_eq!(read_result(Err(failure(false, "locked")), "R: "), Err("R: locked".to_string()));
}

#[test]
fn keyring_reads_and_writes_are_computed_per_entry() {
    let mut c = AppConfig::default();
    c.vpn_profiles.push(profile("a", "A", "pa"));
    c.vpn_profiles.push(profile("b", "B", " "));
    c.proxy_configs.push(proxy("x", "X", "px"));

    let writes = c.profile_password_writes();
    assert_eq!(writes.len(), 1);
    assert_eq!(writes[0].key, "vpn-profile:a");
    assert_eq!(writes[0].password, "pa");
    assert_eq!(writes[0].owner, "A");
    let writes = c.proxy_password_writes();
    assert_eq!(writes.len(), 1);
    assert_eq!(writes[0].key, "proxy-config:x");

    let reads = c.profile_password_reads();
    assert_eq!(reads.len(), 2);
    assert_eq!(reads[1].key, "vpn-profile:b");
    assert_eq!(reads[1].read_warning, "[vpn-desktop] Advertencia: no se pudo leer la contraseña VPN 'B' del keyring: ");
    assert_eq!(reads[1].open_warning, "[vpn-desktop] Advertencia: no se pudo abrir el keyring para el perfil VPN 'B' (");
    let reads = c.proxy_password_reads();
    assert_eq!(reads[0].key, "proxy-config:x");
    assert_eq!(reads[0].open_warning, "[vpn-desktop] Advertencia: no se pudo abrir el keyring para el proxy 'X' (");
}

#[test]
fn keyring_reads_are_applied_in_order() {
    let mut c = AppConfig::default();
    c.vpn_profiles.push(profile("a", "A", "old-a"));
    c.vpn_profiles.push(profile("b", "B", "old-b"));
    c.vpn_profiles.push(profile("c", "C", "old-c"));
    c.proxy_configs.push(proxy("x", "X", "old-x"));
    let warnings = c.apply_keyring_reads(
        vec![Ok(Some("new-a".into())), Ok(None), Err("w-c".into())],
        vec![Err("w-x".into())],
    );
    assert_eq!(warnings, vec!["w-c".to_string(), "w-x".to_string()]);
    assert_eq!(c.vpn_profiles[0].password, "new-a");
    assert_eq!(c.vpn_profiles[1].password, "old-b");
    assert_eq!(c.vpn_profiles[2].password, "old-c");
    assert_eq!(c.proxy_configs[0].password, "old-x");
    assert_eq!(c.vpn_profiles[0].name, "A");
}
