use vpn_desktop::ipc::{ConnectRequest, ProxyAuthMethod, ProxyRuntime};
use vpn_desktop::openvpn::{
    auth_file_contents, command_log_line, forced_kill_failure, is_ready_line, needs_proxy_auth_file, openvpn_args,
    term_log_line, ExitPoll, StopProgress, StopStep, TermOutcome, STOP_WAIT_ROUNDS,
};

fn req(method: Option<ProxyAuthMethod>, resolv: bool) -> ConnectRequest {
    ConnectRequest {
        profile_name: "Oficina".into(),
        config_path: "/c/profiles/a.ovpn".into(),
        username: "u".into(),
        password: "p".into(),
        proxy: method.map(|m| ProxyRuntime {
            name: "Proxy".into(),
            host: "10.0.0.1".into(),
            port: 8080,
            auth_method: m,
            username: "pu".into(),
            password: "pp".into(),
        }),
        use_update_resolv_conf: resolv,
    }
}

#[test]
fn args_without_proxy() {
    let r = req(None, false);
    assert!(!needs_proxy_auth_file(&r));
    assert_eq!(
        openvpn_args(&r, "/tmp/x/auth", None),
        vec!["--config", "/c/profiles/a.ovpn", "--auth-user-pass", "/tmp/x/auth"]
    );
}

#[test]
fn args_with_proxy_and_resolv_conf() {
    let r = req(Some(ProxyAuthMethod::Ntlm), true);
    assert!(needs_proxy_auth_file(&r));
    assert_eq!(
        openvpn_args(&r, "/tmp/a", Some("/tmp/p")),
        vec![
            "--config",
            "/c/profiles/a.ovpn",
            "--auth-user-pass",
            "/tmp/a",
            "--http-proxy",
            "10.0.0.1",
            "8080",
            "/tmp/p",
            "ntlm",
            "--script-security",
            "2",
            "--up",
            "/etc/openvpn/update-resolv-conf",
            "--down",
            "/etc/openvpn/update-resolv-conf"
        ]
    );
    let r = req(Some(ProxyAuthMethod::NoAuth), false);
    assert!(!needs_proxy_auth_file(&r));
    assert_eq!(
        openvpn_args(&r, "/tmp/a", None),
        vec!["--config", "/c/profiles/a.ovpn", "--auth-user-pass", "/tmp/a", "--http-proxy", "10.0.0.1", "8080"]
    );
}

#[test]
fn auth_file_and_command_line() {
    assert_eq!(auth_file_contents("user", "pass"), "user\npass\n");
    let args = vec!["--config".to_string(), "a b".to_string()];
    assert_eq!(command_log_line(&args), "$ openvpn --config a b");
    assert_eq!(command_log_line(&Vec::new()), "$ openvpn ");
}

#[test]
fn ready_line() {
    assert!(is_ready_line("Mon Jan 1 Initialization Sequence Completed"));
    assert!(!is_ready_line("initialization sequence completed"));
}

#[test]
fn stop_procedure() {
    assert_eq!(term_log_line(&TermOutcome::Sent, 1234), "SIGTERM enviado a openvpn pid 1234");
    assert_eq!(
        term_log_line(&TermOutcome::Refused("exit status: 1".into()), 1),
        "kill -TERM devolvió estado no exitoso: exit status: 1"
    );
    assert_eq!(term_log_line(&TermOutcome::Failed("nope".into()), 1), "no se pudo ejecutar kill -TERM: nope");
    let mut p = StopProgress::new();
    let mut rounds = 0;
    while p.should_poll() {
        assert_eq!(p.after_poll(ExitPoll::Running), StopStep::WaitAndPoll);
        rounds += 1;
    }
    assert_eq!(rounds, STOP_WAIT_ROUNDS);
    assert_eq!(p.give_up(), StopStep::ForceKill);
    let mut p = StopProgress::new();
    assert_eq!(p.after_poll(ExitPoll::Exited), StopStep::Done(Ok(())));
    assert_eq!(p.after_poll(ExitPoll::Failed("x".into())), StopStep::Done(Err("try_wait falló: x".into())));
    assert_eq!(forced_kill_failure(true, "e"), "kill() falló: e");
    assert_eq!(forced_kill_failure(false, "e"), "wait() tras kill falló: e");
}

#[test]
fn passwords_never_reach_the_command_line() {
    let a = req(Some(ProxyAuthMethod::Basic), true);
    let mut b = a.clone();
    b.password = "otra-clave".into();
    if let Some(p) = b.proxy.as_mut() {
        p.password = "otra-clave-proxy".into();
    }
    let args_a = openvpn_args(&a, "/tmp/a", Some("/tmp/p"));
    let args_b = openvpn_args(&b, "/tmp/a", Some("/tmp/p"));
    assert_eq!(args_a, args_b);
    assert_eq!(command_log_line(&args_a), command_log_line(&args_b));
    assert!(args_a.iter().all(|x| !x.contains("pp") && x != "p"));
}
