//! The OpenVPN command line the helper runs for a connection request, the
//! credential files it writes for it, and the procedure that stops it.
use vstd::prelude::*;
use crate::ipc::{openvpn_auth_word, ConnectRequest, ProxyRuntime};
use crate::text::{cat, cat3, contains, decimal, decimal_string, join, join_strings, str_contains, views};

verus! {

/// The script OpenVPN runs to update the resolver when the tunnel goes up or down.
pub const UPDATE_RESOLV_CONF: &'static str = "/etc/openvpn/update-resolv-conf";

/// The line OpenVPN prints once the tunnel is up.
pub const READY_MARKER: &'static str = "Initialization Sequence Completed";

/// How many times the helper looks for OpenVPN to exit after asking it to stop.
pub const STOP_WAIT_ROUNDS: usize = 20;

/// Milliseconds the helper waits between two such looks.
pub const STOP_WAIT_STEP_MS: u64 = 250;

/// The request goes through a proxy that needs a credentials file.
pub open spec fn needs_proxy_auth(req: ConnectRequest) -> bool {
    req.proxy matches Some(p) && openvpn_auth_word(p.auth_method) is Some
}

/// Whether the helper must write a proxy credentials file for `req`.
pub fn needs_proxy_auth_file(req: &ConnectRequest) -> (r: bool)
    ensures
        r == needs_proxy_auth(*req),
{
    match &req.proxy {
        Some(p) => p.auth_method.as_openvpn_arg().is_some(),
        None => false,
    }
}

/// The arguments of the OpenVPN command for `req`, given the paths of the
/// credentials files written for it.
pub open spec fn openvpn_arg_list(req: ConnectRequest, vpn_auth: Seq<char>, proxy_auth: Option<Seq<char>>) -> Seq<Seq<char>> {
    let base = seq!["--config"@, req.config_path@, "--auth-user-pass"@, vpn_auth];
    let with_proxy = match req.proxy {
        Some(p) => {
            let hp = base + seq!["--http-proxy"@, p.host@, decimal(p.port as nat)];
            match (openvpn_auth_word(p.auth_method), proxy_auth) {
                (Some(w), Some(f)) => hp + seq![f, w],
                _ => hp,
            }
        },
        None => base,
    };
    if req.use_update_resolv_conf {
        with_proxy + seq!["--script-security"@, "2"@, "--up"@, UPDATE_RESOLV_CONF@, "--down"@, UPDATE_RESOLV_CONF@]
    } else {
        with_proxy
    }
}

/// The arguments of the OpenVPN command for `req`. `proxy_auth_path` is the
/// proxy credentials file, which exists exactly when the proxy needs one.
pub fn openvpn_args(req: &ConnectRequest, vpn_auth_path: &str, proxy_auth_path: Option<&str>) -> (r: Vec<String>)
    requires
        needs_proxy_auth(*req) == proxy_auth_path.is_some(),
    ensures
        views(r@) == openvpn_arg_list(*req, vpn_auth_path@, match proxy_auth_path {
            Some(p) => Some(p@),
            None => None,
        }),
{
    let mut args: Vec<String> = Vec::new();
    args.push(String::from_str("--config"));
    args.push(req.config_path.clone());
    args.push(String::from_str("--auth-user-pass"));
    args.push(String::from_str(vpn_auth_path));
    let ghost base = views(args@);
    let ghost pa = match proxy_auth_path {
        Some(p) => Some(p@),
        None => None,
    };
    assert(base =~= seq!["--config"@, req.config_path@, "--auth-user-pass"@, vpn_auth_path@]);
    match &req.proxy {
        Some(p) => {
            args.push(String::from_str("--http-proxy"));
            args.push(p.host.clone());
            args.push(decimal_string(p.port as u64));
            let ghost hp = views(args@);
            assert(hp =~= base + seq!["--http-proxy"@, p.host@, decimal(p.port as nat)]);
            match (p.auth_method.as_openvpn_arg(), proxy_auth_path) {
                (Some(method), Some(file)) => {
                    args.push(String::from_str(file));
                    args.push(String::from_str(method));
                    assert(views(args@) =~= hp + seq![file@, method@]);
                },
                _ => {},
            }
        },
        None => {},
    }
    let ghost with_proxy = views(args@);
    assert(with_proxy == match req.proxy {
        Some(p) => {
            let hp = base + seq!["--http-proxy"@, p.host@, decimal(p.port as nat)];
            match (openvpn_auth_word(p.auth_method), pa) {
                (Some(w), Some(f)) => hp + seq![f, w],
                _ => hp,
            }
        },
        None => base,
    });
    if req.use_update_resolv_conf {
        args.push(String::from_str("--script-security"));
        args.push(String::from_str("2"));
        args.push(String::from_str("--up"));
        args.push(String::from_str(UPDATE_RESOLV_CONF));
        args.push(String::from_str("--down"));
        args.push(String::from_str(UPDATE_RESOLV_CONF));
        assert(views(args@) =~= with_proxy + seq!["--script-security"@, "2"@, "--up"@, UPDATE_RESOLV_CONF@,
            "--down"@, UPDATE_RESOLV_CONF@]);
    }
    args
}

/// The contents of a credentials file: the user name and the password, each
/// on its own line.
pub fn auth_file_contents(username: &str, password: &str) -> (r: String)
    ensures
        r@ == username@ + "\n"@ + password@ + "\n"@,
{
    let mut r = cat3(username, "\n", password);
    r.append("\n");
    r
}

/// The log line that records the command about to run.
pub fn command_log_line(args: &Vec<String>) -> (r: String)
    ensures
        r@ == "$ openvpn "@ + join(views(args@), " "@),
{
    cat("$ openvpn ", join_strings(args, " ").as_str())
}

/// Whether an output line of OpenVPN says that the tunnel is up.
pub fn is_ready_line(line: &str) -> (r: bool)
    ensures
        r == contains(line@, READY_MARKER@),
{
    str_contains(line, READY_MARKER)
}

/// What came of asking OpenVPN to terminate.
#[derive(Debug, Clone, PartialEq, Eq)]
pub enum TermOutcome {
    /// The signal was delivered.
    Sent,
    /// `kill` ran but reported failure, with its exit status.
    Refused(String),
    /// `kill` could not be run, with the reason.
    Failed(String),
}

/// The log line that records a termination request to process `pid`.
pub open spec fn term_log_text(outcome: TermOutcome, pid: u32) -> Seq<char> {
    match outcome {
        TermOutcome::Sent => "SIGTERM enviado a openvpn pid "@ + decimal(pid as nat),
        TermOutcome::Refused(s) => "kill -TERM devolvió estado no exitoso: "@ + s@,
        TermOutcome::Failed(e) => "no se pudo ejecutar kill -TERM: "@ + e@,
    }
}

/// Executable form of [`term_log_text`].
pub fn term_log_line(outcome: &TermOutcome, pid: u32) -> (r: String)
    ensures
        r@ == term_log_text(*outcome, pid),
{
    match outcome {
        TermOutcome::Sent => cat("SIGTERM enviado a openvpn pid ", decimal_string(pid as u64).as_str()),
        TermOutcome::Refused(s) => cat("kill -TERM devolvió estado no exitoso: ", s.as_str()),
        TermOutcome::Failed(e) => cat("no se pudo ejecutar kill -TERM: ", e.as_str()),
    }
}

/// The log line written before OpenVPN is killed outright.
pub const FORCED_KILL_LINE: &'static str = "OpenVPN no salió tras SIGTERM; forzando kill()";

/// One look at whether OpenVPN has exited.
#[derive(Debug, Clone, PartialEq, Eq)]
pub enum ExitPoll {
    Exited,
    Running,
    Failed(String),
}

/// The next step of stopping OpenVPN.
#[derive(Debug, PartialEq, Eq)]
pub enum StopStep {
    /// Look again after waiting `STOP_WAIT_STEP_MS`.
    WaitAndPoll,
    /// Kill the process outright and wait for it.
    ForceKill,
    /// Stopping is over, with this result.
    Done(Result<(), String>),
}

/// Progress of stopping OpenVPN after the termination request: how many looks
/// found it still running.
#[derive(Debug, Clone, Copy, PartialEq, Eq)]
pub struct StopProgress {
    pub rounds: usize,
}

impl StopProgress {
    /// No look taken yet.
    pub fn new() -> (r: Self)
        ensures
            r.rounds == 0,
    {
        StopProgress { rounds: 0 }
    }

    /// Whether to look again; after `STOP_WAIT_ROUNDS` looks the process is
    /// killed outright.
    pub fn should_poll(&self) -> (r: bool)
        ensures
            r == (self.rounds < STOP_WAIT_ROUNDS),
    {
        self.rounds < STOP_WAIT_ROUNDS
    }

    /// What to do after a look: done once the process exited, failed when the
    /// look failed, otherwise wait and look again.
    pub fn after_poll(&mut self, poll: ExitPoll) -> (r: StopStep)
        requires
            old(self).rounds < STOP_WAIT_ROUNDS,
        ensures
            match poll {
                ExitPoll::Exited => r == StopStep::Done(Ok(())) && final(self).rounds == old(self).rounds,
                ExitPoll::Failed(e) => (r matches StopStep::Done(Err(m)) && m@ == "try_wait falló: "@ + e@)
                    && final(self).rounds == old(self).rounds,
                ExitPoll::Running => r == StopStep::WaitAndPoll && final(self).rounds == old(self).rounds + 1,
            },
    {
        match poll {
            ExitPoll::Exited => StopStep::Done(Ok(())),
            ExitPoll::Failed(e) => StopStep::Done(Err(cat("try_wait falló: ", e.as_str()))),
            ExitPoll::Running => {
                self.rounds = self.rounds + 1;
                StopStep::WaitAndPoll
            },
        }
    }

    /// The step once no further look is due: kill the process outright.
    pub fn give_up(&self) -> (r: StopStep)
        ensures
            r == StopStep::ForceKill,
    {
        StopStep::ForceKill
    }
}

/// The error of a forced kill that failed, as the helper reports it: the step
/// that failed (`kill()` or the wait after it) and the reason.
pub fn forced_kill_failure(kill_failed: bool, detail: &str) -> (r: String)
    ensures
        kill_failed ==> r@ == "kill() falló: "@ + detail@,
        !kill_failed ==> r@ == "wait() tras kill falló: "@ + detail@,
{
    if kill_failed {
        cat("kill() falló: ", detail)
    } else {
        cat("wait() tras kill falló: ", detail)
    }
}

/// `req` with its VPN password and its proxy's password (if it has a proxy)
/// replaced.
pub open spec fn with_passwords(req: ConnectRequest, password: String, proxy_password: String) -> ConnectRequest {
    ConnectRequest {
        password,
        proxy: match req.proxy {
            Some(p) => Some(ProxyRuntime { password: proxy_password, ..p }),
            None => None,
        },
        ..req
    }
}

/// Law: the OpenVPN command line, and so the log line that shows it, does not
/// depend on the VPN password or the proxy password: those reach OpenVPN only
/// through the credentials files.
pub proof fn law_passwords_stay_out_of_command(
    req: ConnectRequest,
    password: String,
    proxy_password: String,
    vpn_auth: Seq<char>,
    proxy_auth: Option<Seq<char>>,
)
    ensures
        openvpn_arg_list(with_passwords(req, password, proxy_password), vpn_auth, proxy_auth)
            == openvpn_arg_list(req, vpn_auth, proxy_auth),
        needs_proxy_auth(with_passwords(req, password, proxy_password)) == needs_proxy_auth(req),
{
}

/// Law: the resolver script follows the profile's choice alone. When the
/// request asks for it, the command line ends with `--script-security 2 --up
/// <script> --down <script>`, with or without a proxy; when it does not, the
/// command line has no such block. Without a proxy the command line is the
/// configuration and the credentials file, then that block when asked for.
pub proof fn law_resolver_script_follows_the_profile(req: ConnectRequest, vpn_auth: Seq<char>, proxy_auth: Option<Seq<char>>)
    ensures
        ({
            let args = openvpn_arg_list(req, vpn_auth, proxy_auth);
            let block = seq!["--script-security"@, "2"@, "--up"@, "/etc/openvpn/update-resolv-conf"@, "--down"@,
                "/etc/openvpn/update-resolv-conf"@];
            &&& req.use_update_resolv_conf ==> args.len() >= 6 && args.subrange(args.len() - 6, args.len() as int) == block
            &&& req.use_update_resolv_conf ==> args.len() == 10 || args.len() == 13 || args.len() == 15
            &&& !req.use_update_resolv_conf ==> args.len() == 4 || args.len() == 7 || args.len() == 9
            &&& req.proxy is None ==> args == seq!["--config"@, req.config_path@, "--auth-user-pass"@, vpn_auth]
                + if req.use_update_resolv_conf { block } else { Seq::empty() }
        }),
{
    let args = openvpn_arg_list(req, vpn_auth, proxy_auth);
    if req.use_update_resolv_conf {
        assert(args.subrange(args.len() - 6, args.len() as int) =~= seq!["--script-security"@, "2"@, "--up"@,
            "/etc/openvpn/update-resolv-conf"@, "--down"@, "/etc/openvpn/update-resolv-conf"@]);
    }
    if req.proxy is None {
        assert(args =~= seq!["--config"@, req.config_path@, "--auth-user-pass"@, vpn_auth]
            + if req.use_update_resolv_conf {
                seq!["--script-security"@, "2"@, "--up"@, "/etc/openvpn/update-resolv-conf"@, "--down"@,
                    "/etc/openvpn/update-resolv-conf"@]
            } else {
                Seq::empty()
            });
    }
}

} // verus!
