//! Messages exchanged between the desktop front end and the root helper over
//! the local socket, one JSON document per line.
use vstd::prelude::*;

verus! {

/// Version of the line protocol spoken over the helper socket.
pub const PROTOCOL_VERSION: u32 = 1;

/// Where the helper listens when systemd does not hand it a socket.
pub const DEFAULT_SOCKET_PATH: &'static str = "/run/vpn-desktopd.sock";

/// A copy of an optional text.
pub fn clone_opt_string(o: &Option<String>) -> (r: Option<String>)
    ensures
        r == *o,
{
    match o {
        Some(s) => Some(s.clone()),
        None => None,
    }
}

/// How the helper authenticates against an HTTP proxy.
#[derive(Debug, Clone, Copy, PartialEq, Eq, Structural)]
pub enum ProxyAuthMethod {
    NoAuth,
    Basic,
    Ntlm,
}

/// The method word that OpenVPN expects after the credentials file of
/// `--http-proxy`; no word when the proxy needs no credentials.
pub open spec fn openvpn_auth_word(m: ProxyAuthMethod) -> Option<Seq<char>> {
    match m {
        ProxyAuthMethod::NoAuth => None,
        ProxyAuthMethod::Basic => Some("basic"@),
        ProxyAuthMethod::Ntlm => Some("ntlm"@),
    }
}

impl ProxyAuthMethod {
    /// The method word passed to OpenVPN, if any.
    pub fn as_openvpn_arg(self) -> (r: Option<&'static str>)
        ensures
            match r {
                Some(s) => openvpn_auth_word(self) == Some(s@),
                None => openvpn_auth_word(self) is None,
            },
    {
        match self {
            ProxyAuthMethod::NoAuth => None,
            ProxyAuthMethod::Basic => Some("basic"),
            ProxyAuthMethod::Ntlm => Some("ntlm"),
        }
    }
}

/// The proxy part of a connection request, as the helper needs it.
#[derive(Debug, Clone)]
pub struct ProxyRuntime {
    pub name: String,
    pub host: String,
    pub port: u16,
    pub auth_method: ProxyAuthMethod,
    pub username: String,
    pub password: String,
}

impl ProxyRuntime {
    /// A field-by-field copy.
    pub fn duplicate(&self) -> (r: Self)
        ensures
            r == *self,
    {
        ProxyRuntime {
            name: self.name.clone(),
            host: self.host.clone(),
            port: self.port,
            auth_method: self.auth_method,
            username: self.username.clone(),
            password: self.password.clone(),
        }
    }
}

/// Everything the helper needs to start OpenVPN for one profile.
#[derive(Debug, Clone)]
pub struct ConnectRequest {
    pub profile_name: String,
    pub config_path: String,
    pub username: String,
    pub password: String,
    pub proxy: Option<ProxyRuntime>,
    pub use_update_resolv_conf: bool,
}

impl ConnectRequest {
    /// A field-by-field copy.
    pub fn duplicate(&self) -> (r: Self)
        ensures
            r == *self,
    {
        ConnectRequest {
            profile_name: self.profile_name.clone(),
            config_path: self.config_path.clone(),
            username: self.username.clone(),
            password: self.password.clone(),
            proxy: match &self.proxy {
                Some(p) => Some(p.duplicate()),
                None => None,
            },
            use_update_resolv_conf: self.use_update_resolv_conf,
        }
    }
}

/// Lifecycle of the helper's single VPN session.
#[derive(Debug, Clone, Copy, PartialEq, Eq, Structural)]
pub enum VpnPhase {
    Idle,
    Connecting,
    Connected,
    Disconnecting,
    Failed,
}

/// Where a log line came from.
#[derive(Debug, Clone, Copy, PartialEq, Eq, Structural)]
pub enum LogStream {
    Stdout,
    Stderr,
    Internal,
}

/// One numbered line of the helper's log.
#[derive(Debug, Clone)]
pub struct LogEntry {
    pub seq: u64,
    pub stream: LogStream,
    pub line: String,
    pub ts_unix_ms: u64,
}

#[verifier::external_type_specification]
#[verifier::external_body]
pub struct ExSystemTime(std::time::SystemTime);

/// Reads the system clock through `std::time::SystemTime::now`; the time
/// read is not stated.
#[verifier::external_body]
fn system_now() -> std::time::SystemTime {
    std::time::SystemTime::now()
}

/// Milliseconds from the Unix epoch to `t` through
/// `SystemTime::duration_since`, or nothing when `t` lies before the epoch; the
/// value, which depends on the clock reading, is not stated.
#[verifier::external_body]
fn millis_since_epoch(t: std::time::SystemTime) -> Option<u128> {
    t.duration_since(std::time::UNIX_EPOCH).ok().map(|d| d.as_millis())
}

/// Milliseconds since the Unix epoch by the system clock, truncated to 64
/// bits, or 0 when the clock reads before the epoch.
pub fn unix_time_ms_now() -> u64 {
    match millis_since_epoch(system_now()) {
        Some(ms) => {
            #[verifier::truncate]
            let r = ms as u64;
            r
        },
        None => 0,
    }
}

impl LogEntry {
    /// A log entry stamped with the current time.
    pub fn new(seq: u64, stream: LogStream, line: String) -> (r: Self)
        ensures
            r.seq == seq,
            r.stream == stream,
            r.line == line,
    {
        LogEntry { seq, stream, line, ts_unix_ms: unix_time_ms_now() }
    }

    /// A field-by-field copy.
    pub fn duplicate(&self) -> (r: Self)
        ensures
            r == *self,
    {
        LogEntry { seq: self.seq, stream: self.stream, line: self.line.clone(), ts_unix_ms: self.ts_unix_ms }
    }
}

/// The helper's view of its session, as clients are told of it.
#[derive(Debug, Clone)]
pub struct SessionSnapshot {
    pub phase: VpnPhase,
    pub active_profile_name: Option<String>,
    pub active_proxy_name: Option<String>,
    pub pid: Option<u32>,
    pub started_at_unix_ms: Option<u64>,
    pub last_error: Option<String>,
    pub last_log_seq: u64,
}

impl SessionSnapshot {
    /// The snapshot of a helper with no session and no log.
    pub fn idle() -> (r: Self)
        ensures
            r.phase == VpnPhase::Idle,
            r.active_profile_name is None,
            r.active_proxy_name is None,
            r.pid is None,
            r.started_at_unix_ms is None,
            r.last_error is None,
            r.last_log_seq == 0,
    {
        SessionSnapshot {
            phase: VpnPhase::Idle,
            active_profile_name: None,
            active_proxy_name: None,
            pid: None,
            started_at_unix_ms: None,
            last_error: None,
            last_log_seq: 0,
        }
    }

    /// A field-by-field copy.
    pub fn duplicate(&self) -> (r: Self)
        ensures
            r == *self,
    {
        SessionSnapshot {
            phase: self.phase,
            active_profile_name: clone_opt_string(&self.active_profile_name),
            active_proxy_name: clone_opt_string(&self.active_proxy_name),
            pid: self.pid,
            started_at_unix_ms: self.started_at_unix_ms,
            last_error: clone_opt_string(&self.last_error),
            last_log_seq: self.last_log_seq,
        }
    }
}

/// The first message a client sends.
#[derive(Debug, Clone)]
pub struct HelloRequest {
    pub protocol_version: u32,
    pub client_name: String,
    pub client_pid: Option<u32>,
    pub want_logs_tail: usize,
}

impl HelloRequest {
    /// A greeting in the current protocol version.
    pub fn new(client_name: String, client_pid: Option<u32>, want_logs_tail: usize) -> (r: Self)
        ensures
            r.protocol_version == PROTOCOL_VERSION,
            r.client_name == client_name,
            r.client_pid == client_pid,
            r.want_logs_tail == want_logs_tail,
    {
        HelloRequest { protocol_version: PROTOCOL_VERSION, client_name, client_pid, want_logs_tail }
    }
}

/// The helper's answer to an accepted greeting.
#[derive(Debug, Clone)]
pub struct HelloOk {
    pub protocol_version: u32,
    pub snapshot: SessionSnapshot,
    pub logs_tail: Vec<LogEntry>,
}

/// Acknowledgement of a forwarded request.
#[derive(Debug, Clone)]
pub struct Ack {
    pub request: String,
    pub message: Option<String>,
}

/// Outcome of one environment check.
#[derive(Debug, Clone, Copy, PartialEq, Eq, Structural)]
pub enum HealthStatus {
    Healthy,
    Warn,
    Error,
}

/// One environment check of the helper.
#[derive(Debug, Clone)]
pub struct HelperHealthItem {
    pub key: String,
    pub status: HealthStatus,
    pub summary: String,
    pub details: Option<String>,
}

/// All environment checks of the helper.
#[derive(Debug, Clone)]
pub struct HelperHealthReport {
    pub generated_at_unix_ms: u64,
    pub items: Vec<HelperHealthItem>,
}

/// A refused request.
#[derive(Debug, Clone)]
pub struct ErrorMessage {
    pub code: ErrorCode,
    pub message: String,
}

/// Why a request was refused.
#[derive(Debug, Clone, Copy, PartialEq, Eq, Structural)]
pub enum ErrorCode {
    InvalidProtocol,
    InvalidRequest,
    Busy,
    Unauthorized,
    NotConnected,
    AlreadyConnected,
    OpenVpnStartFailed,
    Internal,
}

/// Requests a client sends to the helper.
#[derive(Debug, Clone)]
pub enum ClientMessage {
    Hello(HelloRequest),
    GetStatus,
    GetHealth,
    Connect(ConnectRequest),
    Disconnect,
    Ping,
    GetLogs { from_seq: Option<u64>, limit: Option<usize> },
}

/// The wire name of each request.
pub open spec fn client_message_kind(m: ClientMessage) -> Seq<char> {
    match m {
        ClientMessage::Hello(_) => "hello"@,
        ClientMessage::GetStatus => "get_status"@,
        ClientMessage::GetHealth => "get_health"@,
        ClientMessage::Connect(_) => "connect"@,
        ClientMessage::Disconnect => "disconnect"@,
        ClientMessage::Ping => "ping"@,
        ClientMessage::GetLogs { .. } => "get_logs"@,
    }
}

impl ClientMessage {
    /// The wire name of this request.
    pub fn kind(&self) -> (r: &'static str)
        ensures
            r@ == client_message_kind(*self),
    {
        match self {
            ClientMessage::Hello(_) => "hello",
            ClientMessage::GetStatus => "get_status",
            ClientMessage::GetHealth => "get_health",
            ClientMessage::Connect(_) => "connect",
            ClientMessage::Disconnect => "disconnect",
            ClientMessage::Ping => "ping",
            ClientMessage::GetLogs { .. } => "get_logs",
        }
    }
}

/// Messages the helper sends to its clients.
#[derive(Debug, Clone)]
pub enum ServerMessage {
    HelloOk(HelloOk),
    Ack(Ack),
    Error(ErrorMessage),
    Snapshot(SessionSnapshot),
    Health(HelperHealthReport),
    StateChanged(SessionSnapshot),
    Log(LogEntry),
    Logs { entries: Vec<LogEntry> },
    Pong,
}

} // verus!
