//! The front end's view of the VPN: its status, the diagnosis of the helper,
//! the connection request built from a profile and a proxy, and the worker
//! that turns helper events and user commands into interface events.
use vstd::prelude::*;
use crate::config::{profile_problem, proxy_problem, verdict_is, ProxyAuthMethod, ProxyConfig, VpnProfile};
use crate::ipc::{
    clone_opt_string, ConnectRequest, DEFAULT_SOCKET_PATH, HealthStatus, HelperHealthItem, HelperHealthReport, ProxyAuthMethod as IpcProxyAuthMethod,
    ProxyRuntime,
};
use crate::ipc_client::{connect_error_text, ConnectFailure, GuiCommand, GuiEvent};
use crate::paths::path_exists;
use crate::text::{cat, cat3, contains_lowercased, is_blank, join, join_strings, lower_code, lower_contains, lower_matches_at, opt_view, str_eq,
    str_is_blank, views};

verus! {

/// The VPN status the interface shows.
#[derive(Debug, Clone, PartialEq)]
pub enum VpnStatus {
    Disconnected,
    Connecting,
    Connected,
    Failed(String),
}

impl VpnStatus {
    /// Whether a connection is being made or is up.
    pub fn is_active(&self) -> (r: bool)
        ensures
            r == (*self is Connecting || *self is Connected),
    {
        match self {
            VpnStatus::Connecting | VpnStatus::Connected => true,
            _ => false,
        }
    }
}

/// What is known about the helper's availability.
#[derive(Debug, Clone, Copy, PartialEq, Eq, Structural)]
pub enum HelperDiagnosticKind {
    Unknown,
    Connected,
    MissingSocket,
    PermissionDenied,
    ConnectionLost,
    OpenVpnMissing,
    OpenVpnUnavailable,
    Other,
}

/// The helper's availability, with the message to show and optional details.
#[derive(Debug, Clone, PartialEq, Eq)]
pub struct HelperStatus {
    pub kind: HelperDiagnosticKind,
    pub message: String,
    pub details: Option<String>,
}

/// A helper status as plain values.
pub struct HelperStatusView {
    pub kind: HelperDiagnosticKind,
    pub message: Seq<char>,
    pub details: Option<Seq<char>>,
}

impl HelperStatus {
    /// This status as plain values.
    pub open spec fn view(self) -> HelperStatusView {
        HelperStatusView { kind: self.kind, message: self.message@, details: opt_view(self.details) }
    }

    /// Whether two statuses say the same.
    pub fn same_as(&self, other: &HelperStatus) -> (r: bool)
        ensures
            r == (self.view() == other.view()),
    {
        if self.kind != other.kind || !str_eq(self.message.as_str(), other.message.as_str()) {
            return false;
        }
        match (&self.details, &other.details) {
            (Some(a), Some(b)) => str_eq(a.as_str(), b.as_str()),
            (None, None) => true,
            _ => false,
        }
    }

    /// A field-by-field copy.
    pub fn duplicate(&self) -> (r: Self)
        ensures
            r == *self,
    {
        HelperStatus { kind: self.kind, message: self.message.clone(), details: clone_opt_string(&self.details) }
    }
}

/// The status before anything is known of the helper.
pub open spec fn unknown_view() -> HelperStatusView {
    HelperStatusView { kind: HelperDiagnosticKind::Unknown, message: "Comprobando disponibilidad del helper…"@, details: None }
}

/// The status of a helper that answers.
pub open spec fn connected_view() -> HelperStatusView {
    HelperStatusView { kind: HelperDiagnosticKind::Connected, message: "Helper root disponible."@, details: None }
}

/// The diagnosis of a failure to reach the helper, from its message.
pub open spec fn helper_error_kind(m: Seq<char>) -> HelperDiagnosticKind {
    if lower_contains(m, "no se encontró el socket del helper"@)
        || lower_contains(m, "asegúrate de que el servicio root está instalado y activo"@) {
        HelperDiagnosticKind::MissingSocket
    } else if lower_contains(m, "no tienes permisos para usar el helper"@)
        || lower_contains(m, "revisa el grupo/permisos del socket"@) {
        HelperDiagnosticKind::PermissionDenied
    } else if lower_contains(m, "se perdió la conexión con el helper"@)
        || lower_contains(m, "se cerró la conexión con el helper"@) {
        HelperDiagnosticKind::ConnectionLost
    } else {
        HelperDiagnosticKind::Other
    }
}

/// The diagnosis of an error while running a connection, from its message.
pub open spec fn runtime_error_kind(m: Seq<char>) -> HelperDiagnosticKind {
    if lower_contains(m, "no se pudo lanzar openvpn"@) && (lower_contains(m, "no such file"@)
        || lower_contains(m, "not found"@) || lower_contains(m, "falló spawn de openvpn"@)) {
        HelperDiagnosticKind::OpenVpnMissing
    } else {
        HelperDiagnosticKind::Other
    }
}

/// The word for a check status in the report details.
pub open spec fn status_word(s: HealthStatus) -> Seq<char> {
    match s {
        HealthStatus::Healthy => "ok"@,
        HealthStatus::Warn => "warn"@,
        HealthStatus::Error => "error"@,
    }
}

/// One check as the details of a report show it: key, status and its details
/// or, when they are missing or blank, its summary.
pub open spec fn item_text(it: HelperHealthItem) -> Seq<char> {
    it.key@ + "="@ + status_word(it.status) + " ("@ + match it.details {
        Some(d) => if !is_blank(d@) { d@ } else { it.summary@ },
        None => it.summary@,
    } + ")"@
}

/// The details of a report: its checks, separated by `; `.
pub open spec fn report_details(r: HelperHealthReport) -> Seq<char> {
    join(r.items@.map_values(|it: HelperHealthItem| item_text(it)), "; "@)
}

/// The first check with key `key`.
pub open spec fn first_item(items: Seq<HelperHealthItem>, key: Seq<char>) -> Option<HelperHealthItem> {
    let k = crate::config::first_index(items.map_values(|it: HelperHealthItem| it.key@), key);
    if k < items.len() { Some(items[k]) } else { None }
}

/// Some check has status `s`.
pub open spec fn any_status(items: Seq<HelperHealthItem>, s: HealthStatus) -> bool {
    exists|i: int| 0 <= i < items.len() && (#[trigger] items[i]).status == s
}

/// The diagnosis of a socket check that is not fine, from its summary.
pub open spec fn socket_summary_kind(summary: Seq<char>) -> HelperDiagnosticKind {
    if lower_contains(summary, "permiso"@) || lower_contains(summary, "grupo"@) {
        HelperDiagnosticKind::PermissionDenied
    } else if lower_contains(summary, "no existe"@) || lower_contains(summary, "ausente"@)
        || lower_contains(summary, "socket"@) {
        HelperDiagnosticKind::MissingSocket
    } else {
        HelperDiagnosticKind::Other
    }
}

/// The diagnosis drawn from the helper's environment report: a failed
/// OpenVPN check first, then a socket check that is not fine, then any error,
/// then any warning; otherwise the helper is available.
pub open spec fn health_view(r: HelperHealthReport) -> HelperStatusView {
    let details = Some(report_details(r));
    let items = r.items@;
    match (first_item(items, "openvpn"@), first_item(items, "socket"@)) {
        (Some(o), _) if o.status == HealthStatus::Error => HelperStatusView {
            kind: HelperDiagnosticKind::OpenVpnUnavailable, message: o.summary@, details },
        (_, Some(s)) if s.status == HealthStatus::Error || s.status == HealthStatus::Warn => HelperStatusView {
            kind: socket_summary_kind(s.summary@), message: s.summary@, details },
        _ => if any_status(items, HealthStatus::Error) {
            HelperStatusView { kind: HelperDiagnosticKind::Other, message: "El helper detectó errores en el entorno."@, details }
        } else if any_status(items, HealthStatus::Warn) {
            HelperStatusView { kind: HelperDiagnosticKind::Other, message: "El helper detectó avisos en el entorno."@, details }
        } else {
            HelperStatusView { kind: HelperDiagnosticKind::Connected,
                message: "Helper root disponible y entorno básico listo."@, details }
        },
    }
}

fn status_word_str(s: HealthStatus) -> (r: &'static str)
    ensures
        r@ == status_word(s),
{
    match s {
        HealthStatus::Healthy => "ok",
        HealthStatus::Warn => "warn",
        HealthStatus::Error => "error",
    }
}

fn item_string(it: &HelperHealthItem) -> (r: String)
    ensures
        r@ == item_text(*it),
{
    let mut r = cat3(it.key.as_str(), "=", status_word_str(it.status));
    r.append(" (");
    match &it.details {
        Some(d) => {
            if !str_is_blank(d.as_str()) {
                r.append(d.as_str());
            } else {
                r.append(it.summary.as_str());
            }
        },
        None => r.append(it.summary.as_str()),
    }
    r.append(")");
    r
}

/// The details of a report: its checks, separated by `; `.
pub fn format_health_report_details(report: &HelperHealthReport) -> (r: String)
    ensures
        r@ == report_details(*report),
{
    let mut parts: Vec<String> = Vec::new();
    let mut i: usize = 0;
    while i < report.items.len()
        invariant
            i <= report.items@.len(),
            views(parts@) == report.items@.take(i as int).map_values(|it: HelperHealthItem| item_text(it)),
        decreases report.items@.len() - i,
    {
        let ghost before = parts@;
        let piece = item_string(&report.items[i]);
        parts.push(piece);
        proof {
            let f = |it: HelperHealthItem| item_text(it);
            assert(views(parts@) =~= views(before).push(piece@));
            assert(report.items@.take(i + 1) =~= report.items@.take(i as int).push(report.items@[i as int]));
            assert(report.items@.take(i as int).push(report.items@[i as int]).map_values(f)
                =~= report.items@.take(i as int).map_values(f).push(f(report.items@[i as int])));
        }
        i = i + 1;
    }
    assert(report.items@.take(report.items@.len() as int) =~= report.items@);
    join_strings(&parts, "; ")
}

fn first_item_index(items: &Vec<HelperHealthItem>, key: &str) -> (r: usize)
    ensures
        r == crate::config::first_index(items@.map_values(|it: HelperHealthItem| it.key@), key@),
{
    let ghost keys = items@.map_values(|it: HelperHealthItem| it.key@);
    let mut i: usize = 0;
    while i < items.len()
        invariant
            i <= items@.len(),
            keys == items@.map_values(|it: HelperHealthItem| it.key@),
            forall|j: int| 0 <= j < i ==> keys[j] != key@,
        decreases items@.len() - i,
    {
        if str_eq(items[i].key.as_str(), key) {
            proof { crate::config::lemma_first_index_at(keys, key@, i as int); }
            return i;
        }
        i = i + 1;
    }
    proof { crate::config::lemma_first_index_at(keys, key@, i as int); }
    i
}

fn has_status(items: &Vec<HelperHealthItem>, s: HealthStatus) -> (r: bool)
    ensures
        r == any_status(items@, s),
{
    let mut i: usize = 0;
    while i < items.len()
        invariant
            i <= items@.len(),
            forall|j: int| 0 <= j < i ==> (#[trigger] items@[j]).status != s,
        decreases items@.len() - i,
    {
        if items[i].status == s {
            return true;
        }
        i = i + 1;
    }
    false
}

impl HelperStatus {
    /// The status before anything is known of the helper.
    pub fn unknown() -> (r: Self)
        ensures
            r.view() == unknown_view(),
    {
        HelperStatus {
            kind: HelperDiagnosticKind::Unknown,
            message: String::from_str("Comprobando disponibilidad del helper…"),
            details: None,
        }
    }

    /// The status of a helper that answers.
    pub fn connected() -> (r: Self)
        ensures
            r.view() == connected_view(),
    {
        HelperStatus { kind: HelperDiagnosticKind::Connected, message: String::from_str("Helper root disponible."), details: None }
    }

    /// The diagnosis of a failure to reach the helper.
    pub fn from_helper_error(message: String) -> (r: Self)
        ensures
            r.view() == (HelperStatusView { kind: helper_error_kind(message@), message: message@, details: None }),
    {
        let m = message.as_str();
        let kind = if contains_lowercased(m, "no se encontró el socket del helper")
            || contains_lowercased(m, "asegúrate de que el servicio root está instalado y activo") {
            HelperDiagnosticKind::MissingSocket
        } else if contains_lowercased(m, "no tienes permisos para usar el helper")
            || contains_lowercased(m, "revisa el grupo/permisos del socket") {
            HelperDiagnosticKind::PermissionDenied
        } else if contains_lowercased(m, "se perdió la conexión con el helper")
            || contains_lowercased(m, "se cerró la conexión con el helper") {
            HelperDiagnosticKind::ConnectionLost
        } else {
            HelperDiagnosticKind::Other
        };
        HelperStatus { kind, message, details: None }
    }

    /// The diagnosis of an error while running a connection.
    pub fn from_runtime_error(message: String) -> (r: Self)
        ensures
            r.view() == (HelperStatusView { kind: runtime_error_kind(message@), message: message@, details: None }),
    {
        let m = message.as_str();
        let kind = if contains_lowercased(m, "no se pudo lanzar openvpn") && (contains_lowercased(m, "no such file")
            || contains_lowercased(m, "not found") || contains_lowercased(m, "falló spawn de openvpn")) {
            HelperDiagnosticKind::OpenVpnMissing
        } else {
            HelperDiagnosticKind::Other
        };
        HelperStatus { kind, message, details: None }
    }

    /// The diagnosis drawn from the helper's environment report.
    pub fn from_health_report(report: &HelperHealthReport) -> (r: Self)
        ensures
            r.view() == health_view(*report),
    {
        let has_error = has_status(&report.items, HealthStatus::Error);
        let has_warn = has_status(&report.items, HealthStatus::Warn);
        let oi = first_item_index(&report.items, "openvpn");
        let si = first_item_index(&report.items, "socket");
        let details = Some(format_health_report_details(report));
        if oi < report.items.len() && report.items[oi].status == HealthStatus::Error {
            return HelperStatus {
                kind: HelperDiagnosticKind::OpenVpnUnavailable,
                message: report.items[oi].summary.clone(),
                details,
            };
        }
        if si < report.items.len() && (report.items[si].status == HealthStatus::Error
            || report.items[si].status == HealthStatus::Warn) {
            let summary = report.items[si].summary.as_str();
            let kind = if contains_lowercased(summary, "permiso") || contains_lowercased(summary, "grupo") {
                HelperDiagnosticKind::PermissionDenied
            } else if contains_lowercased(summary, "no existe") || contains_lowercased(summary, "ausente")
                || contains_lowercased(summary, "socket") {
                HelperDiagnosticKind::MissingSocket
            } else {
                HelperDiagnosticKind::Other
            };
            return HelperStatus { kind, message: report.items[si].summary.clone(), details };
        }
        if has_error {
            return HelperStatus {
                kind: HelperDiagnosticKind::Other,
                message: String::from_str("El helper detectó errores en el entorno."),
                details,
            };
        }
        if has_warn {
            return HelperStatus {
                kind: HelperDiagnosticKind::Other,
                message: String::from_str("El helper detectó avisos en el entorno."),
                details,
            };
        }
        HelperStatus {
            kind: HelperDiagnosticKind::Connected,
            message: String::from_str("Helper root disponible y entorno básico listo."),
            details,
        }
    }
}


/// Events the VPN worker sends to the interface.
#[derive(Debug, Clone)]
pub enum VpnEvent {
    Log(String),
    StatusChanged(VpnStatus),
    HelperStatusChanged(HelperStatus),
    HealthReportChanged(HelperHealthReport),
}

/// The helper's proxy method for a configured one.
pub open spec fn ipc_auth_method(m: ProxyAuthMethod) -> IpcProxyAuthMethod {
    match m {
        ProxyAuthMethod::NoAuth => IpcProxyAuthMethod::NoAuth,
        ProxyAuthMethod::Basic => IpcProxyAuthMethod::Basic,
        ProxyAuthMethod::Ntlm => IpcProxyAuthMethod::Ntlm,
    }
}

/// Executable form of [`ipc_auth_method`].
pub fn map_proxy_auth_method(method: &ProxyAuthMethod) -> (r: IpcProxyAuthMethod)
    ensures
        r == ipc_auth_method(*method),
{
    match method {
        ProxyAuthMethod::NoAuth => IpcProxyAuthMethod::NoAuth,
        ProxyAuthMethod::Basic => IpcProxyAuthMethod::Basic,
        ProxyAuthMethod::Ntlm => IpcProxyAuthMethod::Ntlm,
    }
}

/// The request sent to the helper for a profile and an optional proxy.
pub open spec fn request_for(p: VpnProfile, proxy: Option<ProxyConfig>) -> ConnectRequest {
    ConnectRequest {
        profile_name: p.name,
        config_path: p.config_file,
        username: p.username,
        password: p.password,
        proxy: match proxy {
            Some(x) => Some(ProxyRuntime {
                name: x.name,
                host: x.host,
                port: x.port,
                auth_method: ipc_auth_method(x.auth_method),
                username: x.username,
                password: x.password,
            }),
            None => None,
        },
        use_update_resolv_conf: p.use_update_resolv_conf,
    }
}

/// The first problem with a profile and an optional proxy, given whether the
/// profile's configuration file exists.
pub open spec fn connect_problem(p: VpnProfile, proxy: Option<ProxyConfig>, file_exists: bool) -> Option<Seq<char>> {
    match profile_problem(p, file_exists) {
        Some(e) => Some(e),
        None => match proxy {
            Some(x) => proxy_problem(x),
            None => None,
        },
    }
}

/// `r` is the request for the profile and proxy when they have no problem,
/// and the first problem otherwise.
pub open spec fn request_result(r: Result<ConnectRequest, String>, p: VpnProfile, proxy: Option<ProxyConfig>, file_exists: bool) -> bool {
    match r {
        Ok(req) => connect_problem(p, proxy, file_exists) is None && req == request_for(p, proxy),
        Err(e) => connect_problem(p, proxy, file_exists) == Some(e@),
    }
}

/// The request sent to the helper, given whether the profile's configuration
/// file exists: the profile is checked, then the proxy.
pub fn build_connect_request_with(profile: VpnProfile, proxy: Option<ProxyConfig>, file_exists: bool) -> (r: Result<ConnectRequest, String>)
    ensures
        request_result(r, profile, proxy, file_exists),
{
    if let Err(err) = profile.validate_with_file(file_exists) {
        return Err(err);
    }
    let proxy_runtime = match proxy {
        Some(proxy_cfg) => {
            if let Err(err) = proxy_cfg.validate() {
                return Err(err);
            }
            let auth_method = map_proxy_auth_method(&proxy_cfg.auth_method);
            Some(ProxyRuntime {
                name: proxy_cfg.name,
                host: proxy_cfg.host,
                port: proxy_cfg.port,
                auth_method,
                username: proxy_cfg.username,
                password: proxy_cfg.password,
            })
        },
        None => None,
    };
    Ok(ConnectRequest {
        profile_name: profile.name,
        config_path: profile.config_file,
        username: profile.username,
        password: profile.password,
        proxy: proxy_runtime,
        use_update_resolv_conf: profile.use_update_resolv_conf,
    })
}

/// The request sent to the helper for a profile and an optional proxy; whether
/// the profile's configuration file exists is asked of the file system.
pub fn build_connect_request(profile: VpnProfile, proxy: Option<ProxyConfig>) -> (r: Result<ConnectRequest, String>)
    ensures
        exists|found: bool| #[trigger] request_result(r, profile, proxy, found),
{
    if str_is_blank(profile.name.as_str()) || str_is_blank(profile.config_file.as_str()) {
        return build_connect_request_with(profile, proxy, true);
    }
    let found = path_exists(profile.config_file.as_str());
    build_connect_request_with(profile, proxy, found)
}

/// What the VPN worker does next.
#[derive(Debug, Clone)]
pub enum WorkerAction {
    /// Tell the interface.
    Emit(VpnEvent),
    /// Ask the helper connection.
    Send(GuiCommand),
}

/// `a` tells the interface the log line `text`.
pub open spec fn is_log_action(a: WorkerAction, text: Seq<char>) -> bool {
    a matches WorkerAction::Emit(VpnEvent::Log(l)) && l@ == text
}

/// `a` tells the interface that the VPN failed with `text`.
pub open spec fn is_failed_action(a: WorkerAction, text: Seq<char>) -> bool {
    a matches WorkerAction::Emit(VpnEvent::StatusChanged(VpnStatus::Failed(m))) && m@ == text
}

/// The helper status after announcing `target`: announced, and remembered, only
/// when it differs from the last one announced.
pub open spec fn status_step(old_last: HelperStatus, new_last: HelperStatus, target: HelperStatusView, emitted: Seq<WorkerAction>) -> bool {
    if old_last.view() == target {
        new_last == old_last && emitted.len() == 0
    } else {
        new_last.view() == target && emitted == seq![WorkerAction::Emit(VpnEvent::HelperStatusChanged(new_last))]
    }
}

/// How many actions announcing `target` takes after `last`.
pub open spec fn step_len(last: HelperStatus, target: HelperStatusView) -> int {
    if last.view() == target { 0 } else { 1 }
}

/// The actions for a connection request once it is built or refused.
pub open spec fn connect_actions(helper_available: bool, request: Result<ConnectRequest, String>, r: Seq<WorkerAction>) -> bool {
    match request {
        Ok(req) => {
            let k: int = if helper_available { 0 } else { 1 };
            &&& r.len() == k + 3
            &&& (!helper_available ==> (r[0] matches WorkerAction::Send(GuiCommand::RequestStatus)))
            &&& is_log_action(r[k], "Solicitando conexión al helper root..."@)
            &&& r[k + 1] matches WorkerAction::Emit(VpnEvent::StatusChanged(VpnStatus::Connecting))
            &&& r[k + 2] == WorkerAction::Send(GuiCommand::Connect(req))
        },
        Err(m) => {
            &&& r.len() == 2
            &&& is_log_action(r[0], m@)
            &&& is_failed_action(r[1], m@)
        },
    }
}

/// What the worker does with an event from the helper connection: the helper
/// is known to answer after a greeting or a pong and not after a failure to
/// reach it; the helper status is announced as [`status_step`] says; logs,
/// failures, status changes and reports are passed on.
pub open spec fn event_effect(old: VpnWorker, new: VpnWorker, event: GuiEvent, r: Seq<WorkerAction>) -> bool {
    match event {
        GuiEvent::ConnectedToHelper => {
            let k = step_len(old.last_helper_status, connected_view());
            &&& new.helper_available
            &&& r.len() == k + 2
            &&& status_step(old.last_helper_status, new.last_helper_status, connected_view(),
                r.subrange(0, k))
            &&& is_log_action(r[k], "Conectado con el helper root de VPN."@)
            &&& r[k + 1] matches WorkerAction::Send(GuiCommand::RequestHealth)
        },
        GuiEvent::HelperUnavailable(m) => {
            let target = HelperStatusView { kind: helper_error_kind(m@), message: m@, details: None };
            let k = step_len(old.last_helper_status, target);
            &&& !new.helper_available
            &&& r.len() == k + 2
            &&& status_step(old.last_helper_status, new.last_helper_status, target,
                r.subrange(0, k))
            &&& is_log_action(r[k], m@)
            &&& is_failed_action(r[k + 1], m@)
        },
        GuiEvent::Snapshot(s) => {
            &&& new == old
            &&& match s.active_profile_name {
                Some(p) => r.len() == 1 && is_log_action(r[0],
                    "Estado actualizado para el perfil '"@ + p@ + "'."@),
                None => r.len() == 0,
            }
        },
        GuiEvent::Health(report) => {
            let k = step_len(old.last_helper_status, health_view(report));
            &&& new.helper_available == old.helper_available
            &&& r.len() == k + 1
            &&& status_step(old.last_helper_status, new.last_helper_status, health_view(report),
                r.subrange(0, k))
            &&& r[k] == WorkerAction::Emit(VpnEvent::HealthReportChanged(report))
        },
        GuiEvent::StatusChanged(st) => {
            &&& new == old
            &&& r == seq![WorkerAction::Emit(VpnEvent::StatusChanged(st))]
        },
        GuiEvent::Log(line) => {
            let target = HelperStatusView { kind: runtime_error_kind(line@), message: line@, details: None };
            let k = if lower_contains(line@, "no se pudo lanzar openvpn"@) {
                step_len(old.last_helper_status, target)
            } else {
                0
            };
            &&& new.helper_available == old.helper_available
            &&& r.len() == k + 1
            &&& if lower_contains(line@, "no se pudo lanzar openvpn"@) {
                status_step(old.last_helper_status, new.last_helper_status, target,
                    r.subrange(0, k))
            } else {
                new.last_helper_status == old.last_helper_status
            }
            &&& is_log_action(r[k], line@)
        },
        GuiEvent::Error(m) => {
            let target = HelperStatusView { kind: runtime_error_kind(m@), message: m@, details: None };
            let k = step_len(old.last_helper_status, target);
            &&& new.helper_available == old.helper_available
            &&& r.len() == k + 2
            &&& status_step(old.last_helper_status, new.last_helper_status, target,
                r.subrange(0, k))
            &&& is_log_action(r[k], m@)
            &&& is_failed_action(r[k + 1], m@)
        },
        GuiEvent::Pong => {
            let k = step_len(old.last_helper_status, connected_view());
            &&& new.helper_available
            &&& r.len() == k
            &&& status_step(old.last_helper_status, new.last_helper_status, connected_view(), r)
        },
        GuiEvent::Ack(m) => {
            &&& new == old
            &&& r.len() == 1
            &&& is_log_action(r[0], m@)
        },
    }
}

/// The VPN worker's memory: whether the helper answered last, and the helper
/// status last announced.
#[derive(Debug, Clone)]
pub struct VpnWorker {
    pub helper_available: bool,
    pub last_helper_status: HelperStatus,
}

impl VpnWorker {
    /// A worker that knows nothing of the helper yet, and its first action: a
    /// status request.
    pub fn new() -> (r: (Self, Vec<WorkerAction>))
        ensures
            !r.0.helper_available,
            r.0.last_helper_status.view() == unknown_view(),
            r.1@.len() == 1,
            r.1@[0] matches WorkerAction::Send(GuiCommand::RequestStatus),
    {
        let mut worker = VpnWorker { helper_available: false, last_helper_status: HelperStatus::unknown() };
        let mut actions: Vec<WorkerAction> = Vec::new();
        worker.announce(&mut actions, HelperStatus::unknown());
        actions.push(WorkerAction::Send(GuiCommand::RequestStatus));
        (worker, actions)
    }

    fn announce(&mut self, actions: &mut Vec<WorkerAction>, status: HelperStatus)
        ensures
            final(self).helper_available == old(self).helper_available,
            final(actions)@.subrange(0, old(actions)@.len() as int) == old(actions)@,
            final(actions)@.len() == old(actions)@.len() + step_len(old(self).last_helper_status, status.view()),
            status_step(old(self).last_helper_status, final(self).last_helper_status, status.view(),
                final(actions)@.subrange(old(actions)@.len() as int, final(actions)@.len() as int)),
    {
        let ghost start = actions@;
        if !self.last_helper_status.same_as(&status) {
            self.last_helper_status = status.duplicate();
            actions.push(WorkerAction::Emit(VpnEvent::HelperStatusChanged(status)));
            assert(actions@.subrange(start.len() as int, actions@.len() as int) =~= seq![actions@.last()]);
        } else {
            assert(actions@.subrange(start.len() as int, actions@.len() as int) =~= Seq::<WorkerAction>::empty());
        }
        assert(actions@.subrange(0, start.len() as int) =~= start);
    }

    /// The periodic check: ping the helper, ask for its report, and ask for its
    /// status while it is not known to answer.
    pub fn on_tick(&self) -> (r: Vec<WorkerAction>)
        ensures
            r@.len() == if self.helper_available { 2int } else { 3int },
            r@[0] matches WorkerAction::Send(GuiCommand::Ping),
            r@[1] matches WorkerAction::Send(GuiCommand::RequestHealth),
            !self.helper_available ==> (r@[2] matches WorkerAction::Send(GuiCommand::RequestStatus)),
    {
        let mut r: Vec<WorkerAction> = Vec::new();
        r.push(WorkerAction::Send(GuiCommand::Ping));
        r.push(WorkerAction::Send(GuiCommand::RequestHealth));
        if !self.helper_available {
            r.push(WorkerAction::Send(GuiCommand::RequestStatus));
        }
        r
    }

    /// A request to disconnect: logged, then passed to the helper.
    pub fn on_disconnect(&self) -> (r: Vec<WorkerAction>)
        ensures
            r@.len() == 2,
            is_log_action(r@[0], "Solicitando desconexión al helper root..."@),
            r@[1] matches WorkerAction::Send(GuiCommand::Disconnect),
    {
        let mut r: Vec<WorkerAction> = Vec::new();
        r.push(WorkerAction::Emit(VpnEvent::Log(String::from_str("Solicitando desconexión al helper root..."))));
        r.push(WorkerAction::Send(GuiCommand::Disconnect));
        r
    }

    /// A request to connect, once the request is built or refused. A built
    /// request is announced as connecting and passed to the helper, after a
    /// status request when the helper is not known to answer; a refusal is
    /// logged and shown as a failure.
    pub fn on_connect_request(&self, request: Result<ConnectRequest, String>) -> (r: Vec<WorkerAction>)
        ensures
            connect_actions(self.helper_available, request, r@),
    {
        let mut r: Vec<WorkerAction> = Vec::new();
        match request {
            Ok(req) => {
                if !self.helper_available {
                    r.push(WorkerAction::Send(GuiCommand::RequestStatus));
                }
                r.push(WorkerAction::Emit(VpnEvent::Log(String::from_str("Solicitando conexión al helper root..."))));
                r.push(WorkerAction::Emit(VpnEvent::StatusChanged(VpnStatus::Connecting)));
                r.push(WorkerAction::Send(GuiCommand::Connect(req)));
            },
            Err(m) => {
                r.push(WorkerAction::Emit(VpnEvent::Log(m.clone())));
                r.push(WorkerAction::Emit(VpnEvent::StatusChanged(VpnStatus::Failed(m))));
            },
        }
        r
    }

    /// A request to connect with a profile and an optional proxy: the request
    /// is built, asking the file system whether the profile's file exists.
    pub fn on_connect(&self, profile: VpnProfile, proxy: Option<ProxyConfig>) -> (r: Vec<WorkerAction>)
        ensures
            exists|req: Result<ConnectRequest, String>, found: bool| #[trigger] request_result(req, profile, proxy, found)
                && connect_actions(self.helper_available, req, r@),
    {
        let req = build_connect_request(profile, proxy);
        self.on_connect_request(req)
    }

    /// An event from the helper connection.
    pub fn on_gui_event(&mut self, event: GuiEvent) -> (r: Vec<WorkerAction>)
        ensures
            event_effect(*old(self), *final(self), event, r@),
    {
        match event {
            GuiEvent::ConnectedToHelper => self.on_connected_to_helper(),
            GuiEvent::HelperUnavailable(message) => self.on_helper_unavailable(message),
            GuiEvent::Snapshot(snapshot) => {
                let ghost e = GuiEvent::Snapshot(snapshot);
                let mut r: Vec<WorkerAction> = Vec::new();
                if let Some(profile_name) = snapshot.active_profile_name {
                    r.push(WorkerAction::Emit(VpnEvent::Log(cat3("Estado actualizado para el perfil '",
                        profile_name.as_str(), "'."))));
                }
                r
            },
            GuiEvent::Health(report) => {
                let mut r: Vec<WorkerAction> = Vec::new();
                self.announce(&mut r, HelperStatus::from_health_report(&report));
                let ghost a = r@;
                r.push(WorkerAction::Emit(VpnEvent::HealthReportChanged(report)));
                assert(r@.subrange(0, a.len() as int) =~= a.subrange(0, a.len() as int));
                r
            },
            GuiEvent::StatusChanged(status) => {
                let ghost st = status;
                let mut r: Vec<WorkerAction> = Vec::new();
                r.push(WorkerAction::Emit(VpnEvent::StatusChanged(status)));
                assert(r@ =~= seq![WorkerAction::Emit(VpnEvent::StatusChanged(st))]);
                r
            },
            GuiEvent::Log(line) => {
                let mut r: Vec<WorkerAction> = Vec::new();
                if contains_lowercased(line.as_str(), "no se pudo lanzar openvpn") {
                    self.announce(&mut r, HelperStatus::from_runtime_error(line.clone()));
                }
                let ghost a = r@;
                r.push(WorkerAction::Emit(VpnEvent::Log(line)));
                assert(r@.subrange(0, a.len() as int) =~= a.subrange(0, a.len() as int));
                r
            },
            GuiEvent::Error(message) => self.on_runtime_error(message),
            GuiEvent::Pong => {
                let mut r: Vec<WorkerAction> = Vec::new();
                self.helper_available = true;
                self.announce(&mut r, HelperStatus::connected());
                assert(r@.subrange(0, r@.len() as int) =~= r@);
                r
            },
            GuiEvent::Ack(message) => {
                let mut r: Vec<WorkerAction> = Vec::new();
                r.push(WorkerAction::Emit(VpnEvent::Log(message)));
                r
            },
        }
    }

    fn on_connected_to_helper(&mut self) -> (r: Vec<WorkerAction>)
        ensures
            event_effect(*old(self), *final(self), GuiEvent::ConnectedToHelper, r@),
    {
        let mut r: Vec<WorkerAction> = Vec::new();
        self.helper_available = true;
        self.announce(&mut r, HelperStatus::connected());
        let ghost a = r@;
        r.push(WorkerAction::Emit(VpnEvent::Log(String::from_str("Conectado con el helper root de VPN."))));
        r.push(WorkerAction::Send(GuiCommand::RequestHealth));
        assert(r@.subrange(0, a.len() as int) =~= a.subrange(0, a.len() as int));
        r
    }

    fn on_helper_unavailable(&mut self, message: String) -> (r: Vec<WorkerAction>)
        ensures
            event_effect(*old(self), *final(self), GuiEvent::HelperUnavailable(message), r@),
    {
        let mut r: Vec<WorkerAction> = Vec::new();
        self.helper_available = false;
        self.announce(&mut r, HelperStatus::from_helper_error(message.clone()));
        let ghost a = r@;
        r.push(WorkerAction::Emit(VpnEvent::Log(message.clone())));
        r.push(WorkerAction::Emit(VpnEvent::StatusChanged(VpnStatus::Failed(message))));
        assert(r@.subrange(0, a.len() as int) =~= a.subrange(0, a.len() as int));
        r
    }

    fn on_runtime_error(&mut self, message: String) -> (r: Vec<WorkerAction>)
        ensures
            event_effect(*old(self), *final(self), GuiEvent::Error(message), r@),
    {
        let mut r: Vec<WorkerAction> = Vec::new();
        self.announce(&mut r, HelperStatus::from_runtime_error(message.clone()));
        let ghost a = r@;
        r.push(WorkerAction::Emit(VpnEvent::Log(message.clone())));
        r.push(WorkerAction::Emit(VpnEvent::StatusChanged(VpnStatus::Failed(message))));
        assert(r@.subrange(0, a.len() as int) =~= a.subrange(0, a.len() as int));
        r
    }
}


/// The message for a missing helper socket is diagnosed as a missing socket,
/// whatever the system said about the failure.
pub proof fn law_missing_socket_message_is_diagnosed(detail: Seq<char>)
    ensures
        helper_error_kind(connect_error_text(ConnectFailure::NotFound, detail)) == HelperDiagnosticKind::MissingSocket,
{
    let m = connect_error_text(ConnectFailure::NotFound, detail);
    reveal_strlit("No se encontró el socket del helper en '");
    reveal_strlit("no se encontró el socket del helper");
    let p = "No se encontró el socket del helper en '"@;
    let n = "no se encontró el socket del helper"@;
    assert forall|j: int| 0 <= j < n.len() implies lower_code(#[trigger] m[0 + j]) == n[j] as u32 by {
        assert(m[j] == p[j]);
    }
    assert(lower_matches_at(m, n, 0));
}

/// The message for a refused helper socket is diagnosed as a permission
/// problem, whatever the system said about the failure.
pub proof fn law_refused_socket_message_is_diagnosed(detail: Seq<char>)
    ensures
        helper_error_kind(connect_error_text(ConnectFailure::PermissionDenied, detail))
            == HelperDiagnosticKind::PermissionDenied,
{
    let m = connect_error_text(ConnectFailure::PermissionDenied, detail);
    reveal_strlit("No tienes permisos para usar el helper en '");
    reveal_strlit("'. Revisa el grupo/permisos del socket.");
    reveal_strlit("/run/vpn-desktopd.sock");
    reveal_strlit("no se encontró el socket del helper");
    reveal_strlit("asegúrate de que el servicio root está instalado y activo");
    reveal_strlit("no tienes permisos para usar el helper");
    let n1 = "no se encontró el socket del helper"@;
    let n2 = "asegúrate de que el servicio root está instalado y activo"@;
    let n3 = "no tienes permisos para usar el helper"@;
    assert(DEFAULT_SOCKET_PATH@ == "/run/vpn-desktopd.sock"@);
    assert forall|k: int| 0 <= k < m.len() implies m[k] != 'ó' && m[k] != 'ú' by {}
    assert forall|i: int| !lower_matches_at(m, n1, i) by {
        if lower_matches_at(m, n1, i) {
            assert(lower_code(m[i + 13]) == n1[13] as u32);
        }
    }
    assert forall|i: int| !lower_matches_at(m, n2, i) by {
        if lower_matches_at(m, n2, i) {
            assert(lower_code(m[i + 4]) == n2[4] as u32);
        }
    }
    let p = "No tienes permisos para usar el helper en '"@;
    assert forall|j: int| 0 <= j < n3.len() implies lower_code(#[trigger] m[0 + j]) == n3[j] as u32 by {
        assert(m[j] == p[j]);
    }
    assert(lower_matches_at(m, n3, 0));
}

/// No character of `p` lowercases to `a` while the next one in `p` lowercases
/// to `b`, and the last one does not lowercase to `a`.
spec fn pair_absent(p: Seq<char>, a: char, b: char) -> bool {
    forall|i: int| 0 <= i < p.len() ==> lower_code(#[trigger] p[i]) != a as u32
        || (i + 1 < p.len() && lower_code(p[i + 1]) != b as u32)
}

/// A needle whose first two characters never start in `p` occurs in `p + d`
/// only where it occurs in `d`.
proof fn lemma_absent_after_prefix(p: Seq<char>, d: Seq<char>, n: Seq<char>)
    requires
        n.len() >= 2,
        pair_absent(p, n[0], n[1]),
        !lower_contains(d, n),
    ensures
        !lower_contains(p + d, n),
{
    let m = p + d;
    assert forall|i: int| !lower_matches_at(m, n, i) by {
        if lower_matches_at(m, n, i) {
            if i < p.len() {
                assert(lower_code(m[i + 0]) == n[0] as u32);
                assert(m[i] == p[i]);
                if i + 1 < p.len() {
                    assert(lower_code(m[i + 1]) == n[1] as u32);
                    assert(m[i + 1] == p[i + 1]);
                }
            } else {
                let k = i - p.len();
                assert forall|j: int| 0 <= j < n.len() implies lower_code(#[trigger] d[k + j]) == n[j] as u32 by {
                    assert(lower_code(m[i + j]) == n[j] as u32);
                    assert(m[i + j] == d[k + j]);
                }
                assert(lower_matches_at(d, n, k));
            }
        }
    }
}

/// The messages for a connection to the helper that broke are diagnosed as a
/// lost connection, unless what the system said about the failure names
/// itself one of the other diagnoses.
pub proof fn law_lost_connection_messages_are_diagnosed(detail: Seq<char>)
    requires
        !lower_contains(detail, "no se encontró el socket del helper"@),
        !lower_contains(detail, "asegúrate de que el servicio root está instalado y activo"@),
        !lower_contains(detail, "no tienes permisos para usar el helper"@),
        !lower_contains(detail, "revisa el grupo/permisos del socket"@),
    ensures
        helper_error_kind("Se perdió la conexión con el helper: "@ + detail) == HelperDiagnosticKind::ConnectionLost,
        helper_error_kind("Se cerró la conexión con el helper: "@ + detail) == HelperDiagnosticKind::ConnectionLost,
{
    reveal_strlit("no se encontró el socket del helper");
    reveal_strlit("asegúrate de que el servicio root está instalado y activo");
    reveal_strlit("no tienes permisos para usar el helper");
    reveal_strlit("revisa el grupo/permisos del socket");
    reveal_strlit("se perdió la conexión con el helper");
    reveal_strlit("se cerró la conexión con el helper");
    reveal_strlit("Se perdió la conexión con el helper: ");
    reveal_strlit("Se cerró la conexión con el helper: ");
    let n1 = "no se encontró el socket del helper"@;
    let n2 = "asegúrate de que el servicio root está instalado y activo"@;
    let n3 = "no tienes permisos para usar el helper"@;
    let n4 = "revisa el grupo/permisos del socket"@;
    let lost = "Se perdió la conexión con el helper: "@;
    let closed = "Se cerró la conexión con el helper: "@;
    assert(pair_absent(lost, 'n', 'o'));
    assert(pair_absent(lost, 'a', 's'));
    assert(pair_absent(lost, 'r', 'e'));
    assert(pair_absent(closed, 'n', 'o'));
    assert(pair_absent(closed, 'a', 's'));
    assert(pair_absent(closed, 'r', 'e'));
    lemma_absent_after_prefix(lost, detail, n1);
    lemma_absent_after_prefix(lost, detail, n2);
    lemma_absent_after_prefix(lost, detail, n3);
    lemma_absent_after_prefix(lost, detail, n4);
    lemma_absent_after_prefix(closed, detail, n1);
    lemma_absent_after_prefix(closed, detail, n2);
    lemma_absent_after_prefix(closed, detail, n3);
    lemma_absent_after_prefix(closed, detail, n4);
    let lost_needle = "se perdió la conexión con el helper"@;
    let closed_needle = "se cerró la conexión con el helper"@;
    let ml = lost + detail;
    let mc = closed + detail;
    assert forall|j: int| 0 <= j < lost_needle.len() implies lower_code(#[trigger] ml[0 + j]) == lost_needle[j] as u32 by {
        assert(ml[j] == lost[j]);
    }
    assert(lower_matches_at(ml, lost_needle, 0));
    assert forall|j: int| 0 <= j < closed_needle.len() implies lower_code(#[trigger] mc[0 + j]) == closed_needle[j] as u32 by {
        assert(mc[j] == closed[j]);
    }
    assert(lower_matches_at(mc, closed_needle, 0));
}

/// A connection that the helper could not start because spawning OpenVPN
/// failed is diagnosed as OpenVPN missing, whatever the system said.
pub proof fn law_spawn_failure_is_diagnosed(detail: Seq<char>)
    ensures
        runtime_error_kind("No se pudo lanzar OpenVPN: "@ + ("falló spawn de openvpn: "@ + detail))
            == HelperDiagnosticKind::OpenVpnMissing,
{
    reveal_strlit("No se pudo lanzar OpenVPN: ");
    reveal_strlit("falló spawn de openvpn: ");
    reveal_strlit("no se pudo lanzar openvpn");
    reveal_strlit("falló spawn de openvpn");
    let a = "No se pudo lanzar OpenVPN: "@;
    let b = "falló spawn de openvpn: "@;
    let n1 = "no se pudo lanzar openvpn"@;
    let n2 = "falló spawn de openvpn"@;
    let m = a + (b + detail);
    assert forall|j: int| 0 <= j < n1.len() implies lower_code(#[trigger] m[0 + j]) == n1[j] as u32 by {
        assert(m[j] == a[j]);
    }
    assert(lower_matches_at(m, n1, 0));
    assert forall|j: int| 0 <= j < n2.len() implies lower_code(#[trigger] m[a.len() + j]) == n2[j] as u32 by {
        assert(m[a.len() + j] == b[j]);
    }
    assert(lower_matches_at(m, n2, a.len() as int));
}

/// Law: a request built for a profile and a proxy carries each of their
/// fields where it belongs: the profile's name, file, user, password and
/// resolver choice for the VPN, and the proxy's own name, host, port, user,
/// password and authentication method for the proxy; without a proxy the
/// request has none. A request is built exactly when neither has a problem.
pub proof fn law_request_carries_each_field(
    r: Result<ConnectRequest, String>,
    p: VpnProfile,
    proxy: Option<ProxyConfig>,
    file_exists: bool,
)
    requires
        request_result(r, p, proxy, file_exists),
    ensures
        r is Ok <==> (profile_problem(p, file_exists) is None && match proxy {
            Some(x) => proxy_problem(x) is None,
            None => true,
        }),
        r matches Ok(req) ==> {
            &&& req.profile_name == p.name
            &&& req.config_path == p.config_file
            &&& req.username == p.username
            &&& req.password == p.password
            &&& req.use_update_resolv_conf == p.use_update_resolv_conf
            &&& match proxy {
                None => req.proxy is None,
                Some(x) => req.proxy matches Some(pr) && {
                    &&& pr.name == x.name
                    &&& pr.host == x.host
                    &&& pr.port == x.port
                    &&& pr.username == x.username
                    &&& pr.password == x.password
                    &&& (x.auth_method == ProxyAuthMethod::NoAuth <==> pr.auth_method == IpcProxyAuthMethod::NoAuth)
                    &&& (x.auth_method == ProxyAuthMethod::Basic <==> pr.auth_method == IpcProxyAuthMethod::Basic)
                    &&& (x.auth_method == ProxyAuthMethod::Ntlm <==> pr.auth_method == IpcProxyAuthMethod::Ntlm)
                },
            }
        },
{
}

/// Law: the window reports OpenVPN as unavailable exactly when the first
/// OpenVPN check of the helper's report failed with an error; a warning from
/// that check is no such diagnosis.
pub proof fn law_openvpn_unavailable_only_on_error(r: HelperHealthReport)
    ensures
        health_view(r).kind == HelperDiagnosticKind::OpenVpnUnavailable <==> exists|k: int| {
            &&& 0 <= k < r.items@.len()
            &&& #[trigger] r.items@[k].key@ == "openvpn"@
            &&& r.items@[k].status == HealthStatus::Error
            &&& forall|j: int| 0 <= j < k ==> r.items@[j].key@ != "openvpn"@
        },
{
    let items = r.items@;
    let keys = items.map_values(|it: HelperHealthItem| it.key@);
    crate::config::lemma_first_index(keys, "openvpn"@);
    let k = crate::config::first_index(keys, "openvpn"@);
    if exists|k2: int| {
        &&& 0 <= k2 < items.len()
        &&& #[trigger] items[k2].key@ == "openvpn"@
        &&& items[k2].status == HealthStatus::Error
        &&& forall|j: int| 0 <= j < k2 ==> items[j].key@ != "openvpn"@
    } {
        let k2 = choose|k2: int| {
            &&& 0 <= k2 < items.len()
            &&& #[trigger] items[k2].key@ == "openvpn"@
            &&& items[k2].status == HealthStatus::Error
            &&& forall|j: int| 0 <= j < k2 ==> items[j].key@ != "openvpn"@
        };
        assert(keys[k2] == items[k2].key@);
        if k < k2 {
            assert(keys[k] == items[k].key@);
        }
        if k > k2 {
            assert(keys[k2] == "openvpn"@);
        }
        assert(k == k2);
    }
    if health_view(r).kind == HelperDiagnosticKind::OpenVpnUnavailable {
        assert(k < items.len());
        assert(keys[k] == items[k].key@);
        assert forall|j: int| 0 <= j < k implies items[j].key@ != "openvpn"@ by {
            assert(keys[j] == items[j].key@);
        }
    }
}

} // verus!
