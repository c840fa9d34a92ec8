//! The helper's report on its environment: the socket, OpenVPN, the resolver
//! script and the systemd units. The checks themselves are taken outside; this
//! module turns what they observed into the report sent to clients.
use vstd::prelude::*;
use crate::ipc::{HealthStatus, HelperHealthItem, HelperHealthReport, DEFAULT_SOCKET_PATH};
use crate::text::{
    cat, debug_opt_bool, debug_opt_bool_string, decimal, decimal_string, first_line, first_line_of, octal,
    octal_string, opt_view, zero_pad, zero_padded,
};

verus! {

/// Where the resolver update script is looked for.
pub const UPDATE_RESOLV_CONF_PATH: &'static str = "/etc/openvpn/update-resolv-conf";

/// Ownership and permission bits of the socket file.
#[derive(Debug, Clone, Copy, PartialEq, Eq)]
pub struct SocketMetadata {
    pub mode: u32,
    pub uid: u32,
    pub gid: u32,
}

/// What running `openvpn --version` gave.
#[derive(Debug, Clone, PartialEq, Eq)]
pub enum OpenVpnCheck {
    /// It ran and succeeded; its standard output.
    Succeeded { stdout: String },
    /// It ran and failed; its exit status as displayed.
    Unsuccessful { status_text: String },
    /// It could not be run; the reason.
    Unavailable { error_text: String },
}

/// Everything the environment checks observed.
#[derive(Debug, Clone, PartialEq, Eq)]
pub struct HealthObservations {
    pub socket_exists: bool,
    pub socket_is_unix: bool,
    pub socket_metadata: Option<SocketMetadata>,
    pub socket_accessible: bool,
    pub openvpn: OpenVpnCheck,
    pub update_resolv_conf_exists: bool,
    pub socket_unit_active: Option<bool>,
    pub socket_unit_enabled: Option<bool>,
    pub service_unit_active: Option<bool>,
    pub service_unit_enabled: Option<bool>,
    pub helper_binary_path: Option<String>,
    pub generated_at_unix_ms: u64,
}

/// `item` has this key, status, summary and details.
pub open spec fn item_is(
    item: HelperHealthItem,
    key: Seq<char>,
    status: HealthStatus,
    summary: Seq<char>,
    details: Option<Seq<char>>,
) -> bool {
    &&& item.key@ == key
    &&& item.status == status
    &&& item.summary@ == summary
    &&& opt_view(item.details) == details
}

/// The permission bits of a mode, as four octal digits.
pub open spec fn mode_text(mode: u32) -> Seq<char> {
    zero_pad(octal((mode & 0o7777u32) as nat), 4)
}

/// The socket check.
pub open spec fn socket_status(o: HealthObservations) -> HealthStatus {
    if o.socket_exists && o.socket_is_unix { HealthStatus::Healthy } else { HealthStatus::Error }
}

/// The summary of the socket check.
pub open spec fn socket_summary(o: HealthObservations) -> Seq<char> {
    if o.socket_exists && o.socket_is_unix {
        "El socket del helper existe y tiene formato Unix."@
    } else if o.socket_exists {
        "La ruta del helper existe, pero no es un socket Unix."@
    } else {
        "No existe el socket esperado del helper."@
    }
}

/// The details of the socket check.
pub open spec fn socket_details(o: HealthObservations) -> Seq<char> {
    match o.socket_metadata {
        Some(m) => "ruta="@ + DEFAULT_SOCKET_PATH@ + "; modo="@ + mode_text(m.mode) + "; uid="@ + decimal(m.uid as nat)
            + "; gid="@ + decimal(m.gid as nat),
        None => "ruta="@ + DEFAULT_SOCKET_PATH@ + "; sin metadatos disponibles"@,
    }
}

/// The socket access check.
pub open spec fn access_status(o: HealthObservations) -> HealthStatus {
    if o.socket_accessible {
        HealthStatus::Healthy
    } else if o.socket_exists {
        HealthStatus::Warn
    } else {
        HealthStatus::Error
    }
}

/// The summary of the socket access check.
pub open spec fn access_summary(o: HealthObservations) -> Seq<char> {
    if o.socket_accessible {
        "El helper puede aceptar conexiones en el socket IPC."@
    } else if o.socket_exists {
        "El socket existe, pero esta comprobación no pudo abrir una conexión local."@
    } else {
        "No se puede abrir el socket porque no está presente."@
    }
}

/// The OpenVPN check: status, summary and details.
pub open spec fn openvpn_item(o: HealthObservations) -> (HealthStatus, Seq<char>, Seq<char>) {
    match o.openvpn {
        OpenVpnCheck::Succeeded { stdout } => (
            HealthStatus::Healthy,
            "OpenVPN está instalado y responde correctamente."@,
            match first_line(stdout@) {
                Some(l) => l,
                None => "Versión de OpenVPN detectada"@,
            },
        ),
        OpenVpnCheck::Unsuccessful { status_text } => (
            HealthStatus::Warn,
            "OpenVPN existe, pero devolvió un estado no exitoso."@,
            "exit_status="@ + status_text@,
        ),
        OpenVpnCheck::Unavailable { error_text } => (
            HealthStatus::Error,
            "OpenVPN no está disponible o no puede ejecutarse."@,
            error_text@,
        ),
    }
}

/// The details of the systemd check.
pub open spec fn systemd_details(o: HealthObservations) -> Seq<char> {
    "socket_active="@ + debug_opt_bool(o.socket_unit_active) + "; socket_enabled="@
        + debug_opt_bool(o.socket_unit_enabled) + "; service_active="@ + debug_opt_bool(o.service_unit_active)
        + "; service_enabled="@ + debug_opt_bool(o.service_unit_enabled)
}

/// The systemd check: fine when the socket unit is active or enabled.
pub open spec fn systemd_status(o: HealthObservations) -> HealthStatus {
    if o.socket_unit_active == Some(true) || o.socket_unit_enabled == Some(true) {
        HealthStatus::Healthy
    } else {
        HealthStatus::Warn
    }
}

/// The report is the six checks, in order, built from the observations.
pub open spec fn report_matches(r: HelperHealthReport, o: HealthObservations) -> bool {
    &&& r.generated_at_unix_ms == o.generated_at_unix_ms
    &&& r.items@.len() == 6
    &&& item_is(r.items@[0], "socket"@, socket_status(o), socket_summary(o), Some(socket_details(o)))
    &&& item_is(r.items@[1], "socket_access"@, access_status(o), access_summary(o),
        Some("ruta="@ + DEFAULT_SOCKET_PATH@))
    &&& item_is(r.items@[2], "openvpn"@, openvpn_item(o).0, openvpn_item(o).1, Some(openvpn_item(o).2))
    &&& item_is(r.items@[3], "update_resolv_conf"@,
        if o.update_resolv_conf_exists { HealthStatus::Healthy } else { HealthStatus::Warn },
        if o.update_resolv_conf_exists {
            "Se encontró el script update-resolv-conf."@
        } else {
            "No se encontró update-resolv-conf; algunos perfiles pueden no actualizar DNS."@
        },
        Some(UPDATE_RESOLV_CONF_PATH@))
    &&& item_is(r.items@[4], "systemd"@, systemd_status(o),
        "Estado observado de las units de systemd del helper."@, Some(systemd_details(o)))
    &&& item_is(r.items@[5], "helper_binary"@, HealthStatus::Healthy, "Ruta del binario actual del helper."@,
        Some(match o.helper_binary_path {
            Some(p) => p@,
            None => "desconocida"@,
        }))
}

fn mode_string(mode: u32) -> (r: String)
    ensures
        r@ == mode_text(mode),
{
    let bits = mode & 0o7777u32;
    zero_padded(octal_string(bits as u64), 4)
}

fn socket_details_string(o: &HealthObservations) -> (r: String)
    ensures
        r@ == socket_details(*o),
{
    match o.socket_metadata {
        Some(m) => {
            let mut r = cat("ruta=", DEFAULT_SOCKET_PATH);
            r.append("; modo=");
            r.append(mode_string(m.mode).as_str());
            r.append("; uid=");
            r.append(decimal_string(m.uid as u64).as_str());
            r.append("; gid=");
            r.append(decimal_string(m.gid as u64).as_str());
            r
        },
        None => cat(cat("ruta=", DEFAULT_SOCKET_PATH).as_str(), "; sin metadatos disponibles"),
    }
}

fn systemd_details_string(o: &HealthObservations) -> (r: String)
    ensures
        r@ == systemd_details(*o),
{
    let mut r = cat("socket_active=", debug_opt_bool_string(o.socket_unit_active).as_str());
    r.append("; socket_enabled=");
    r.append(debug_opt_bool_string(o.socket_unit_enabled).as_str());
    r.append("; service_active=");
    r.append(debug_opt_bool_string(o.service_unit_active).as_str());
    r.append("; service_enabled=");
    r.append(debug_opt_bool_string(o.service_unit_enabled).as_str());
    r
}

fn item(key: &str, status: HealthStatus, summary: &str, details: String) -> (r: HelperHealthItem)
    ensures
        item_is(r, key@, status, summary@, Some(details@)),
{
    HelperHealthItem { key: String::from_str(key), status, summary: String::from_str(summary), details: Some(details) }
}

/// The report built from what the environment checks observed.
pub fn health_report(o: &HealthObservations) -> (r: HelperHealthReport)
    ensures
        report_matches(r, *o),
{
    let socket_status = if o.socket_exists && o.socket_is_unix { HealthStatus::Healthy } else { HealthStatus::Error };
    let socket_summary = if o.socket_exists && o.socket_is_unix {
        "El socket del helper existe y tiene formato Unix."
    } else if o.socket_exists {
        "La ruta del helper existe, pero no es un socket Unix."
    } else {
        "No existe el socket esperado del helper."
    };
    let access_status = if o.socket_accessible {
        HealthStatus::Healthy
    } else if o.socket_exists {
        HealthStatus::Warn
    } else {
        HealthStatus::Error
    };
    let access_summary = if o.socket_accessible {
        "El helper puede aceptar conexiones en el socket IPC."
    } else if o.socket_exists {
        "El socket existe, pero esta comprobación no pudo abrir una conexión local."
    } else {
        "No se puede abrir el socket porque no está presente."
    };
    let openvpn = match &o.openvpn {
        OpenVpnCheck::Succeeded { stdout } => {
            let line = match first_line_of(stdout.as_str()) {
                Some(l) => l,
                None => String::from_str("Versión de OpenVPN detectada"),
            };
            item("openvpn", HealthStatus::Healthy, "OpenVPN está instalado y responde correctamente.", line)
        },
        OpenVpnCheck::Unsuccessful { status_text } => item("openvpn", HealthStatus::Warn,
            "OpenVPN existe, pero devolvió un estado no exitoso.", cat("exit_status=", status_text.as_str())),
        OpenVpnCheck::Unavailable { error_text } => item("openvpn", HealthStatus::Error,
            "OpenVPN no está disponible o no puede ejecutarse.", error_text.clone()),
    };
    let resolv = if o.update_resolv_conf_exists {
        item("update_resolv_conf", HealthStatus::Healthy, "Se encontró el script update-resolv-conf.",
            String::from_str(UPDATE_RESOLV_CONF_PATH))
    } else {
        item("update_resolv_conf", HealthStatus::Warn,
            "No se encontró update-resolv-conf; algunos perfiles pueden no actualizar DNS.",
            String::from_str(UPDATE_RESOLV_CONF_PATH))
    };
    let systemd_status = if o.socket_unit_active == Some(true) || o.socket_unit_enabled == Some(true) {
        HealthStatus::Healthy
    } else {
        HealthStatus::Warn
    };
    let binary = match &o.helper_binary_path {
        Some(p) => p.clone(),
        None => String::from_str("desconocida"),
    };
    let mut items: Vec<HelperHealthItem> = Vec::new();
    items.push(item("socket", socket_status, socket_summary, socket_details_string(o)));
    items.push(item("socket_access", access_status, access_summary, cat("ruta=", DEFAULT_SOCKET_PATH)));
    items.push(openvpn);
    items.push(resolv);
    items.push(item("systemd", systemd_status, "Estado observado de las units de systemd del helper.",
        systemd_details_string(o)));
    items.push(item("helper_binary", HealthStatus::Healthy, "Ruta del binario actual del helper.", binary));
    HelperHealthReport { generated_at_unix_ms: o.generated_at_unix_ms, items }
}

/// Law: the systemd check of a report is fine exactly when the helper's
/// socket unit is active or enabled, and a warning otherwise; the state of the
/// service unit does not decide it.
pub proof fn law_systemd_check_follows_the_socket_unit(r: HelperHealthReport, o: HealthObservations)
    requires
        report_matches(r, o),
    ensures
        r.items@[4].key@ == "systemd"@,
        r.items@[4].status == HealthStatus::Healthy <==> (o.socket_unit_active == Some(true)
            || o.socket_unit_enabled == Some(true)),
        r.items@[4].status == HealthStatus::Warn <==> !(o.socket_unit_active == Some(true)
            || o.socket_unit_enabled == Some(true)),
{
}

} // verus!
