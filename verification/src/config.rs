//! The user's configuration: VPN profiles, proxy configurations, the current
//! selection, where all of it is stored, and how passwords travel between the
//! configuration and the system keyring.
use vstd::prelude::*;
use crate::paths::{
    extension_of, join_path, path_exists, path_extension, path_has_prefix, path_join, path_starts_with, paths_equal, same_path,
};
use crate::text::{cat, cat3, is_blank, opt_view, str_eq, str_is_blank, views};

verus! {

/// How OpenVPN authenticates against an HTTP proxy.
#[derive(Debug, Clone, Copy, PartialEq, Eq, Structural)]
pub enum ProxyAuthMethod {
    NoAuth,
    Basic,
    Ntlm,
}

impl Default for ProxyAuthMethod {
    fn default() -> (r: Self)
        ensures
            r == ProxyAuthMethod::NoAuth,
    {
        ProxyAuthMethod::NoAuth
    }
}

/// The word OpenVPN takes for each method.
pub open spec fn auth_method_arg(m: ProxyAuthMethod) -> Seq<char> {
    match m {
        ProxyAuthMethod::NoAuth => "none"@,
        ProxyAuthMethod::Basic => "basic"@,
        ProxyAuthMethod::Ntlm => "ntlm"@,
    }
}

/// The name shown to the user for each method.
pub open spec fn auth_method_name(m: ProxyAuthMethod) -> Seq<char> {
    match m {
        ProxyAuthMethod::NoAuth => "Sin autenticación"@,
        ProxyAuthMethod::Basic => "Basic"@,
        ProxyAuthMethod::Ntlm => "NTLM"@,
    }
}

impl ProxyAuthMethod {
    /// The word passed to OpenVPN after `--http-proxy ... <file>`.
    pub fn as_openvpn_arg(&self) -> (r: &'static str)
        ensures
            r@ == auth_method_arg(*self),
    {
        match self {
            ProxyAuthMethod::NoAuth => "none",
            ProxyAuthMethod::Basic => "basic",
            ProxyAuthMethod::Ntlm => "ntlm",
        }
    }

    /// The name shown to the user.
    pub fn display_name(&self) -> (r: &'static str)
        ensures
            r@ == auth_method_name(*self),
    {
        match self {
            ProxyAuthMethod::NoAuth => "Sin autenticación",
            ProxyAuthMethod::Basic => "Basic",
            ProxyAuthMethod::Ntlm => "NTLM",
        }
    }

    /// Whether the method needs a credentials file.
    pub fn needs_auth_file(&self) -> (r: bool)
        ensures
            r == (*self != ProxyAuthMethod::NoAuth),
    {
        match self {
            ProxyAuthMethod::NoAuth => false,
            _ => true,
        }
    }

    /// Every method, in the order the user is offered them.
    pub fn all() -> (r: &'static [ProxyAuthMethod])
        ensures
            r@ == seq![ProxyAuthMethod::NoAuth, ProxyAuthMethod::Basic, ProxyAuthMethod::Ntlm],
    {
        &[ProxyAuthMethod::NoAuth, ProxyAuthMethod::Basic, ProxyAuthMethod::Ntlm]
    }
}

/// A lowercase hexadecimal digit.
pub open spec fn is_lower_hex(c: char) -> bool {
    ('0' <= c && c <= '9') || ('a' <= c && c <= 'f')
}

/// The hyphenated text of a UUID: 36 characters, hyphens at positions 8, 13,
/// 18 and 23, lowercase hexadecimal digits elsewhere.
pub open spec fn is_uuid_text(s: Seq<char>) -> bool {
    &&& s.len() == 36
    &&& forall|i: int| 0 <= i < 36 ==> (if i == 8 || i == 13 || i == 18 || i == 23 {
        #[trigger] s[i] == '-'
    } else {
        is_lower_hex(s[i])
    })
}

/// The hyphenated text of a random (version 4, RFC 4122 variant) UUID: the
/// version digit `4` at position 14 and one of `8`, `9`, `a`, `b` at position 19.
pub open spec fn is_uuid_v4_text(s: Seq<char>) -> bool {
    &&& is_uuid_text(s)
    &&& s[14] == '4'
    &&& (s[19] == '8' || s[19] == '9' || s[19] == 'a' || s[19] == 'b')
}

/// Draws a random identifier with `uuid::Uuid::new_v4` and renders it with
/// `to_string`. `new_v4` sets the version nibble to 4 and the variant bits to
/// RFC 4122; the contract claims only that and the shape of the hyphenated
/// lowercase rendering that `uuid`'s `Display` writes. The value is random.
#[verifier::external_body]
fn new_random_id() -> (r: String)
    ensures
        is_uuid_v4_text(r@),
{
    uuid::Uuid::new_v4().to_string()
}

/// A VPN profile: an OpenVPN configuration file and the credentials to use it.
#[derive(Debug, Clone)]
pub struct VpnProfile {
    /// Generated identifier.
    pub id: String,
    /// Name shown to the user.
    pub name: String,
    /// Path of the `.ovpn` file.
    pub config_file: String,
    /// VPN user name.
    pub username: String,
    /// VPN password; kept in the keyring, not in the configuration file.
    pub password: String,
    /// Run the resolver update script when the tunnel goes up and down.
    pub use_update_resolv_conf: bool,
}

impl Default for VpnProfile {
    fn default() -> (r: Self)
        ensures
            is_uuid_v4_text(r.id@),
            r.name@.len() == 0,
            r.config_file@.len() == 0,
            r.username@.len() == 0,
            r.password@.len() == 0,
            r.use_update_resolv_conf,
    {
        VpnProfile {
            id: new_random_id(),
            name: String::new(),
            config_file: String::new(),
            username: String::new(),
            password: String::new(),
            use_update_resolv_conf: true,
        }
    }
}

/// The first problem that keeps a profile from connecting, given whether its
/// configuration file exists; none when it can connect.
pub open spec fn profile_problem(p: VpnProfile, file_exists: bool) -> Option<Seq<char>> {
    if is_blank(p.name@) {
        Some("El nombre del perfil no puede estar vacío."@)
    } else if is_blank(p.config_file@) {
        Some("Debes seleccionar un fichero .ovpn."@)
    } else if !file_exists {
        Some("El fichero .ovpn no existe:\n"@ + p.config_file@)
    } else if is_blank(p.username@) {
        Some("El usuario de la VPN no puede estar vacío."@)
    } else if is_blank(p.password@) {
        Some("La contraseña de la VPN no puede estar vacía."@)
    } else {
        None
    }
}

/// `r` is the verdict that `problem` describes.
pub open spec fn verdict_is(r: Result<(), String>, problem: Option<Seq<char>>) -> bool {
    match r {
        Ok(_) => problem is None,
        Err(e) => problem == Some(e@),
    }
}

impl VpnProfile {
    /// A fresh profile with a random identifier.
    pub fn new() -> (r: Self)
        ensures
            is_uuid_v4_text(r.id@),
            r.name@.len() == 0,
            r.config_file@.len() == 0,
            r.username@.len() == 0,
            r.password@.len() == 0,
            r.use_update_resolv_conf,
    {
        Self::default()
    }

    /// A field-by-field copy.
    pub fn duplicate(&self) -> (r: Self)
        ensures
            r == *self,
    {
        VpnProfile {
            id: self.id.clone(),
            name: self.name.clone(),
            config_file: self.config_file.clone(),
            username: self.username.clone(),
            password: self.password.clone(),
            use_update_resolv_conf: self.use_update_resolv_conf,
        }
    }

    /// The checks before connecting, given whether the configuration file exists.
    pub fn validate_with_file(&self, file_exists: bool) -> (r: Result<(), String>)
        ensures
            verdict_is(r, profile_problem(*self, file_exists)),
    {
        if str_is_blank(self.name.as_str()) {
            return Err(String::from_str("El nombre del perfil no puede estar vacío."));
        }
        if str_is_blank(self.config_file.as_str()) {
            return Err(String::from_str("Debes seleccionar un fichero .ovpn."));
        }
        if !file_exists {
            return Err(cat("El fichero .ovpn no existe:\n", self.config_file.as_str()));
        }
        if str_is_blank(self.username.as_str()) {
            return Err(String::from_str("El usuario de la VPN no puede estar vacío."));
        }
        if str_is_blank(self.password.as_str()) {
            return Err(String::from_str("La contraseña de la VPN no puede estar vacía."));
        }
        Ok(())
    }

    /// The checks before connecting; whether the configuration file exists is
    /// asked of the file system once the name and path are given.
    pub fn validate(&self) -> (r: Result<(), String>)
        ensures
            exists|found: bool| verdict_is(r, #[trigger] profile_problem(*self, found)),
    {
        if str_is_blank(self.name.as_str()) || str_is_blank(self.config_file.as_str()) {
            return self.validate_with_file(true);
        }
        let found = path_exists(self.config_file.as_str());
        self.validate_with_file(found)
    }
}

/// An HTTP proxy that OpenVPN tunnels through; any profile can use it.
#[derive(Debug, Clone)]
pub struct ProxyConfig {
    /// Generated identifier.
    pub id: String,
    /// Name shown to the user.
    pub name: String,
    /// Address or host name of the proxy.
    pub host: String,
    /// Port of the proxy.
    pub port: u16,
    /// Authentication method.
    pub auth_method: ProxyAuthMethod,
    /// Proxy user name; ignored without authentication.
    pub username: String,
    /// Proxy password; kept in the keyring, not in the configuration file.
    pub password: String,
}

/// The port a new proxy configuration starts with.
pub const DEFAULT_PROXY_PORT: u16 = 3128;

impl Default for ProxyConfig {
    fn default() -> (r: Self)
        ensures
            is_uuid_v4_text(r.id@),
            r.name@.len() == 0,
            r.host@.len() == 0,
            r.port == DEFAULT_PROXY_PORT,
            r.auth_method == ProxyAuthMethod::NoAuth,
            r.username@.len() == 0,
            r.password@.len() == 0,
    {
        ProxyConfig {
            id: new_random_id(),
            name: String::new(),
            host: String::new(),
            port: DEFAULT_PROXY_PORT,
            auth_method: ProxyAuthMethod::NoAuth,
            username: String::new(),
            password: String::new(),
        }
    }
}

/// The first problem that keeps a proxy configuration from being used; none
/// when it is complete.
pub open spec fn proxy_problem(p: ProxyConfig) -> Option<Seq<char>> {
    if is_blank(p.name@) {
        Some("El nombre del proxy no puede estar vacío."@)
    } else if is_blank(p.host@) {
        Some("La dirección del servidor proxy no puede estar vacía."@)
    } else if p.port == 0 {
        Some("El puerto debe ser mayor que 0."@)
    } else if p.auth_method != ProxyAuthMethod::NoAuth && is_blank(p.username@) {
        Some("El método '"@ + auth_method_name(p.auth_method) + "' requiere un usuario de proxy."@)
    } else if p.auth_method != ProxyAuthMethod::NoAuth && is_blank(p.password@) {
        Some("El método '"@ + auth_method_name(p.auth_method) + "' requiere una contraseña de proxy."@)
    } else {
        None
    }
}

impl ProxyConfig {
    /// A fresh proxy configuration with a random identifier.
    pub fn new() -> (r: Self)
        ensures
            is_uuid_v4_text(r.id@),
            r.name@.len() == 0,
            r.host@.len() == 0,
            r.port == DEFAULT_PROXY_PORT,
            r.auth_method == ProxyAuthMethod::NoAuth,
            r.username@.len() == 0,
            r.password@.len() == 0,
    {
        Self::default()
    }

    /// A field-by-field copy.
    pub fn duplicate(&self) -> (r: Self)
        ensures
            r == *self,
    {
        ProxyConfig {
            id: self.id.clone(),
            name: self.name.clone(),
            host: self.host.clone(),
            port: self.port,
            auth_method: self.auth_method,
            username: self.username.clone(),
            password: self.password.clone(),
        }
    }

    /// The checks before the proxy is used.
    pub fn validate(&self) -> (r: Result<(), String>)
        ensures
            verdict_is(r, proxy_problem(*self)),
    {
        if str_is_blank(self.name.as_str()) {
            return Err(String::from_str("El nombre del proxy no puede estar vacío."));
        }
        if str_is_blank(self.host.as_str()) {
            return Err(String::from_str("La dirección del servidor proxy no puede estar vacía."));
        }
        if self.port == 0 {
            return Err(String::from_str("El puerto debe ser mayor que 0."));
        }
        if self.auth_method.needs_auth_file() {
            if str_is_blank(self.username.as_str()) {
                return Err(cat3("El método '", self.auth_method.display_name(), "' requiere un usuario de proxy."));
            }
            if str_is_blank(self.password.as_str()) {
                return Err(cat3("El método '", self.auth_method.display_name(),
                    "' requiere una contraseña de proxy."));
            }
        }
        Ok(())
    }
}


/// Application settings; there are none yet.
#[derive(Debug, Clone, Default)]
pub struct AppSettings {}

/// The whole configuration.
#[derive(Debug, Clone)]
pub struct AppConfig {
    pub settings: AppSettings,
    /// Profile last selected by the user.
    pub selected_profile_id: Option<String>,
    /// Proxy last selected by the user.
    pub selected_proxy_id: Option<String>,
    pub vpn_profiles: Vec<VpnProfile>,
    pub proxy_configs: Vec<ProxyConfig>,
}

impl Default for AppConfig {
    fn default() -> (r: Self)
        ensures
            r.selected_profile_id is None,
            r.selected_proxy_id is None,
            r.vpn_profiles@.len() == 0,
            r.proxy_configs@.len() == 0,
    {
        AppConfig {
            settings: AppSettings {},
            selected_profile_id: None,
            selected_proxy_id: None,
            vpn_profiles: Vec::new(),
            proxy_configs: Vec::new(),
        }
    }
}

/// The name of the application's directory inside the user's configuration directory.
pub const APP_DIR_NAME: &'static str = "vpn-desktop";

/// The service name under which passwords are kept in the keyring.
pub const KEYRING_SERVICE: &'static str = "vpn-desktop";

/// The application's configuration directory, given the user's configuration
/// directory if the platform names one, and the home directory otherwise.
pub open spec fn config_dir_spec(base: Option<Seq<char>>, home: Seq<char>) -> Seq<char> {
    join_path(match base {
        Some(b) => b,
        None => home,
    }, APP_DIR_NAME@)
}

/// The configuration file inside the configuration directory.
pub open spec fn config_path_spec(dir: Seq<char>) -> Seq<char> {
    join_path(dir, "config.toml"@)
}

/// The directory of imported OpenVPN files inside the configuration directory.
pub open spec fn profiles_dir_spec(dir: Seq<char>) -> Seq<char> {
    join_path(dir, "profiles"@)
}

/// The file name an imported OpenVPN file gets: the profile's identifier and
/// the source's extension, or `ovpn` when it has none or a blank one.
pub open spec fn managed_file_name(profile_id: Seq<char>, extension: Option<Seq<char>>) -> Seq<char> {
    profile_id + "."@ + match extension {
        Some(e) => if is_blank(e) { "ovpn"@ } else { e },
        None => "ovpn"@,
    }
}

/// The keyring entry of a VPN profile's password.
pub open spec fn vpn_key_spec(profile_id: Seq<char>) -> Seq<char> {
    "vpn-profile:"@ + profile_id
}

/// The keyring entry of a proxy's password.
pub open spec fn proxy_key_spec(proxy_id: Seq<char>) -> Seq<char> {
    "proxy-config:"@ + proxy_id
}

impl AppConfig {
    /// The application's configuration directory: `vpn-desktop` inside the
    /// user's configuration directory, or inside the home directory when the
    /// platform names none.
    pub fn config_dir_from(config_base: Option<String>, home: String) -> (r: String)
        ensures
            r@ == config_dir_spec(opt_view(config_base), home@),
    {
        let base = match config_base {
            Some(b) => b,
            None => home,
        };
        path_join(base.as_str(), APP_DIR_NAME)
    }

    /// The configuration file.
    pub fn config_path(config_dir: &str) -> (r: String)
        ensures
            r@ == config_path_spec(config_dir@),
    {
        path_join(config_dir, "config.toml")
    }

    /// The directory of imported OpenVPN files.
    pub fn profiles_dir(config_dir: &str) -> (r: String)
        ensures
            r@ == profiles_dir_spec(config_dir@),
    {
        path_join(config_dir, "profiles")
    }

    /// The file name an imported OpenVPN file gets, given the extension of the source.
    pub fn managed_profile_file_name(profile_id: &str, extension: Option<String>) -> (r: String)
        ensures
            r@ == managed_file_name(profile_id@, opt_view(extension)),
    {
        proof { reveal_strlit("."); reveal_strlit("ovpn"); }
        let ext = match extension {
            Some(e) => if str_is_blank(e.as_str()) { String::from_str("ovpn") } else { e },
            None => String::from_str("ovpn"),
        };
        cat3(profile_id, ".", ext.as_str())
    }

    /// Where the OpenVPN file of a profile is kept once imported from `source_path`.
    pub fn managed_profile_config_path(config_dir: &str, profile_id: &str, source_path: &str) -> (r: String)
        ensures
            r@ == join_path(profiles_dir_spec(config_dir@), managed_file_name(profile_id@, path_extension(source_path@))),
    {
        let name = Self::managed_profile_file_name(profile_id, extension_of(source_path));
        path_join(Self::profiles_dir(config_dir).as_str(), name.as_str())
    }

    /// Whether an OpenVPN file lies in the directory of imported files.
    pub fn is_managed_profile_config(config_dir: &str, config_file: &str) -> (r: bool)
        ensures
            r == path_starts_with(config_file@, profiles_dir_spec(config_dir@)),
    {
        path_has_prefix(config_file, Self::profiles_dir(config_dir).as_str())
    }

    /// Whether removing a profile should delete its OpenVPN file: only a
    /// non-blank path inside the directory of imported files is deleted.
    pub fn should_delete_profile_config(config_dir: &str, config_file: &str) -> (r: bool)
        ensures
            r == (!is_blank(config_file@) && path_starts_with(config_file@, profiles_dir_spec(config_dir@))),
    {
        !str_is_blank(config_file) && Self::is_managed_profile_config(config_dir, config_file)
    }

    /// The OpenVPN file to delete along with a profile, if it is one the
    /// application imported.
    pub fn profile_config_to_delete(config_dir: &str, profile: &VpnProfile) -> (r: Option<String>)
        ensures
            match r {
                Some(path) => path == profile.config_file && !is_blank(profile.config_file@)
                    && path_starts_with(profile.config_file@, profiles_dir_spec(config_dir@)),
                None => !(!is_blank(profile.config_file@)
                    && path_starts_with(profile.config_file@, profiles_dir_spec(config_dir@))),
            },
    {
        if Self::should_delete_profile_config(config_dir, profile.config_file.as_str()) {
            Some(profile.config_file.clone())
        } else {
            None
        }
    }

    /// Whether an imported OpenVPN file must be copied: not when the source
    /// already is the target.
    pub fn import_needs_copy(source_path: &str, target_path: &str) -> (r: bool)
        ensures
            r == !paths_equal(source_path@, target_path@),
    {
        !same_path(source_path, target_path)
    }

    /// The keyring entry of a VPN profile's password.
    pub fn vpn_password_key(profile_id: &str) -> (r: String)
        ensures
            r@ == vpn_key_spec(profile_id@),
    {
        cat("vpn-profile:", profile_id)
    }

    /// The keyring entry of a proxy's password.
    pub fn proxy_password_key(proxy_id: &str) -> (r: String)
        ensures
            r@ == proxy_key_spec(proxy_id@),
    {
        cat("proxy-config:", proxy_id)
    }
}


#[verifier::external_type_specification]
#[verifier::external_body]
pub struct ExKeyringEntry(keyring::Entry);

/// A failure reported by the keyring: whether it is the store's answer that
/// it holds no credential for the entry (`keyring::Error::NoEntry`), and the
/// failure's text.
#[derive(Debug, Clone)]
pub struct KeyringFailure {
    pub missing_entry: bool,
    pub text: String,
}

/// Opens the keyring entry for `service` and `user` through
/// `keyring::Entry::new`. A failure comes back with `missing_entry` telling
/// whether it is `keyring::Error::NoEntry`, and with its `Display` text.
/// Whether the platform store accepts the entry is not stated. `Entry::new`
/// panics only when the lock of its default builder is poisoned, which no
/// precondition can rule out.
#[verifier::external_body]
fn open_entry(service: &str, user: &str) -> Result<keyring::Entry, KeyringFailure> {
    match keyring::Entry::new(service, user) {
        Ok(entry) => Ok(entry),
        Err(e) => Err(KeyringFailure { missing_entry: matches!(e, keyring::Error::NoEntry), text: e.to_string() }),
    }
}

/// Reads the password of an entry through `keyring::Entry::get_password`; a
/// failure is converted as in [`open_entry`]. What the store holds is not stated.
#[verifier::external_body]
fn read_password(entry: &keyring::Entry) -> Result<String, KeyringFailure> {
    match entry.get_password() {
        Ok(password) => Ok(password),
        Err(e) => Err(KeyringFailure { missing_entry: matches!(e, keyring::Error::NoEntry), text: e.to_string() }),
    }
}

/// Writes the password of an entry through `keyring::Entry::set_password`; a
/// failure is converted as in [`open_entry`]. Whether the store accepts the
/// password is not stated.
#[verifier::external_body]
fn write_password(entry: &keyring::Entry, password: &str) -> Result<(), KeyringFailure> {
    match entry.set_password(password) {
        Ok(()) => Ok(()),
        Err(e) => Err(KeyringFailure { missing_entry: matches!(e, keyring::Error::NoEntry), text: e.to_string() }),
    }
}

/// Deletes the credential of an entry through
/// `keyring::Entry::delete_credential`; a failure is converted as in
/// [`open_entry`]. Whether there was a credential is not stated.
#[verifier::external_body]
fn erase_password(entry: &keyring::Entry) -> Result<(), KeyringFailure> {
    match entry.delete_credential() {
        Ok(()) => Ok(()),
        Err(e) => Err(KeyringFailure { missing_entry: matches!(e, keyring::Error::NoEntry), text: e.to_string() }),
    }
}

/// `s` begins with `p`.
pub open spec fn has_prefix(s: Seq<char>, p: Seq<char>) -> bool {
    p.len() <= s.len() && s.subrange(0, p.len() as int) == p
}

/// The beginning of the error when the keyring entry for `key` cannot be opened.
pub open spec fn open_failure_prefix(key: Seq<char>) -> Seq<char> {
    "No se pudo abrir el keyring para '"@ + key + "': "@
}

proof fn lemma_prefix(a: Seq<char>, b: Seq<char>)
    ensures
        has_prefix(a + b, a),
{
    assert((a + b).subrange(0, a.len() as int) =~= a);
}

/// A text that begins with `q`, put between `p` and `s`, begins with `p + q`.
proof fn lemma_prefix_within(p: Seq<char>, m: Seq<char>, s: Seq<char>, q: Seq<char>)
    requires
        has_prefix(m, q),
    ensures
        has_prefix(p + m + s, p + q),
{
    let w = p + m + s;
    assert forall|k: int| 0 <= k < p.len() + q.len() implies #[trigger] w[k] == (p + q)[k] by {
        if k >= p.len() {
            assert(m[k - p.len()] == m.subrange(0, q.len() as int)[k - p.len()]);
        }
    }
    assert(w.subrange(0, (p + q).len() as int) =~= p + q);
}

/// `r` failed, if at all, with an error that begins with one of `p` and `q`.
pub open spec fn fails_with_either(r: Result<(), String>, p: Seq<char>, q: Seq<char>) -> bool {
    r matches Err(e) ==> has_prefix(e@, p) || has_prefix(e@, q)
}

/// The outcome of saving a password, given what the keyring answered: a
/// failure is reported as `failure` followed by the keyring's text.
pub fn stored_result(outcome: Result<(), KeyringFailure>, failure: &str) -> (r: Result<(), String>)
    ensures
        match outcome {
            Ok(_) => r is Ok,
            Err(f) => r matches Err(e) && e@ == failure@ + f.text@,
        },
{
    match outcome {
        Ok(()) => Ok(()),
        Err(f) => Err(cat(failure, f.text.as_str())),
    }
}

/// The outcome of deleting a password, given what the keyring answered: a
/// credential that is not there is no error; another failure is reported as
/// `failure` followed by the keyring's text.
pub fn deleted_result(outcome: Result<(), KeyringFailure>, failure: &str) -> (r: Result<(), String>)
    ensures
        match outcome {
            Ok(_) => r is Ok,
            Err(f) => if f.missing_entry { r is Ok } else { r matches Err(e) && e@ == failure@ + f.text@ },
        },
{
    match outcome {
        Ok(()) => Ok(()),
        Err(f) => if f.missing_entry { Ok(()) } else { Err(cat(failure, f.text.as_str())) },
    }
}

/// What reading a password gives, given what the keyring answered: the
/// password; nothing when the store holds no credential for the entry; or, for
/// another failure, `read_warning` followed by the keyring's text.
pub fn read_result(outcome: Result<String, KeyringFailure>, read_warning: &str) -> (r: Result<Option<String>, String>)
    ensures
        match outcome {
            Ok(pw) => r == Ok::<Option<String>, String>(Some(pw)),
            Err(f) => if f.missing_entry {
                r == Ok::<Option<String>, String>(None)
            } else {
                r matches Err(w) && w@ == read_warning@ + f.text@
            },
        },
{
    match outcome {
        Ok(pw) => Ok(Some(pw)),
        Err(f) => if f.missing_entry { Ok(None) } else { Err(cat(read_warning, f.text.as_str())) },
    }
}

/// The warning given when a profile's password could not be read from the keyring.
pub open spec fn profile_read_warning(p: VpnProfile) -> Seq<char> {
    "[vpn-desktop] Advertencia: no se pudo leer la contraseña VPN '"@ + p.name@ + "' del keyring: "@
}

/// The beginning of the warning given when the keyring could not be opened for a profile.
pub open spec fn profile_open_head(p: VpnProfile) -> Seq<char> {
    "[vpn-desktop] Advertencia: no se pudo abrir el keyring para el perfil VPN '"@ + p.name@ + "' ("@
}

/// The warning given when a proxy's password could not be read from the keyring.
pub open spec fn proxy_read_warning(p: ProxyConfig) -> Seq<char> {
    "[vpn-desktop] Advertencia: no se pudo leer la contraseña del proxy '"@ + p.name@ + "' del keyring: "@
}

/// The beginning of the warning given when the keyring could not be opened for a proxy.
pub open spec fn proxy_open_head(p: ProxyConfig) -> Seq<char> {
    "[vpn-desktop] Advertencia: no se pudo abrir el keyring para el proxy '"@ + p.name@ + "' ("@
}

/// `w` reports that the password of profile `p` could not be loaded: reading
/// it failed, or the keyring could not be opened for its entry.
pub open spec fn is_profile_load_warning(w: Seq<char>, p: VpnProfile) -> bool {
    has_prefix(w, profile_read_warning(p)) || has_prefix(w, profile_open_head(p) + open_failure_prefix(vpn_key_spec(p.id@)))
}

/// `w` reports that the password of proxy `p` could not be loaded.
pub open spec fn is_proxy_load_warning(w: Seq<char>, p: ProxyConfig) -> bool {
    has_prefix(w, proxy_read_warning(p)) || has_prefix(w, proxy_open_head(p) + open_failure_prefix(proxy_key_spec(p.id@)))
}

/// A password to read from the keyring: the key of its entry, the warning to
/// give when reading fails, and the beginning of the one to give when the
/// keyring cannot be opened.
#[derive(Debug, Clone)]
pub struct PasswordRead {
    pub key: String,
    pub read_warning: String,
    pub open_warning: String,
}

/// A read as plain text.
pub open spec fn read_view(r: PasswordRead) -> (Seq<char>, Seq<char>, Seq<char>) {
    (r.key@, r.read_warning@, r.open_warning@)
}

/// The read of a profile's password: under `vpn-profile:<id>`, with the
/// profile's warnings.
pub open spec fn profile_read(p: VpnProfile) -> (Seq<char>, Seq<char>, Seq<char>) {
    (vpn_key_spec(p.id@), profile_read_warning(p), profile_open_head(p))
}

/// The read of a proxy's password: under `proxy-config:<id>`, with the
/// proxy's warnings.
pub open spec fn proxy_read(p: ProxyConfig) -> (Seq<char>, Seq<char>, Seq<char>) {
    (proxy_key_spec(p.id@), proxy_read_warning(p), proxy_open_head(p))
}

/// The warnings among read results, in order.
pub open spec fn read_errors(rs: Seq<Result<Option<String>, String>>) -> Seq<String>
    decreases rs.len(),
{
    if rs.len() == 0 {
        Seq::empty()
    } else {
        let e = read_errors(rs.drop_last());
        match rs.last() {
            Err(w) => e.push(w),
            _ => e,
        }
    }
}

/// A profile after the read of its password: a password read replaces its
/// password; nothing read, or a failure, leaves it as it was.
pub open spec fn profile_after_read(p: VpnProfile, r: Result<Option<String>, String>) -> VpnProfile {
    match r {
        Ok(Some(pw)) => VpnProfile { password: pw, ..p },
        _ => p,
    }
}

/// A proxy after the read of its password, as for a profile.
pub open spec fn proxy_after_read(p: ProxyConfig, r: Result<Option<String>, String>) -> ProxyConfig {
    match r {
        Ok(Some(pw)) => ProxyConfig { password: pw, ..p },
        _ => p,
    }
}

/// `new` is `old` after the reads `vr` of its profiles' passwords and `pr` of
/// its proxies' passwords, one for each, in order.
pub open spec fn reads_applied(
    old: AppConfig,
    new: AppConfig,
    vr: Seq<Result<Option<String>, String>>,
    pr: Seq<Result<Option<String>, String>>,
) -> bool {
    &&& new.settings == old.settings
    &&& new.selected_profile_id == old.selected_profile_id
    &&& new.selected_proxy_id == old.selected_proxy_id
    &&& new.vpn_profiles@.len() == old.vpn_profiles@.len()
    &&& new.proxy_configs@.len() == old.proxy_configs@.len()
    &&& forall|i: int| 0 <= i < old.vpn_profiles@.len() ==> #[trigger] new.vpn_profiles@[i]
        == profile_after_read(old.vpn_profiles@[i], vr[i])
    &&& forall|i: int| 0 <= i < old.proxy_configs@.len() ==> #[trigger] new.proxy_configs@[i]
        == proxy_after_read(old.proxy_configs@[i], pr[i])
}

/// A password to save in the keyring: the key of its entry, the password, and
/// the name of the profile or proxy it belongs to.
#[derive(Debug, Clone)]
pub struct PasswordWrite {
    pub key: String,
    pub password: String,
    pub owner: String,
}

/// A write as plain text.
pub open spec fn write_view(w: PasswordWrite) -> (Seq<char>, Seq<char>, Seq<char>) {
    (w.key@, w.password@, w.owner@)
}

/// The writes for the profiles with a non-blank password, in order: the
/// password under `vpn-profile:<id>`.
pub open spec fn profile_writes(ps: Seq<VpnProfile>) -> Seq<(Seq<char>, Seq<char>, Seq<char>)>
    decreases ps.len(),
{
    if ps.len() == 0 {
        Seq::empty()
    } else {
        let r = profile_writes(ps.drop_last());
        let p = ps.last();
        if is_blank(p.password@) { r } else { r.push((vpn_key_spec(p.id@), p.password@, p.name@)) }
    }
}

/// The writes for the proxies with a non-blank password, in order: the
/// password under `proxy-config:<id>`.
pub open spec fn proxy_writes(ps: Seq<ProxyConfig>) -> Seq<(Seq<char>, Seq<char>, Seq<char>)>
    decreases ps.len(),
{
    if ps.len() == 0 {
        Seq::empty()
    } else {
        let r = proxy_writes(ps.drop_last());
        let p = ps.last();
        if is_blank(p.password@) { r } else { r.push((proxy_key_spec(p.id@), p.password@, p.name@)) }
    }
}

/// The beginning of the warning given when a profile's password could not be saved.
pub open spec fn profile_store_head(owner: Seq<char>) -> Seq<char> {
    "[vpn-desktop] Advertencia: no se pudo guardar la contraseña VPN '"@ + owner + "' en keyring: "@
}

/// The beginning of the warning given when a proxy's password could not be saved.
pub open spec fn proxy_store_head(owner: Seq<char>) -> Seq<char> {
    "[vpn-desktop] Advertencia: no se pudo guardar la contraseña del proxy '"@ + owner + "' en keyring: "@
}

/// Every outcome `os[k]` of saving the write `ws[k]` failed, if at all, with
/// an error that begins with the open failure for its key or with `failure`.
pub open spec fn outcomes_fit(
    ws: Seq<(Seq<char>, Seq<char>, Seq<char>)>,
    os: Seq<Result<(), String>>,
    failure: Seq<char>,
) -> bool {
    forall|k: int| 0 <= k < os.len() ==> fails_with_either(#[trigger] os[k], open_failure_prefix(ws[k].0), failure)
}

/// The warnings for the outcomes `os` of saving the writes `ws`, in order: for
/// each failure, the head naming the write's owner (a profile's, or a proxy's
/// when `profiles` is false) followed by the error.
pub open spec fn store_texts(
    ws: Seq<(Seq<char>, Seq<char>, Seq<char>)>,
    os: Seq<Result<(), String>>,
    profiles: bool,
) -> Seq<Seq<char>>
    decreases os.len(),
{
    if os.len() == 0 {
        Seq::empty()
    } else {
        let r = store_texts(ws, os.drop_last(), profiles);
        let owner = ws[os.len() - 1].2;
        match os.last() {
            Err(e) => r.push(if profiles { profile_store_head(owner) } else { proxy_store_head(owner) } + e@),
            Ok(_) => r,
        }
    }
}

/// The saves of the writes `pw` (profiles) and `xw` (proxies) came out as `vo`
/// and `xo`, one outcome per write, and `texts` are exactly their warnings.
pub open spec fn stores_reported(
    pw: Seq<(Seq<char>, Seq<char>, Seq<char>)>,
    vo: Seq<Result<(), String>>,
    xw: Seq<(Seq<char>, Seq<char>, Seq<char>)>,
    xo: Seq<Result<(), String>>,
    texts: Seq<Seq<char>>,
) -> bool {
    &&& vo.len() == pw.len()
    &&& xo.len() == xw.len()
    &&& outcomes_fit(pw, vo, "No se pudo guardar la contraseña VPN en keyring: "@)
    &&& outcomes_fit(xw, xo, "No se pudo guardar la contraseña del proxy en keyring: "@)
    &&& texts == store_texts(pw, vo, true) + store_texts(xw, xo, false)
}

impl AppConfig {
    /// The keyring entry kept under `key`.
    fn keyring_entry(key: &str) -> (r: Result<keyring::Entry, String>)
        ensures
            r matches Err(e) ==> has_prefix(e@, open_failure_prefix(key@)),
    {
        match open_entry(KEYRING_SERVICE, key) {
            Ok(entry) => Ok(entry),
            Err(f) => {
                let head = cat3("No se pudo abrir el keyring para '", key, "': ");
                proof { lemma_prefix(head@, f.text@); }
                Err(head.concat(f.text.as_str()))
            },
        }
    }

    fn store_password(key: &str, password: &str, failure: &str) -> (r: Result<(), String>)
        ensures
            fails_with_either(r, open_failure_prefix(key@), failure@),
    {
        let entry = Self::keyring_entry(key)?;
        let outcome = write_password(&entry, password);
        let ghost o = outcome;
        let r = stored_result(outcome, failure);
        proof {
            if let Err(f) = o {
                lemma_prefix(failure@, f.text@);
            }
        }
        r
    }

    fn delete_password(key: &str, failure: &str) -> (r: Result<(), String>)
        ensures
            fails_with_either(r, open_failure_prefix(key@), failure@),
    {
        let entry = Self::keyring_entry(key)?;
        let outcome = erase_password(&entry);
        let ghost o = outcome;
        let r = deleted_result(outcome, failure);
        proof {
            if let Err(f) = o {
                lemma_prefix(failure@, f.text@);
            }
        }
        r
    }

    /// Saves a profile's password in the keyring under `vpn-profile:<id>`.
    pub fn store_vpn_password(profile: &VpnProfile) -> (r: Result<(), String>)
        ensures
            fails_with_either(r, open_failure_prefix(vpn_key_spec(profile.id@)),
                "No se pudo guardar la contraseña VPN en keyring: "@),
    {
        let key = Self::vpn_password_key(profile.id.as_str());
        Self::store_password(key.as_str(), profile.password.as_str(),
            "No se pudo guardar la contraseña VPN en keyring: ")
    }

    /// Saves a proxy's password in the keyring under `proxy-config:<id>`.
    pub fn store_proxy_password(proxy: &ProxyConfig) -> (r: Result<(), String>)
        ensures
            fails_with_either(r, open_failure_prefix(proxy_key_spec(proxy.id@)),
                "No se pudo guardar la contraseña del proxy en keyring: "@),
    {
        let key = Self::proxy_password_key(proxy.id.as_str());
        Self::store_password(key.as_str(), proxy.password.as_str(),
            "No se pudo guardar la contraseña del proxy en keyring: ")
    }

    /// Removes a profile's password from the keyring; a password that is not
    /// there is no error.
    pub fn delete_vpn_password(profile: &VpnProfile) -> (r: Result<(), String>)
        ensures
            fails_with_either(r, open_failure_prefix(vpn_key_spec(profile.id@)),
                "No se pudo eliminar la contraseña VPN del keyring: "@),
    {
        let key = Self::vpn_password_key(profile.id.as_str());
        Self::delete_password(key.as_str(), "No se pudo eliminar la contraseña VPN del keyring: ")
    }

    /// Removes a proxy's password from the keyring; a password that is not
    /// there is no error.
    pub fn delete_proxy_password(proxy: &ProxyConfig) -> (r: Result<(), String>)
        ensures
            fails_with_either(r, open_failure_prefix(proxy_key_spec(proxy.id@)),
                "No se pudo eliminar la contraseña del proxy del keyring: "@),
    {
        let key = Self::proxy_password_key(proxy.id.as_str());
        Self::delete_password(key.as_str(), "No se pudo eliminar la contraseña del proxy del keyring: ")
    }

    /// Finishes removing a profile's assets once its imported OpenVPN file has
    /// been dealt with: a failure there is returned as is; otherwise the
    /// profile's password is removed from the keyring.
    pub fn cleanup_profile_assets(profile: &VpnProfile, file_removal: Result<(), String>) -> (r: Result<(), String>)
        ensures
            file_removal is Err ==> r == file_removal,
            file_removal is Ok ==> fails_with_either(r, open_failure_prefix(vpn_key_spec(profile.id@)),
                "No se pudo eliminar la contraseña VPN del keyring: "@),
    {
        file_removal?;
        Self::delete_vpn_password(profile)
    }

    /// Reads the password kept under `key`: the password, nothing when the
    /// store has none, or the warning to show when reading failed or the
    /// keyring could not be opened.
    fn read_keyring_password(key: &str, read_warning: &str, open_warning: &str) -> (r: Result<Option<String>, String>)
        ensures
            r matches Err(w) ==> has_prefix(w@, read_warning@)
                || has_prefix(w@, open_warning@ + open_failure_prefix(key@)),
    {
        match Self::keyring_entry(key) {
            Ok(entry) => {
                let outcome = read_password(&entry);
                let ghost o = outcome;
                let r = read_result(outcome, read_warning);
                proof {
                    if let Err(f) = o {
                        lemma_prefix(read_warning@, f.text@);
                    }
                }
                r
            },
            Err(msg) => {
                proof { lemma_prefix_within(open_warning@, msg@, ")."@, open_failure_prefix(key@)); }
                Err(cat3(open_warning, msg.as_str(), ")."))
            },
        }
    }

    /// The keyring reads that loading makes for the profiles: one for each
    /// profile, in order.
    pub fn profile_password_reads(&self) -> (r: Vec<PasswordRead>)
        ensures
            r@.len() == self.vpn_profiles@.len(),
            forall|i: int| 0 <= i < r@.len() ==> read_view(#[trigger] r@[i]) == profile_read(self.vpn_profiles@[i]),
    {
        let mut r: Vec<PasswordRead> = Vec::new();
        let mut i: usize = 0;
        while i < self.vpn_profiles.len()
            invariant
                i <= self.vpn_profiles@.len(),
                r@.len() == i,
                forall|j: int| 0 <= j < i ==> read_view(#[trigger] r@[j]) == profile_read(self.vpn_profiles@[j]),
            decreases self.vpn_profiles@.len() - i,
        {
            let p = &self.vpn_profiles[i];
            r.push(PasswordRead {
                key: Self::vpn_password_key(p.id.as_str()),
                read_warning: cat3("[vpn-desktop] Advertencia: no se pudo leer la contraseña VPN '", p.name.as_str(),
                    "' del keyring: "),
                open_warning: cat3("[vpn-desktop] Advertencia: no se pudo abrir el keyring para el perfil VPN '",
                    p.name.as_str(), "' ("),
            });
            i = i + 1;
        }
        r
    }

    /// The keyring reads that loading makes for the proxies: one for each
    /// proxy, in order.
    pub fn proxy_password_reads(&self) -> (r: Vec<PasswordRead>)
        ensures
            r@.len() == self.proxy_configs@.len(),
            forall|i: int| 0 <= i < r@.len() ==> read_view(#[trigger] r@[i]) == proxy_read(self.proxy_configs@[i]),
    {
        let mut r: Vec<PasswordRead> = Vec::new();
        let mut i: usize = 0;
        while i < self.proxy_configs.len()
            invariant
                i <= self.proxy_configs@.len(),
                r@.len() == i,
                forall|j: int| 0 <= j < i ==> read_view(#[trigger] r@[j]) == proxy_read(self.proxy_configs@[j]),
            decreases self.proxy_configs@.len() - i,
        {
            let p = &self.proxy_configs[i];
            r.push(PasswordRead {
                key: Self::proxy_password_key(p.id.as_str()),
                read_warning: cat3("[vpn-desktop] Advertencia: no se pudo leer la contraseña del proxy '",
                    p.name.as_str(), "' del keyring: "),
                open_warning: cat3("[vpn-desktop] Advertencia: no se pudo abrir el keyring para el proxy '",
                    p.name.as_str(), "' ("),
            });
            i = i + 1;
        }
        r
    }

    /// Takes in what the keyring gave for each profile and each proxy, in
    /// order: a password read replaces the entry's password, nothing read
    /// leaves it, and each failure's warning is returned, in order.
    pub fn apply_keyring_reads(
        &mut self,
        vpn_reads: Vec<Result<Option<String>, String>>,
        proxy_reads: Vec<Result<Option<String>, String>>,
    ) -> (warnings: Vec<String>)
        requires
            vpn_reads@.len() == old(self).vpn_profiles@.len(),
            proxy_reads@.len() == old(self).proxy_configs@.len(),
        ensures
            reads_applied(*old(self), *final(self), vpn_reads@, proxy_reads@),
            warnings@ == read_errors(vpn_reads@) + read_errors(proxy_reads@),
    {
        let ghost start = *self;
        let mut warnings: Vec<String> = Vec::new();
        let mut i: usize = 0;
        while i < vpn_reads.len()
            invariant
                i <= vpn_reads@.len(),
                vpn_reads@.len() == start.vpn_profiles@.len(),
                self.vpn_profiles@.len() == start.vpn_profiles@.len(),
                self.proxy_configs == start.proxy_configs,
                self.settings == start.settings,
                self.selected_profile_id == start.selected_profile_id,
                self.selected_proxy_id == start.selected_proxy_id,
                warnings@ == read_errors(vpn_reads@.take(i as int)),
                forall|j: int| 0 <= j < i ==> #[trigger] self.vpn_profiles@[j]
                    == profile_after_read(start.vpn_profiles@[j], vpn_reads@[j]),
                forall|j: int| i <= j < self.vpn_profiles@.len() ==> #[trigger] self.vpn_profiles@[j]
                    == start.vpn_profiles@[j],
            decreases vpn_reads@.len() - i,
        {
            proof { assert(vpn_reads@.take(i + 1).drop_last() =~= vpn_reads@.take(i as int)); }
            match &vpn_reads[i] {
                Ok(Some(pw)) => {
                    let mut p = self.vpn_profiles[i].duplicate();
                    p.password = pw.clone();
                    self.vpn_profiles.set(i, p);
                },
                Ok(None) => {},
                Err(w) => warnings.push(w.clone()),
            }
            i = i + 1;
        }
        proof { assert(vpn_reads@.take(vpn_reads@.len() as int) =~= vpn_reads@); }
        let ghost first = warnings@;
        let mut i: usize = 0;
        while i < proxy_reads.len()
            invariant
                i <= proxy_reads@.len(),
                proxy_reads@.len() == start.proxy_configs@.len(),
                self.proxy_configs@.len() == start.proxy_configs@.len(),
                self.vpn_profiles@.len() == start.vpn_profiles@.len(),
                self.settings == start.settings,
                self.selected_profile_id == start.selected_profile_id,
                self.selected_proxy_id == start.selected_proxy_id,
                first == read_errors(vpn_reads@),
                warnings@ == first + read_errors(proxy_reads@.take(i as int)),
                forall|j: int| 0 <= j < start.vpn_profiles@.len() ==> #[trigger] self.vpn_profiles@[j]
                    == profile_after_read(start.vpn_profiles@[j], vpn_reads@[j]),
                forall|j: int| 0 <= j < i ==> #[trigger] self.proxy_configs@[j]
                    == proxy_after_read(start.proxy_configs@[j], proxy_reads@[j]),
                forall|j: int| i <= j < self.proxy_configs@.len() ==> #[trigger] self.proxy_configs@[j]
                    == start.proxy_configs@[j],
            decreases proxy_reads@.len() - i,
        {
            proof { assert(proxy_reads@.take(i + 1).drop_last() =~= proxy_reads@.take(i as int)); }
            match &proxy_reads[i] {
                Ok(Some(pw)) => {
                    let mut p = self.proxy_configs[i].duplicate();
                    p.password = pw.clone();
                    self.proxy_configs.set(i, p);
                },
                Ok(None) => {},
                Err(w) => {
                    let ghost before = warnings@;
                    warnings.push(w.clone());
                    proof { assert(warnings@ =~= first + read_errors(proxy_reads@.take(i + 1))); }
                },
            }
            i = i + 1;
        }
        proof { assert(proxy_reads@.take(proxy_reads@.len() as int) =~= proxy_reads@); }
        warnings
    }

    /// Loads from the keyring the password of every profile and proxy: one
    /// read for each, under its key, taken in as [`AppConfig::apply_keyring_reads`]
    /// says. What the keyring answers is not stated; each warning returned
    /// belongs to the entry whose read failed.
    pub fn load_secrets_from_keyring(&mut self) -> (warnings: Vec<String>)
        ensures
            exists|vr: Seq<Result<Option<String>, String>>, pr: Seq<Result<Option<String>, String>>| {
                &&& #[trigger] reads_applied(*old(self), *final(self), vr, pr)
                &&& vr.len() == old(self).vpn_profiles@.len()
                &&& pr.len() == old(self).proxy_configs@.len()
                &&& warnings@ == read_errors(vr) + read_errors(pr)
                &&& forall|i: int| 0 <= i < vr.len() ==> (#[trigger] vr[i] matches Err(w)
                    ==> is_profile_load_warning(w@, old(self).vpn_profiles@[i]))
                &&& forall|i: int| 0 <= i < pr.len() ==> (#[trigger] pr[i] matches Err(w)
                    ==> is_proxy_load_warning(w@, old(self).proxy_configs@[i]))
            },
    {
        let reads = self.profile_password_reads();
        let mut vr: Vec<Result<Option<String>, String>> = Vec::new();
        let mut i: usize = 0;
        while i < reads.len()
            invariant
                i <= reads@.len(),
                reads@.len() == self.vpn_profiles@.len(),
                forall|j: int| 0 <= j < reads@.len() ==> read_view(#[trigger] reads@[j]) == profile_read(self.vpn_profiles@[j]),
                vr@.len() == i,
                forall|j: int| 0 <= j < i ==> (#[trigger] vr@[j] matches Err(w)
                    ==> is_profile_load_warning(w@, self.vpn_profiles@[j])),
            decreases reads@.len() - i,
        {
            let r = Self::read_keyring_password(reads[i].key.as_str(), reads[i].read_warning.as_str(),
                reads[i].open_warning.as_str());
            proof { assert(read_view(reads@[i as int]) == profile_read(self.vpn_profiles@[i as int])); }
            vr.push(r);
            i = i + 1;
        }
        let reads = self.proxy_password_reads();
        let mut pr: Vec<Result<Option<String>, String>> = Vec::new();
        let mut i: usize = 0;
        while i < reads.len()
            invariant
                i <= reads@.len(),
                reads@.len() == self.proxy_configs@.len(),
                forall|j: int| 0 <= j < reads@.len() ==> read_view(#[trigger] reads@[j]) == proxy_read(self.proxy_configs@[j]),
                pr@.len() == i,
                forall|j: int| 0 <= j < i ==> (#[trigger] pr@[j] matches Err(w)
                    ==> is_proxy_load_warning(w@, self.proxy_configs@[j])),
            decreases reads@.len() - i,
        {
            let r = Self::read_keyring_password(reads[i].key.as_str(), reads[i].read_warning.as_str(),
                reads[i].open_warning.as_str());
            proof { assert(read_view(reads@[i as int]) == proxy_read(self.proxy_configs@[i as int])); }
            pr.push(r);
            i = i + 1;
        }
        let ghost vrs = vr@;
        let ghost prs = pr@;
        let warnings = self.apply_keyring_reads(vr, pr);
        proof { assert(reads_applied(*old(self), *self, vrs, prs)); }
        warnings
    }

    /// The keyring writes that saving makes for the profiles: one for each
    /// profile with a non-blank password, in order.
    pub fn profile_password_writes(&self) -> (r: Vec<PasswordWrite>)
        ensures
            r@.map_values(|w: PasswordWrite| write_view(w)) == profile_writes(self.vpn_profiles@),
    {
        let mut r: Vec<PasswordWrite> = Vec::new();
        let mut i: usize = 0;
        while i < self.vpn_profiles.len()
            invariant
                i <= self.vpn_profiles@.len(),
                r@.map_values(|w: PasswordWrite| write_view(w)) == profile_writes(self.vpn_profiles@.take(i as int)),
            decreases self.vpn_profiles@.len() - i,
        {
            proof { assert(self.vpn_profiles@.take(i + 1).drop_last() =~= self.vpn_profiles@.take(i as int)); }
            let p = &self.vpn_profiles[i];
            if !str_is_blank(p.password.as_str()) {
                let ghost before = r@;
                r.push(PasswordWrite {
                    key: Self::vpn_password_key(p.id.as_str()),
                    password: p.password.clone(),
                    owner: p.name.clone(),
                });
                proof {
                    assert(r@.map_values(|w: PasswordWrite| write_view(w))
                        =~= before.map_values(|w: PasswordWrite| write_view(w)).push(write_view(r@.last())));
                }
            }
            i = i + 1;
        }
        proof { assert(self.vpn_profiles@.take(self.vpn_profiles@.len() as int) =~= self.vpn_profiles@); }
        r
    }

    /// The keyring writes that saving makes for the proxies: one for each
    /// proxy with a non-blank password, in order.
    pub fn proxy_password_writes(&self) -> (r: Vec<PasswordWrite>)
        ensures
            r@.map_values(|w: PasswordWrite| write_view(w)) == proxy_writes(self.proxy_configs@),
    {
        let mut r: Vec<PasswordWrite> = Vec::new();
        let mut i: usize = 0;
        while i < self.proxy_configs.len()
            invariant
                i <= self.proxy_configs@.len(),
                r@.map_values(|w: PasswordWrite| write_view(w)) == proxy_writes(self.proxy_configs@.take(i as int)),
            decreases self.proxy_configs@.len() - i,
        {
            proof { assert(self.proxy_configs@.take(i + 1).drop_last() =~= self.proxy_configs@.take(i as int)); }
            let p = &self.proxy_configs[i];
            if !str_is_blank(p.password.as_str()) {
                let ghost before = r@;
                r.push(PasswordWrite {
                    key: Self::proxy_password_key(p.id.as_str()),
                    password: p.password.clone(),
                    owner: p.name.clone(),
                });
                proof {
                    assert(r@.map_values(|w: PasswordWrite| write_view(w))
                        =~= before.map_values(|w: PasswordWrite| write_view(w)).push(write_view(r@.last())));
                }
            }
            i = i + 1;
        }
        proof { assert(self.proxy_configs@.take(self.proxy_configs@.len() as int) =~= self.proxy_configs@); }
        r
    }

    /// Saves in the keyring the password of every profile and proxy that has a
    /// non-blank one: each write of [`AppConfig::profile_password_writes`] and
    /// [`AppConfig::proxy_password_writes`], in order, through one keyring save
    /// each. What the keyring answers is not stated; the warnings are exactly
    /// the failures of those saves, in order, each behind its owner's name.
    pub fn store_secrets_in_keyring(&self) -> (warnings: Vec<String>)
        ensures
            exists|vo: Seq<Result<(), String>>, xo: Seq<Result<(), String>>| #[trigger] stores_reported(
                profile_writes(self.vpn_profiles@), vo, proxy_writes(self.proxy_configs@), xo,
                views(warnings@)),
            warnings@.len() <= profile_writes(self.vpn_profiles@).len() + proxy_writes(self.proxy_configs@).len(),
    {
        let pw = self.profile_password_writes();
        let xw = self.proxy_password_writes();
        let ghost ps = profile_writes(self.vpn_profiles@);
        let ghost xs = proxy_writes(self.proxy_configs@);
        let ghost mut vo: Seq<Result<(), String>> = Seq::empty();
        let mut warnings: Vec<String> = Vec::new();
        let mut k: usize = 0;
        while k < pw.len()
            invariant
                k <= pw@.len(),
                pw@.map_values(|w: PasswordWrite| write_view(w)) == ps,
                vo.len() == k,
                outcomes_fit(ps, vo, "No se pudo guardar la contraseña VPN en keyring: "@),
                views(warnings@) == store_texts(ps, vo, true),
                warnings@.len() <= k,
            decreases pw@.len() - k,
        {
            let w = &pw[k];
            let r = Self::store_password(w.key.as_str(), w.password.as_str(),
                "No se pudo guardar la contraseña VPN en keyring: ");
            let ghost rr = r;
            proof {
                assert(ps[k as int] == write_view(pw@[k as int]));
                assert(vo.push(rr).drop_last() =~= vo);
            }
            match r {
                Ok(()) => {},
                Err(e) => {
                    let mut text = cat3("[vpn-desktop] Advertencia: no se pudo guardar la contraseña VPN '",
                        w.owner.as_str(), "' en keyring: ");
                    text.append(e.as_str());
                    warnings.push(text);
                },
            }
            proof {
                vo = vo.push(rr);
                assert(views(warnings@) =~= store_texts(ps, vo, true));
            }
            k = k + 1;
        }
        let ghost first = views(warnings@);
        let ghost mut xo: Seq<Result<(), String>> = Seq::empty();
        let mut k: usize = 0;
        while k < xw.len()
            invariant
                k <= xw@.len(),
                xw@.map_values(|w: PasswordWrite| write_view(w)) == xs,
                ps.len() == pw@.len(),
                vo.len() == ps.len(),
                outcomes_fit(ps, vo, "No se pudo guardar la contraseña VPN en keyring: "@),
                first == store_texts(ps, vo, true),
                first.len() <= ps.len(),
                xo.len() == k,
                outcomes_fit(xs, xo, "No se pudo guardar la contraseña del proxy en keyring: "@),
                views(warnings@) == first + store_texts(xs, xo, false),
                warnings@.len() <= ps.len() + k,
            decreases xw@.len() - k,
        {
            let w = &xw[k];
            let r = Self::store_password(w.key.as_str(), w.password.as_str(),
                "No se pudo guardar la contraseña del proxy en keyring: ");
            let ghost rr = r;
            proof {
                assert(xs[k as int] == write_view(xw@[k as int]));
                assert(xo.push(rr).drop_last() =~= xo);
            }
            let ghost before = warnings@;
            match r {
                Ok(()) => {},
                Err(e) => {
                    let mut text = cat3("[vpn-desktop] Advertencia: no se pudo guardar la contraseña del proxy '",
                        w.owner.as_str(), "' en keyring: ");
                    text.append(e.as_str());
                    warnings.push(text);
                },
            }
            proof {
                let old_texts = store_texts(xs, xo, false);
                xo = xo.push(rr);
                match rr {
                    Err(e) => {
                        assert(store_texts(xs, xo, false) == old_texts.push(proxy_store_head(xs[k as int].2) + e@));
                        assert(views(warnings@) =~= views(before).push(proxy_store_head(xs[k as int].2) + e@));
                    },
                    Ok(_) => {
                        assert(store_texts(xs, xo, false) == old_texts);
                        assert(views(warnings@) =~= views(before));
                    },
                }
                assert(views(warnings@) =~= first + store_texts(xs, xo, false));
            }
            k = k + 1;
        }
        proof { assert(stores_reported(ps, vo, xs, xo, views(warnings@))); }
        warnings
    }
}


/// The identifiers of a list of profiles.
pub open spec fn profile_ids(s: Seq<VpnProfile>) -> Seq<Seq<char>> {
    s.map_values(|p: VpnProfile| p.id@)
}

/// The identifiers of a list of proxies.
pub open spec fn proxy_ids(s: Seq<ProxyConfig>) -> Seq<Seq<char>> {
    s.map_values(|p: ProxyConfig| p.id@)
}

/// The position of the first occurrence of `id` in `ids`, or the length of
/// `ids` when it does not occur.
pub open spec fn first_index(ids: Seq<Seq<char>>, id: Seq<char>) -> int
    decreases ids.len(),
{
    if ids.len() == 0 {
        0
    } else if ids[0] == id {
        0
    } else {
        1 + first_index(ids.drop_first(), id)
    }
}

/// `first_index` is the first position holding `id`, or the length.
pub proof fn lemma_first_index(ids: Seq<Seq<char>>, id: Seq<char>)
    ensures
        0 <= first_index(ids, id) <= ids.len(),
        forall|j: int| 0 <= j < first_index(ids, id) ==> ids[j] != id,
        first_index(ids, id) < ids.len() ==> ids[first_index(ids, id)] == id,
    decreases ids.len(),
{
    if ids.len() > 0 && ids[0] != id {
        let t = ids.drop_first();
        lemma_first_index(t, id);
        assert forall|j: int| 0 <= j < first_index(ids, id) implies ids[j] != id by {
            if j > 0 {
                assert(ids[j] == t[j - 1]);
            }
        }
    }
}

/// A position with `id` and none before it is the first index.
pub proof fn lemma_first_index_at(ids: Seq<Seq<char>>, id: Seq<char>, i: int)
    requires
        0 <= i <= ids.len(),
        forall|j: int| 0 <= j < i ==> ids[j] != id,
        i == ids.len() || ids[i] == id,
    ensures
        first_index(ids, id) == i,
    decreases ids.len(),
{
    if ids.len() > 0 && i > 0 {
        let t = ids.drop_first();
        assert forall|j: int| 0 <= j < i - 1 implies t[j] != id by {
            assert(t[j] == ids[j + 1]);
        }
        if i < ids.len() {
            assert(t[i - 1] == ids[i]);
        }
        lemma_first_index_at(t, id, i - 1);
    }
}

/// No identifier occurs twice.
pub open spec fn unique_ids(ids: Seq<Seq<char>>) -> bool {
    forall|i: int, j: int| 0 <= i < j < ids.len() ==> ids[i] != ids[j]
}

/// A saved profile keeps the stored password when its own is blank.
pub open spec fn merged_profile(new: VpnProfile, existing: VpnProfile) -> VpnProfile {
    if is_blank(new.password@) {
        VpnProfile { password: existing.password, ..new }
    } else {
        new
    }
}

/// A saved proxy keeps the stored password when its own is blank.
pub open spec fn merged_proxy(new: ProxyConfig, existing: ProxyConfig) -> ProxyConfig {
    if is_blank(new.password@) {
        ProxyConfig { password: existing.password, ..new }
    } else {
        new
    }
}

/// The profiles after saving `p`: it replaces the first profile with its
/// identifier, or is added at the end.
pub open spec fn upserted_profiles(s: Seq<VpnProfile>, p: VpnProfile) -> Seq<VpnProfile> {
    let k = first_index(profile_ids(s), p.id@);
    if k < s.len() {
        s.update(k, merged_profile(p, s[k]))
    } else {
        s.push(p)
    }
}

/// The proxies after saving `p`: it replaces the first proxy with its
/// identifier, or is added at the end.
pub open spec fn upserted_proxies(s: Seq<ProxyConfig>, p: ProxyConfig) -> Seq<ProxyConfig> {
    let k = first_index(proxy_ids(s), p.id@);
    if k < s.len() {
        s.update(k, merged_proxy(p, s[k]))
    } else {
        s.push(p)
    }
}

/// The profiles without those whose identifier is `id`, in order.
pub open spec fn without_profile(s: Seq<VpnProfile>, id: Seq<char>) -> Seq<VpnProfile>
    decreases s.len(),
{
    if s.len() == 0 {
        s
    } else {
        let r = without_profile(s.drop_last(), id);
        if s.last().id@ == id { r } else { r.push(s.last()) }
    }
}

/// The proxies without those whose identifier is `id`, in order.
pub open spec fn without_proxy(s: Seq<ProxyConfig>, id: Seq<char>) -> Seq<ProxyConfig>
    decreases s.len(),
{
    if s.len() == 0 {
        s
    } else {
        let r = without_proxy(s.drop_last(), id);
        if s.last().id@ == id { r } else { r.push(s.last()) }
    }
}

/// The profile a lookup of `id` finds: the first with that identifier.
pub open spec fn found_profile(s: Seq<VpnProfile>, id: Seq<char>) -> Option<VpnProfile> {
    let k = first_index(profile_ids(s), id);
    if k < s.len() { Some(s[k]) } else { None }
}

/// The proxy a lookup of `id` finds: the first with that identifier.
pub open spec fn found_proxy(s: Seq<ProxyConfig>, id: Seq<char>) -> Option<ProxyConfig> {
    let k = first_index(proxy_ids(s), id);
    if k < s.len() { Some(s[k]) } else { None }
}

/// The configuration differs from `old` at most in its profiles.
pub open spec fn only_profiles_changed(old: AppConfig, new: AppConfig) -> bool {
    &&& new.settings == old.settings
    &&& new.selected_profile_id == old.selected_profile_id
    &&& new.selected_proxy_id == old.selected_proxy_id
    &&& new.proxy_configs == old.proxy_configs
}

/// The configuration differs from `old` at most in its proxies.
pub open spec fn only_proxies_changed(old: AppConfig, new: AppConfig) -> bool {
    &&& new.settings == old.settings
    &&& new.selected_profile_id == old.selected_profile_id
    &&& new.selected_proxy_id == old.selected_proxy_id
    &&& new.vpn_profiles == old.vpn_profiles
}

impl AppConfig {
    fn profile_position(&self, id: &str) -> (r: usize)
        ensures
            r == first_index(profile_ids(self.vpn_profiles@), id@),
    {
        let ghost ids = profile_ids(self.vpn_profiles@);
        let mut i: usize = 0;
        while i < self.vpn_profiles.len()
            invariant
                i <= self.vpn_profiles@.len(),
                ids == profile_ids(self.vpn_profiles@),
                forall|j: int| 0 <= j < i ==> ids[j] != id@,
            decreases self.vpn_profiles@.len() - i,
        {
            if str_eq(self.vpn_profiles[i].id.as_str(), id) {
                proof { lemma_first_index_at(ids, id@, i as int); }
                return i;
            }
            i = i + 1;
        }
        proof { lemma_first_index_at(ids, id@, i as int); }
        i
    }

    fn proxy_position(&self, id: &str) -> (r: usize)
        ensures
            r == first_index(proxy_ids(self.proxy_configs@), id@),
    {
        let ghost ids = proxy_ids(self.proxy_configs@);
        let mut i: usize = 0;
        while i < self.proxy_configs.len()
            invariant
                i <= self.proxy_configs@.len(),
                ids == proxy_ids(self.proxy_configs@),
                forall|j: int| 0 <= j < i ==> ids[j] != id@,
            decreases self.proxy_configs@.len() - i,
        {
            if str_eq(self.proxy_configs[i].id.as_str(), id) {
                proof { lemma_first_index_at(ids, id@, i as int); }
                return i;
            }
            i = i + 1;
        }
        proof { lemma_first_index_at(ids, id@, i as int); }
        i
    }

    /// The first profile with identifier `id`.
    pub fn find_profile(&self, id: &str) -> (r: Option<&VpnProfile>)
        ensures
            match r {
                Some(p) => found_profile(self.vpn_profiles@, id@) == Some(*p),
                None => found_profile(self.vpn_profiles@, id@) is None,
            },
    {
        let k = self.profile_position(id);
        if k < self.vpn_profiles.len() {
            Some(&self.vpn_profiles[k])
        } else {
            None
        }
    }

    /// The first proxy with identifier `id`.
    pub fn find_proxy(&self, id: &str) -> (r: Option<&ProxyConfig>)
        ensures
            match r {
                Some(p) => found_proxy(self.proxy_configs@, id@) == Some(*p),
                None => found_proxy(self.proxy_configs@, id@) is None,
            },
    {
        let k = self.proxy_position(id);
        if k < self.proxy_configs.len() {
            Some(&self.proxy_configs[k])
        } else {
            None
        }
    }

    /// Saves a profile: it replaces the profile with the same identifier,
    /// keeping the stored password when its own is blank, or is added.
    pub fn upsert_profile(&mut self, profile: VpnProfile)
        ensures
            only_profiles_changed(*old(self), *final(self)),
            final(self).vpn_profiles@ == upserted_profiles(old(self).vpn_profiles@, profile),
    {
        let k = self.profile_position(profile.id.as_str());
        if k < self.vpn_profiles.len() {
            let mut p = profile;
            if str_is_blank(p.password.as_str()) {
                p.password = self.vpn_profiles[k].password.clone();
            }
            self.vpn_profiles.set(k, p);
        } else {
            self.vpn_profiles.push(profile);
        }
    }

    /// Saves a proxy: it replaces the proxy with the same identifier, keeping
    /// the stored password when its own is blank, or is added.
    pub fn upsert_proxy(&mut self, proxy: ProxyConfig)
        ensures
            only_proxies_changed(*old(self), *final(self)),
            final(self).proxy_configs@ == upserted_proxies(old(self).proxy_configs@, proxy),
    {
        let k = self.proxy_position(proxy.id.as_str());
        if k < self.proxy_configs.len() {
            let mut p = proxy;
            if str_is_blank(p.password.as_str()) {
                p.password = self.proxy_configs[k].password.clone();
            }
            self.proxy_configs.set(k, p);
        } else {
            self.proxy_configs.push(proxy);
        }
    }

    /// Removes every profile with identifier `id`.
    pub fn remove_profile(&mut self, id: &str)
        ensures
            only_profiles_changed(*old(self), *final(self)),
            final(self).vpn_profiles@ == without_profile(old(self).vpn_profiles@, id@),
    {
        let mut kept: Vec<VpnProfile> = Vec::new();
        let mut i: usize = 0;
        while i < self.vpn_profiles.len()
            invariant
                i <= self.vpn_profiles@.len(),
                kept@ == without_profile(self.vpn_profiles@.take(i as int), id@),
            decreases self.vpn_profiles@.len() - i,
        {
            proof { assert(self.vpn_profiles@.take(i + 1).drop_last() =~= self.vpn_profiles@.take(i as int)); }
            if !str_eq(self.vpn_profiles[i].id.as_str(), id) {
                kept.push(self.vpn_profiles[i].duplicate());
            }
            i = i + 1;
        }
        assert(self.vpn_profiles@.take(self.vpn_profiles@.len() as int) =~= self.vpn_profiles@);
        self.vpn_profiles = kept;
    }

    /// Removes every proxy with identifier `id`.
    pub fn remove_proxy(&mut self, id: &str)
        ensures
            only_proxies_changed(*old(self), *final(self)),
            final(self).proxy_configs@ == without_proxy(old(self).proxy_configs@, id@),
    {
        let mut kept: Vec<ProxyConfig> = Vec::new();
        let mut i: usize = 0;
        while i < self.proxy_configs.len()
            invariant
                i <= self.proxy_configs@.len(),
                kept@ == without_proxy(self.proxy_configs@.take(i as int), id@),
            decreases self.proxy_configs@.len() - i,
        {
            proof { assert(self.proxy_configs@.take(i + 1).drop_last() =~= self.proxy_configs@.take(i as int)); }
            if !str_eq(self.proxy_configs[i].id.as_str(), id) {
                kept.push(self.proxy_configs[i].duplicate());
            }
            i = i + 1;
        }
        assert(self.proxy_configs@.take(self.proxy_configs@.len() as int) =~= self.proxy_configs@);
        self.proxy_configs = kept;
    }
}


/// `first_index` in a list grown by one identifier.
pub proof fn lemma_first_index_push(ids: Seq<Seq<char>>, x: Seq<char>, id: Seq<char>)
    ensures
        first_index(ids.push(x), id) == (if first_index(ids, id) < ids.len() {
            first_index(ids, id)
        } else if x == id {
            ids.len() as int
        } else {
            (ids.len() + 1) as int
        }),
{
    lemma_first_index(ids, id);
    let t = ids.push(x);
    let k = first_index(ids, id);
    if k < ids.len() {
        assert(t[k] == ids[k]);
        assert forall|j: int| 0 <= j < k implies t[j] != id by { assert(t[j] == ids[j]); }
        lemma_first_index_at(t, id, k);
    } else {
        assert forall|j: int| 0 <= j < ids.len() implies t[j] != id by { assert(t[j] == ids[j]); }
        if x == id {
            lemma_first_index_at(t, id, ids.len() as int);
        } else {
            lemma_first_index_at(t, id, (ids.len() + 1) as int);
        }
    }
}

/// Law: after a profile is saved, looking up its identifier finds it, with
/// the stored password kept when it was saved with a blank one.
pub proof fn law_saved_profile_is_found(s: Seq<VpnProfile>, p: VpnProfile)
    ensures
        found_profile(upserted_profiles(s, p), p.id@) == Some(match found_profile(s, p.id@) {
            Some(existing) => merged_profile(p, existing),
            None => p,
        }),
{
    let ids = profile_ids(s);
    let id = p.id@;
    lemma_first_index(ids, id);
    let k = first_index(ids, id);
    let t = upserted_profiles(s, p);
    if k < s.len() {
        assert(profile_ids(t) =~= ids.update(k, id));
        assert forall|j: int| 0 <= j < k implies profile_ids(t)[j] != id by {}
        lemma_first_index_at(profile_ids(t), id, k);
    } else {
        assert(profile_ids(t) =~= ids.push(id));
        lemma_first_index_push(ids, id, id);
    }
}

/// Law: after a proxy is saved, looking up its identifier finds it, with the
/// stored password kept when it was saved with a blank one.
pub proof fn law_saved_proxy_is_found(s: Seq<ProxyConfig>, p: ProxyConfig)
    ensures
        found_proxy(upserted_proxies(s, p), p.id@) == Some(match found_proxy(s, p.id@) {
            Some(existing) => merged_proxy(p, existing),
            None => p,
        }),
{
    let ids = proxy_ids(s);
    let id = p.id@;
    lemma_first_index(ids, id);
    let k = first_index(ids, id);
    let t = upserted_proxies(s, p);
    if k < s.len() {
        assert(proxy_ids(t) =~= ids.update(k, id));
        assert forall|j: int| 0 <= j < k implies proxy_ids(t)[j] != id by {}
        lemma_first_index_at(proxy_ids(t), id, k);
    } else {
        assert(proxy_ids(t) =~= ids.push(id));
        lemma_first_index_push(ids, id, id);
    }
}

/// Law: saving the same profile twice leaves the same list as saving it once.
pub proof fn law_profile_save_is_idempotent(s: Seq<VpnProfile>, p: VpnProfile)
    ensures
        upserted_profiles(upserted_profiles(s, p), p) == upserted_profiles(s, p),
{
    let ids = profile_ids(s);
    let id = p.id@;
    lemma_first_index(ids, id);
    let k = first_index(ids, id);
    let t = upserted_profiles(s, p);
    if k < s.len() {
        assert(profile_ids(t) =~= ids.update(k, id));
        lemma_first_index_at(profile_ids(t), id, k);
        assert(upserted_profiles(t, p) =~= t);
    } else {
        assert(profile_ids(t) =~= ids.push(id));
        lemma_first_index_push(ids, id, id);
        assert(upserted_profiles(t, p) =~= t);
    }
}

/// Law: saving the same proxy twice leaves the same list as saving it once.
pub proof fn law_proxy_save_is_idempotent(s: Seq<ProxyConfig>, p: ProxyConfig)
    ensures
        upserted_proxies(upserted_proxies(s, p), p) == upserted_proxies(s, p),
{
    let ids = proxy_ids(s);
    let id = p.id@;
    lemma_first_index(ids, id);
    let k = first_index(ids, id);
    let t = upserted_proxies(s, p);
    if k < s.len() {
        assert(proxy_ids(t) =~= ids.update(k, id));
        lemma_first_index_at(proxy_ids(t), id, k);
        assert(upserted_proxies(t, p) =~= t);
    } else {
        assert(proxy_ids(t) =~= ids.push(id));
        lemma_first_index_push(ids, id, id);
        assert(upserted_proxies(t, p) =~= t);
    }
}

/// Law: with identifiers unique, saving a profile whose identifier is already
/// used replaces that profile in place by the saved one, which keeps the stored
/// password when its own is blank, and leaves every other profile as it was;
/// saving a profile with a new identifier appends it.
pub proof fn law_profile_save_replaces_or_appends(s: Seq<VpnProfile>, p: VpnProfile)
    requires
        unique_ids(profile_ids(s)),
    ensures
        forall|i: int| 0 <= i < s.len() && #[trigger] s[i].id@ == p.id@ ==> {
            &&& upserted_profiles(s, p).len() == s.len()
            &&& upserted_profiles(s, p)[i] == merged_profile(p, s[i])
            &&& forall|j: int| 0 <= j < s.len() && j != i ==> #[trigger] upserted_profiles(s, p)[j] == s[j]
        },
        (forall|i: int| 0 <= i < s.len() ==> #[trigger] s[i].id@ != p.id@) ==> upserted_profiles(s, p) == s.push(p),
{
    let ids = profile_ids(s);
    lemma_first_index(ids, p.id@);
    let k = first_index(ids, p.id@);
    assert forall|i: int| 0 <= i < s.len() && #[trigger] s[i].id@ == p.id@ implies k == i by {
        assert(ids[i] == s[i].id@);
        if k < i {
            assert(ids[k] == ids[i]);
        }
    }
    if k == s.len() {
        assert forall|i: int| 0 <= i < s.len() implies #[trigger] s[i].id@ != p.id@ by {
            assert(ids[i] == s[i].id@);
        }
    }
}

/// Law: with identifiers unique, saving a proxy whose identifier is already
/// used replaces that proxy in place by the saved one, which keeps the stored
/// password when its own is blank, and leaves every other proxy as it was;
/// saving a proxy with a new identifier appends it.
pub proof fn law_proxy_save_replaces_or_appends(s: Seq<ProxyConfig>, p: ProxyConfig)
    requires
        unique_ids(proxy_ids(s)),
    ensures
        forall|i: int| 0 <= i < s.len() && #[trigger] s[i].id@ == p.id@ ==> {
            &&& upserted_proxies(s, p).len() == s.len()
            &&& upserted_proxies(s, p)[i] == merged_proxy(p, s[i])
            &&& forall|j: int| 0 <= j < s.len() && j != i ==> #[trigger] upserted_proxies(s, p)[j] == s[j]
        },
        (forall|i: int| 0 <= i < s.len() ==> #[trigger] s[i].id@ != p.id@) ==> upserted_proxies(s, p) == s.push(p),
{
    let ids = proxy_ids(s);
    lemma_first_index(ids, p.id@);
    let k = first_index(ids, p.id@);
    assert forall|i: int| 0 <= i < s.len() && #[trigger] s[i].id@ == p.id@ implies k == i by {
        assert(ids[i] == s[i].id@);
        if k < i {
            assert(ids[k] == ids[i]);
        }
    }
    if k == s.len() {
        assert forall|i: int| 0 <= i < s.len() implies #[trigger] s[i].id@ != p.id@ by {
            assert(ids[i] == s[i].id@);
        }
    }
}

/// Law: saving keeps identifiers unique.
pub proof fn law_profile_save_keeps_ids_unique(s: Seq<VpnProfile>, p: VpnProfile)
    requires
        unique_ids(profile_ids(s)),
    ensures
        unique_ids(profile_ids(upserted_profiles(s, p))),
{
    let ids = profile_ids(s);
    let id = p.id@;
    lemma_first_index(ids, id);
    let k = first_index(ids, id);
    let t = upserted_profiles(s, p);
    if k < s.len() {
        assert(profile_ids(t) =~= ids.update(k, id));
    } else {
        assert(profile_ids(t) =~= ids.push(id));
        assert forall|i: int, j: int| 0 <= i < j < profile_ids(t).len() implies
            profile_ids(t)[i] != profile_ids(t)[j] by {
            if j == ids.len() {
                assert(ids[i] != id);
            }
        }
    }
}

/// Law: saving keeps identifiers unique.
pub proof fn law_proxy_save_keeps_ids_unique(s: Seq<ProxyConfig>, p: ProxyConfig)
    requires
        unique_ids(proxy_ids(s)),
    ensures
        unique_ids(proxy_ids(upserted_proxies(s, p))),
{
    let ids = proxy_ids(s);
    let id = p.id@;
    lemma_first_index(ids, id);
    let k = first_index(ids, id);
    let t = upserted_proxies(s, p);
    if k < s.len() {
        assert(proxy_ids(t) =~= ids.update(k, id));
    } else {
        assert(proxy_ids(t) =~= ids.push(id));
        assert forall|i: int, j: int| 0 <= i < j < proxy_ids(t).len() implies
            proxy_ids(t)[i] != proxy_ids(t)[j] by {
            if j == ids.len() {
                assert(ids[i] != id);
            }
        }
    }
}

/// Law: after the profiles with identifier `id` are removed, a lookup of `id`
/// finds nothing, and a lookup of any other identifier finds what it found before.
pub proof fn law_profile_removal(s: Seq<VpnProfile>, id: Seq<char>, other: Seq<char>)
    ensures
        found_profile(without_profile(s, id), id) is None,
        other != id ==> found_profile(without_profile(s, id), other) == found_profile(s, other),
    decreases s.len(),
{
    if s.len() > 0 {
        let s0 = s.drop_last();
        let x = s.last();
        law_profile_removal(s0, id, other);
        let w0 = without_profile(s0, id);
        assert(s0.push(x) =~= s);
        assert(profile_ids(s) =~= profile_ids(s0).push(x.id@));
        lemma_first_index_push(profile_ids(s0), x.id@, other);
        lemma_first_index(profile_ids(s0), other);
        lemma_first_index(profile_ids(s), other);
        if x.id@ == id {
            assert(without_profile(s, id) == w0);
        } else {
            assert(profile_ids(w0.push(x)) =~= profile_ids(w0).push(x.id@));
            lemma_first_index_push(profile_ids(w0), x.id@, id);
            lemma_first_index_push(profile_ids(w0), x.id@, other);
            lemma_first_index(profile_ids(w0), other);
            lemma_first_index(profile_ids(w0.push(x)), other);
            lemma_first_index(profile_ids(w0), id);
        }
    } else {
        lemma_first_index(profile_ids(s), id);
        lemma_first_index(profile_ids(s), other);
    }
}

/// Law: after the proxies with identifier `id` are removed, a lookup of `id`
/// finds nothing, and a lookup of any other identifier finds what it found before.
pub proof fn law_proxy_removal(s: Seq<ProxyConfig>, id: Seq<char>, other: Seq<char>)
    ensures
        found_proxy(without_proxy(s, id), id) is None,
        other != id ==> found_proxy(without_proxy(s, id), other) == found_proxy(s, other),
    decreases s.len(),
{
    if s.len() > 0 {
        let s0 = s.drop_last();
        let x = s.last();
        law_proxy_removal(s0, id, other);
        let w0 = without_proxy(s0, id);
        assert(s0.push(x) =~= s);
        assert(proxy_ids(s) =~= proxy_ids(s0).push(x.id@));
        lemma_first_index_push(proxy_ids(s0), x.id@, other);
        lemma_first_index(proxy_ids(s0), other);
        lemma_first_index(proxy_ids(s), other);
        if x.id@ == id {
            assert(without_proxy(s, id) == w0);
        } else {
            assert(proxy_ids(w0.push(x)) =~= proxy_ids(w0).push(x.id@));
            lemma_first_index_push(proxy_ids(w0), x.id@, id);
            lemma_first_index_push(proxy_ids(w0), x.id@, other);
            lemma_first_index(proxy_ids(w0), other);
            lemma_first_index(proxy_ids(w0.push(x)), other);
            lemma_first_index(proxy_ids(w0), id);
        }
    } else {
        lemma_first_index(proxy_ids(s), id);
        lemma_first_index(proxy_ids(s), other);
    }
}

} // verus!
