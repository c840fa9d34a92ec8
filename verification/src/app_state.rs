//! What the desktop window decides, apart from drawing it: the selection, the
//! profile and proxy forms, the connection log it shows, notifications, and
//! how lines and diagnoses are presented.
use vstd::prelude::*;
use crate::config::{
    fails_with_either, found_profile, found_proxy, open_failure_prefix, profile_ids, profile_problem, proxy_ids,
    proxy_key_spec, proxy_problem, upserted_profiles, upserted_proxies, verdict_is, vpn_key_spec, without_profile,
    without_proxy, AppConfig, ProxyAuthMethod, ProxyConfig, VpnProfile,
};
use crate::ipc::{clone_opt_string, HealthStatus, HelperHealthReport};
use crate::paths::path_exists;
use crate::text::{cat, cat3, contains, is_blank, lower_contains, contains_lowercased, opt_view, str_eq, str_is_blank};
use crate::vpn::{unknown_view, HelperDiagnosticKind, HelperStatus, VpnEvent, VpnStatus};

verus! {

/// The tabs of the window.
#[derive(Debug, Clone, Copy, PartialEq, Eq, Structural)]
pub enum Tab {
    Connect,
    Profiles,
    Proxies,
}

/// What the user did with an open form.
#[derive(Debug, Clone)]
pub enum FormAction<T> {
    Save { value: T, is_new: bool },
    Cancel,
    Continue { value: T, is_new: bool },
}

/// What the user did with an open form holding `value`: saving wins over
/// cancelling; with neither the form stays open.
pub fn form_outcome<T>(value: T, is_new: bool, save: bool, cancel: bool) -> (r: FormAction<T>)
    ensures
        r == (if save {
            FormAction::Save { value, is_new }
        } else if cancel {
            FormAction::Cancel
        } else {
            FormAction::Continue { value, is_new }
        }),
{
    if save {
        FormAction::Save { value, is_new }
    } else if cancel {
        FormAction::Cancel
    } else {
        FormAction::Continue { value, is_new }
    }
}

/// A message shown at the top of the window.
#[derive(Debug, Clone)]
pub struct Notification {
    pub text: String,
    pub is_error: bool,
}

/// The window keeps at most this many log lines.
pub const MAX_GUI_LOG_LINES: usize = 3000;

/// When the log grows past its bound, this many of the oldest lines go.
pub const GUI_LOG_TRIM: usize = 500;

/// The log after one more line: past the bound, the oldest 500 lines go.
pub open spec fn gui_log_after(logs: Seq<String>, line: String) -> Seq<String> {
    let l = logs.push(line);
    if l.len() > MAX_GUI_LOG_LINES { l.skip(GUI_LOG_TRIM as int) } else { l }
}

/// The identifier of the first profile, if any.
pub open spec fn first_profile_id(s: Seq<VpnProfile>) -> Option<String> {
    if s.len() > 0 { Some(s[0].id) } else { None }
}

/// The identifier of the first proxy, if any.
pub open spec fn first_proxy_id(s: Seq<ProxyConfig>) -> Option<String> {
    if s.len() > 0 { Some(s[0].id) } else { None }
}

/// The profile selected when the window opens: the stored selection when it
/// names a profile of the configuration, otherwise the first profile.
pub open spec fn initial_profile_selection(c: AppConfig) -> Option<String> {
    match c.selected_profile_id {
        Some(id) => if found_profile(c.vpn_profiles@, id@) is Some { Some(id) } else { first_profile_id(c.vpn_profiles@) },
        None => first_profile_id(c.vpn_profiles@),
    }
}

/// The proxy selected when the window opens: the stored selection when it is
/// "no proxy" or names a proxy of the configuration, otherwise the first proxy.
pub open spec fn initial_proxy_selection(c: AppConfig) -> Option<String> {
    match c.selected_proxy_id {
        Some(id) => if found_proxy(c.proxy_configs@, id@) is Some { Some(id) } else { first_proxy_id(c.proxy_configs@) },
        None => None,
    }
}

/// The state of the window apart from what draws it.
#[derive(Debug, Clone)]
pub struct AppState {
    pub config: AppConfig,
    pub current_tab: Tab,
    pub selected_profile_id: Option<String>,
    pub selected_proxy_id: Option<String>,
    pub vpn_status: VpnStatus,
    pub helper_status: HelperStatus,
    pub helper_health_report: Option<HelperHealthReport>,
    pub logs: Vec<String>,
    pub profile_form: Option<(VpnProfile, bool)>,
    pub proxy_form: Option<(ProxyConfig, bool)>,
    pub notification: Option<Notification>,
}

/// The first identifier of a list of profiles, copied.
fn first_profile_id_of(s: &Vec<VpnProfile>) -> (r: Option<String>)
    ensures
        r == first_profile_id(s@),
{
    if s.len() > 0 { Some(s[0].id.clone()) } else { None }
}

/// The first identifier of a list of proxies, copied.
fn first_proxy_id_of(s: &Vec<ProxyConfig>) -> (r: Option<String>)
    ensures
        r == first_proxy_id(s@),
{
    if s.len() > 0 { Some(s[0].id.clone()) } else { None }
}

/// Whether an optional identifier is `id`.
fn is_selected(selected: &Option<String>, id: &str) -> (r: bool)
    ensures
        r == (opt_view(*selected) == Some(id@)),
{
    match selected {
        Some(s) => str_eq(s.as_str(), id),
        None => false,
    }
}

impl AppState {
    /// The window's state for a loaded configuration: the stored selection is
    /// kept where it names an existing profile or proxy (or no proxy), and the
    /// first one is selected otherwise; nothing is connected and the helper is not yet known.
    pub fn new(config: AppConfig) -> (r: Self)
        ensures
            r.config == config,
            r.current_tab == Tab::Connect,
            r.selected_profile_id == initial_profile_selection(config),
            r.selected_proxy_id == initial_proxy_selection(config),
            r.vpn_status == VpnStatus::Disconnected,
            r.helper_status.view() == unknown_view(),
            r.helper_health_report is None,
            r.logs@.len() == 0,
            r.profile_form is None,
            r.proxy_form is None,
            r.notification is None,
    {
        let selected_profile_id = match &config.selected_profile_id {
            Some(id) => if config.find_profile(id.as_str()).is_some() {
                Some(id.clone())
            } else {
                first_profile_id_of(&config.vpn_profiles)
            },
            None => first_profile_id_of(&config.vpn_profiles),
        };
        let selected_proxy_id = match &config.selected_proxy_id {
            Some(id) => if config.find_proxy(id.as_str()).is_some() {
                Some(id.clone())
            } else {
                first_proxy_id_of(&config.proxy_configs)
            },
            None => None,
        };
        AppState {
            config,
            current_tab: Tab::Connect,
            selected_profile_id,
            selected_proxy_id,
            vpn_status: VpnStatus::Disconnected,
            helper_status: HelperStatus::unknown(),
            helper_health_report: None,
            logs: Vec::new(),
            profile_form: None,
            proxy_form: None,
            notification: None,
        }
    }

    /// Copies the current selection into the configuration, so that saving it
    /// keeps the selection for the next start; nothing else changes.
    pub fn remember_selection(&mut self)
        ensures
            *final(self) == (AppState {
                config: AppConfig {
                    selected_profile_id: old(self).selected_profile_id,
                    selected_proxy_id: old(self).selected_proxy_id,
                    ..old(self).config
                },
                ..*old(self)
            }),
    {
        self.config.selected_profile_id = clone_opt_string(&self.selected_profile_id);
        self.config.selected_proxy_id = clone_opt_string(&self.selected_proxy_id);
    }

    /// Shows an error message.
    pub fn notify_error(&mut self, msg: String)
        ensures
            final(self).notification == Some(Notification { text: msg, is_error: true }),
            final(self).config == old(self).config,
            final(self).selected_profile_id == old(self).selected_profile_id,
            final(self).selected_proxy_id == old(self).selected_proxy_id,
            final(self).logs == old(self).logs,
            final(self).profile_form == old(self).profile_form,
            final(self).proxy_form == old(self).proxy_form,
            final(self).vpn_status == old(self).vpn_status,
    {
        self.notification = Some(Notification { text: msg, is_error: true });
    }

    /// Takes in one event of the VPN worker. The log never holds more than
    /// `MAX_GUI_LOG_LINES` lines.
    pub fn apply_vpn_event(&mut self, event: VpnEvent)
        requires
            old(self).logs@.len() <= MAX_GUI_LOG_LINES,
        ensures
            final(self).logs@.len() <= MAX_GUI_LOG_LINES,
            match event {
                VpnEvent::Log(line) => final(self).logs@ == gui_log_after(old(self).logs@, line)
                    && *final(self) == (AppState { logs: final(self).logs, ..*old(self) }),
                VpnEvent::StatusChanged(s) => *final(self) == (AppState { vpn_status: s, ..*old(self) }),
                VpnEvent::HelperStatusChanged(h) => *final(self) == (AppState { helper_status: h, ..*old(self) }),
                VpnEvent::HealthReportChanged(r) => *final(self)
                    == (AppState { helper_health_report: Some(r), ..*old(self) }),
            },
    {
        match event {
            VpnEvent::Log(line) => {
                let ghost before = self.logs@;
                self.logs.push(line);
                if self.logs.len() > MAX_GUI_LOG_LINES {
                    let mut kept: Vec<String> = Vec::new();
                    let mut i: usize = GUI_LOG_TRIM;
                    while i < self.logs.len()
                        invariant
                            GUI_LOG_TRIM <= i <= self.logs@.len(),
                            kept@ == self.logs@.subrange(GUI_LOG_TRIM as int, i as int),
                        decreases self.logs@.len() - i,
                    {
                        kept.push(self.logs[i].clone());
                        i = i + 1;
                        assert(kept@ =~= self.logs@.subrange(GUI_LOG_TRIM as int, i as int));
                    }
                    assert(kept@ =~= self.logs@.skip(GUI_LOG_TRIM as int));
                    self.logs = kept;
                }
            },
            VpnEvent::StatusChanged(status) => {
                self.vpn_status = status;
            },
            VpnEvent::HelperStatusChanged(status) => {
                self.helper_status = status;
            },
            VpnEvent::HealthReportChanged(report) => {
                self.helper_health_report = Some(report);
            },
        }
    }
}


/// What removing the profile `id` does, given how cleaning up its assets went:
/// a failure is shown; the profile is removed and, when it was selected, the
/// first remaining profile is selected.
pub open spec fn profile_removed(old: AppState, new: AppState, id: Seq<char>, cleanup: Result<(), String>) -> bool {
    &&& match cleanup {
        Err(e) => new.notification matches Some(n) && n.is_error && n.text@ == "Error al limpiar archivos del perfil: "@ + e@,
        Ok(_) => new.notification == old.notification,
    }
    &&& new.config.vpn_profiles@ == without_profile(old.config.vpn_profiles@, id)
    &&& new.config.proxy_configs == old.config.proxy_configs
    &&& new.selected_profile_id == if opt_view(old.selected_profile_id) == Some(id) {
        first_profile_id(new.config.vpn_profiles@)
    } else {
        old.selected_profile_id
    }
    &&& new.selected_proxy_id == old.selected_proxy_id
}

/// What removing the proxy `id` does, given how removing its password from
/// the keyring went: a failure is shown with the proxy's name; the proxy is
/// removed and, when it was selected, the first remaining proxy is selected.
pub open spec fn proxy_removed(old: AppState, new: AppState, id: Seq<char>, secret_removal: Result<(), String>) -> bool {
    &&& match (found_proxy(old.config.proxy_configs@, id), secret_removal) {
        (Some(x), Err(e)) => new.notification matches Some(n) && n.is_error
            && n.text@ == "No se pudo eliminar el secreto del proxy '"@ + x.name@ + "': "@ + e@,
        _ => new.notification == old.notification,
    }
    &&& new.config.proxy_configs@ == without_proxy(old.config.proxy_configs@, id)
    &&& new.config.vpn_profiles == old.config.vpn_profiles
    &&& new.selected_proxy_id == if opt_view(old.selected_proxy_id) == Some(id) {
        first_proxy_id(new.config.proxy_configs@)
    } else {
        old.selected_proxy_id
    }
    &&& new.selected_profile_id == old.selected_profile_id
}

/// What saving the profile form does, given whether the profile's
/// configuration file exists: an invalid profile is refused with its problem
/// shown and the form kept open; a valid one is saved and becomes the
/// selection when nothing was selected.
pub open spec fn profile_submitted(
    old: AppState,
    new: AppState,
    value: VpnProfile,
    is_new: bool,
    file_exists: bool,
    saved: bool,
) -> bool {
    &&& saved == (profile_problem(value, file_exists) is None)
    &&& !saved ==> {
        &&& new.notification matches Some(n) && n.is_error && Some(n.text@) == profile_problem(value, file_exists)
        &&& new.profile_form == Some((value, is_new))
        &&& new.config == old.config
        &&& new.selected_profile_id == old.selected_profile_id
    }
    &&& saved ==> {
        &&& new.config.vpn_profiles@ == upserted_profiles(old.config.vpn_profiles@, value)
        &&& new.config.proxy_configs == old.config.proxy_configs
        &&& new.selected_profile_id == match old.selected_profile_id {
            Some(id) => Some(id),
            None => Some(value.id),
        }
        &&& new.profile_form == old.profile_form
        &&& new.notification == old.notification
    }
    &&& new.selected_proxy_id == old.selected_proxy_id
}

impl AppState {
    /// The profile form was saved, given whether its configuration file
    /// exists. An invalid profile is refused with its problem shown and the
    /// form kept open; a valid one is saved in the configuration and becomes
    /// the selection when nothing was selected. Returns whether it was saved,
    /// so that the configuration is written.
    pub fn submit_profile_form_with(&mut self, value: VpnProfile, is_new: bool, file_exists: bool) -> (saved: bool)
        ensures
            profile_submitted(*old(self), *final(self), value, is_new, file_exists, saved),
    {
        match value.validate_with_file(file_exists) {
            Err(err) => {
                self.notify_error(err);
                self.profile_form = Some((value, is_new));
                false
            },
            Ok(()) => {
                let profile_id = value.id.clone();
                self.config.upsert_profile(value);
                if self.selected_profile_id.is_none() {
                    self.selected_profile_id = Some(profile_id);
                }
                true
            },
        }
    }

    /// The profile form was saved; whether its configuration file exists is
    /// asked of the file system once its name and path are given.
    pub fn submit_profile_form(&mut self, value: VpnProfile, is_new: bool) -> (saved: bool)
        ensures
            exists|found: bool| #[trigger] profile_submitted(*old(self), *final(self), value, is_new, found, saved),
            is_blank(value.name@) || is_blank(value.config_file@)
                ==> profile_submitted(*old(self), *final(self), value, is_new, true, saved),
    {
        if str_is_blank(value.name.as_str()) || str_is_blank(value.config_file.as_str()) {
            return self.submit_profile_form_with(value, is_new, true);
        }
        let found = path_exists(value.config_file.as_str());
        self.submit_profile_form_with(value, is_new, found)
    }

    /// The proxy form was saved. An invalid proxy is refused with its problem
    /// shown and the form kept open; a valid one is saved in the configuration
    /// and becomes the selection when nothing was selected. Returns whether it
    /// was saved.
    pub fn submit_proxy_form(&mut self, value: ProxyConfig, is_new: bool) -> (saved: bool)
        ensures
            saved == (proxy_problem(value) is None),
            !saved ==> ({
                &&& final(self).notification matches Some(n) && n.is_error && Some(n.text@) == proxy_problem(value)
                &&& final(self).proxy_form == Some((value, is_new))
                &&& final(self).config == old(self).config
                &&& final(self).selected_proxy_id == old(self).selected_proxy_id
            }),
            saved ==> ({
                &&& final(self).config.proxy_configs@ == upserted_proxies(old(self).config.proxy_configs@, value)
                &&& final(self).config.vpn_profiles == old(self).config.vpn_profiles
                &&& final(self).selected_proxy_id == match old(self).selected_proxy_id {
                    Some(id) => Some(id),
                    None => Some(value.id),
                }
                &&& final(self).proxy_form == old(self).proxy_form
                &&& final(self).notification == old(self).notification
            }),
            final(self).selected_profile_id == old(self).selected_profile_id,
    {
        match value.validate() {
            Err(err) => {
                self.notify_error(err);
                self.proxy_form = Some((value, is_new));
                false
            },
            Ok(()) => {
                let proxy_id = value.id.clone();
                self.config.upsert_proxy(value);
                if self.selected_proxy_id.is_none() {
                    self.selected_proxy_id = Some(proxy_id);
                }
                true
            },
        }
    }

    /// Opens the form for the profile `id`, if there is one.
    pub fn edit_profile(&mut self, id: &str)
        ensures
            match found_profile(old(self).config.vpn_profiles@, id@) {
                Some(p) => final(self).profile_form == Some((p, false)),
                None => final(self).profile_form == old(self).profile_form,
            },
            final(self).config == old(self).config,
    {
        match self.config.find_profile(id) {
            Some(p) => {
                let copy = p.duplicate();
                self.profile_form = Some((copy, false));
            },
            None => {},
        }
    }

    /// Opens the form for the proxy `id`, if there is one.
    pub fn edit_proxy(&mut self, id: &str)
        ensures
            match found_proxy(old(self).config.proxy_configs@, id@) {
                Some(p) => final(self).proxy_form == Some((p, false)),
                None => final(self).proxy_form == old(self).proxy_form,
            },
            final(self).config == old(self).config,
    {
        match self.config.find_proxy(id) {
            Some(p) => {
                let copy = p.duplicate();
                self.proxy_form = Some((copy, false));
            },
            None => {},
        }
    }

    /// Drops the profile `id` from the configuration; when it was selected,
    /// the first remaining profile is selected instead.
    pub fn remove_profile(&mut self, id: &str)
        ensures
            final(self).config.vpn_profiles@ == without_profile(old(self).config.vpn_profiles@, id@),
            final(self).config.proxy_configs == old(self).config.proxy_configs,
            final(self).selected_profile_id == if opt_view(old(self).selected_profile_id) == Some(id@) {
                first_profile_id(final(self).config.vpn_profiles@)
            } else {
                old(self).selected_profile_id
            },
            final(self).selected_proxy_id == old(self).selected_proxy_id,
            final(self).notification == old(self).notification,
    {
        self.config.remove_profile(id);
        if is_selected(&self.selected_profile_id, id) {
            self.selected_profile_id = first_profile_id_of(&self.config.vpn_profiles);
        }
    }

    /// Drops the proxy `id` from the configuration; when it was selected, the
    /// first remaining proxy is selected instead.
    pub fn remove_proxy(&mut self, id: &str)
        ensures
            final(self).config.proxy_configs@ == without_proxy(old(self).config.proxy_configs@, id@),
            final(self).config.vpn_profiles == old(self).config.vpn_profiles,
            final(self).selected_proxy_id == if opt_view(old(self).selected_proxy_id) == Some(id@) {
                first_proxy_id(final(self).config.proxy_configs@)
            } else {
                old(self).selected_proxy_id
            },
            final(self).selected_profile_id == old(self).selected_profile_id,
            final(self).notification == old(self).notification,
    {
        self.config.remove_proxy(id);
        if is_selected(&self.selected_proxy_id, id) {
            self.selected_proxy_id = first_proxy_id_of(&self.config.proxy_configs);
        }
    }

    /// Removes the profile `id` once cleaning up its assets came out as
    /// `cleanup`, as [`profile_removed`] says.
    pub fn remove_profile_with(&mut self, id: &str, cleanup: Result<(), String>)
        ensures
            profile_removed(*old(self), *final(self), id@, cleanup),
    {
        if let Err(e) = cleanup {
            self.notify_error(cat("Error al limpiar archivos del perfil: ", e.as_str()));
        }
        self.remove_profile(id);
    }

    /// Deletes the profile `id` on the user's request, given how deleting its
    /// imported OpenVPN file went: its keyring password is removed through
    /// [`AppConfig::cleanup_profile_assets`] when the profile exists, and the
    /// outcome is taken in as [`profile_removed`] says.
    pub fn delete_profile(&mut self, id: &str, file_removal: Result<(), String>)
        ensures
            exists|cleanup: Result<(), String>| {
                &&& #[trigger] profile_removed(*old(self), *final(self), id@, cleanup)
                &&& match found_profile(old(self).config.vpn_profiles@, id@) {
                    None => cleanup is Ok,
                    Some(p) => {
                        &&& file_removal is Err ==> cleanup == file_removal
                        &&& file_removal is Ok ==> fails_with_either(cleanup, open_failure_prefix(vpn_key_spec(p.id@)),
                            "No se pudo eliminar la contraseña VPN del keyring: "@)
                    },
                }
            },
    {
        let cleanup = match self.config.find_profile(id) {
            Some(p) => AppConfig::cleanup_profile_assets(p, file_removal),
            None => Ok(()),
        };
        let ghost c = cleanup;
        self.remove_profile_with(id, cleanup);
        proof { assert(profile_removed(*old(self), *self, id@, c)); }
    }

    /// Removes the proxy `id` once removing its keyring password came out as
    /// `secret_removal`, as [`proxy_removed`] says.
    pub fn remove_proxy_with(&mut self, id: &str, secret_removal: Result<(), String>)
        ensures
            proxy_removed(*old(self), *final(self), id@, secret_removal),
    {
        let name = match self.config.find_proxy(id) {
            Some(x) => Some(x.name.clone()),
            None => None,
        };
        match (name, secret_removal) {
            (Some(name), Err(e)) => {
                let mut text = cat3("No se pudo eliminar el secreto del proxy '", name.as_str(), "': ");
                text.append(e.as_str());
                self.notify_error(text);
            },
            _ => {},
        }
        self.remove_proxy(id);
    }

    /// Deletes the proxy `id` on the user's request: its keyring password is
    /// removed when the proxy exists, and the outcome is taken in as
    /// [`proxy_removed`] says.
    pub fn delete_proxy(&mut self, id: &str)
        ensures
            exists|secret_removal: Result<(), String>| {
                &&& #[trigger] proxy_removed(*old(self), *final(self), id@, secret_removal)
                &&& match found_proxy(old(self).config.proxy_configs@, id@) {
                    None => secret_removal is Ok,
                    Some(x) => fails_with_either(secret_removal, open_failure_prefix(proxy_key_spec(x.id@)),
                        "No se pudo eliminar la contraseña del proxy del keyring: "@),
                }
            },
    {
        let outcome = match self.config.find_proxy(id) {
            Some(x) => AppConfig::delete_proxy_password(x),
            None => Ok(()),
        };
        let ghost o = outcome;
        self.remove_proxy_with(id, outcome);
        proof { assert(proxy_removed(*old(self), *self, id@, o)); }
    }

    /// The selected proxy, if one is selected and exists.
    fn selected_proxy(&self) -> (r: Option<ProxyConfig>)
        ensures
            r == match self.selected_proxy_id {
                Some(id) => found_proxy(self.config.proxy_configs@, id@),
                None => None,
            },
    {
        match &self.selected_proxy_id {
            Some(id) => match self.config.find_proxy(id.as_str()) {
                Some(p) => Some(p.duplicate()),
                None => None,
            },
            None => None,
        }
    }

    /// What pressing "connect" does, given whether the selected profile's
    /// configuration file exists: with no selection nothing; a selected
    /// profile that is missing or invalid, or an invalid selected proxy, is
    /// reported; otherwise the log is cleared and the profile and proxy to
    /// connect with are returned.
    pub fn prepare_connect_with(&mut self, file_exists: bool) -> (r: Option<(VpnProfile, Option<ProxyConfig>)>)
        ensures
            final(self).config == old(self).config,
            final(self).selected_profile_id == old(self).selected_profile_id,
            final(self).selected_proxy_id == old(self).selected_proxy_id,
            connect_outcome(*old(self), *final(self), file_exists, r),
    {
        let profile_id = match &self.selected_profile_id {
            Some(id) => id.clone(),
            None => return None,
        };
        let profile = match self.config.find_profile(profile_id.as_str()) {
            Some(p) => p.duplicate(),
            None => {
                self.notify_error(String::from_str("Perfil VPN no encontrado."));
                return None;
            },
        };
        if let Err(err) = profile.validate_with_file(file_exists) {
            self.notify_error(err);
            return None;
        }
        let proxy = self.selected_proxy();
        if let Some(selected) = &proxy {
            if let Err(err) = selected.validate() {
                self.notify_error(err);
                return None;
            }
        }
        self.logs = Vec::new();
        Some((profile, proxy))
    }

    /// What pressing "connect" does; whether the selected profile's
    /// configuration file exists is asked of the file system.
    pub fn prepare_connect(&mut self) -> (r: Option<(VpnProfile, Option<ProxyConfig>)>)
        ensures
            final(self).config == old(self).config,
            final(self).selected_profile_id == old(self).selected_profile_id,
            final(self).selected_proxy_id == old(self).selected_proxy_id,
            exists|found: bool| #[trigger] connect_outcome(*old(self), *final(self), found, r),
    {
        let found = match &self.selected_profile_id {
            Some(id) => match self.config.find_profile(id.as_str()) {
                Some(p) => if str_is_blank(p.name.as_str()) || str_is_blank(p.config_file.as_str()) {
                    true
                } else {
                    path_exists(p.config_file.as_str())
                },
                None => true,
            },
            None => true,
        };
        self.prepare_connect_with(found)
    }
}

/// What pressing "connect" leads to, given whether the selected profile's
/// configuration file exists.
pub open spec fn connect_outcome(old: AppState, new: AppState, file_exists: bool, r: Option<(VpnProfile, Option<ProxyConfig>)>) -> bool {
    match old.selected_profile_id {
        None => r is None && new == old,
        Some(pid) => match found_profile(old.config.vpn_profiles@, pid@) {
            None => {
                &&& r is None
                &&& new.notification matches Some(n) && n.is_error
                    && n.text@ == "Perfil VPN no encontrado."@
            },
            Some(p) => {
                let proxy = match old.selected_proxy_id {
                    Some(x) => found_proxy(old.config.proxy_configs@, x@),
                    None => None,
                };
                match profile_problem(p, file_exists) {
                    Some(e) => r is None && (new.notification matches Some(n) && n.is_error && n.text@ == e),
                    None => match proxy {
                        Some(x) if proxy_problem(x) is Some => r is None
                            && (new.notification matches Some(n) && n.is_error
                                && Some(n.text@) == proxy_problem(x)),
                        _ => r == Some((p, proxy)) && new.logs@.len() == 0,
                    },
                }
            },
        },
    }
}

/// Selects an authentication method in the proxy form; a method without
/// credentials clears the user name and password.
pub fn choose_auth_method(form: &mut ProxyConfig, method: ProxyAuthMethod)
    ensures
        final(form).auth_method == method,
        final(form).id == old(form).id,
        final(form).name == old(form).name,
        final(form).host == old(form).host,
        final(form).port == old(form).port,
        method != ProxyAuthMethod::NoAuth ==> final(form).username == old(form).username
            && final(form).password == old(form).password,
        method == ProxyAuthMethod::NoAuth ==> final(form).username@.len() == 0 && final(form).password@.len() == 0,
{
    form.auth_method = method;
    if !method.needs_auth_file() {
        form.username = String::new();
        form.password = String::new();
    }
}

/// The port entered in the proxy form, held between 1 and 65535.
pub fn clamp_port(port: i32) -> (r: u16)
    ensures
        r == if port < 1 { 1int } else if port > 65535 { 65535int } else { port as int },
{
    if port < 1 {
        1
    } else if port > 65535 {
        65535
    } else {
        port as u16
    }
}

/// Whether the profile form may be saved: it has a name and a configuration file.
pub fn profile_form_can_save(form: &VpnProfile) -> (r: bool)
    ensures
        r == (!is_blank(form.name@) && !is_blank(form.config_file@)),
{
    !str_is_blank(form.name.as_str()) && !str_is_blank(form.config_file.as_str())
}

/// Whether the proxy form may be saved: it has a name and a host.
pub fn proxy_form_can_save(form: &ProxyConfig) -> (r: bool)
    ensures
        r == (!is_blank(form.name@) && !is_blank(form.host@)),
{
    !str_is_blank(form.name.as_str()) && !str_is_blank(form.host.as_str())
}

/// How a line of the connection log is coloured.
#[derive(Debug, Clone, Copy, PartialEq, Eq)]
pub enum LogTone {
    Header,
    Success,
    Failure,
    Warning,
    Command,
    Connected,
    Plain,
}

/// The tone of a log line: a rule line, OpenVPN's ready line, errors,
/// warnings, a shown command, connection notes, and the rest.
pub open spec fn log_tone(line: Seq<char>) -> LogTone {
    if line.len() > 0 && line[0] == '━' {
        LogTone::Header
    } else if lower_contains(line, "initialization sequence completed"@) {
        LogTone::Success
    } else if lower_contains(line, "[e]"@) || lower_contains(line, "error"@) || lower_contains(line, "failed"@)
        || lower_contains(line, "fatal"@) {
        LogTone::Failure
    } else if lower_contains(line, "warning"@) || lower_contains(line, "warn"@) {
        LogTone::Warning
    } else if line.len() > 0 && line[0] == '$' {
        LogTone::Command
    } else if lower_contains(line, "connected"@) || lower_contains(line, "tunnel"@) {
        LogTone::Connected
    } else {
        LogTone::Plain
    }
}

/// Executable form of [`log_tone`].
pub fn log_line_tone(line: &str) -> (r: LogTone)
    ensures
        r == log_tone(line@),
{
    let n = line.unicode_len();
    let first = if n > 0 { Some(line.get_char(0)) } else { None };
    if first == Some('━') {
        LogTone::Header
    } else if contains_lowercased(line, "initialization sequence completed") {
        LogTone::Success
    } else if contains_lowercased(line, "[e]") || contains_lowercased(line, "error")
        || contains_lowercased(line, "failed") || contains_lowercased(line, "fatal") {
        LogTone::Failure
    } else if contains_lowercased(line, "warning") || contains_lowercased(line, "warn") {
        LogTone::Warning
    } else if first == Some('$') {
        LogTone::Command
    } else if contains_lowercased(line, "connected") || contains_lowercased(line, "tunnel") {
        LogTone::Connected
    } else {
        LogTone::Plain
    }
}

/// How a diagnosis card is coloured.
#[derive(Debug, Clone, Copy, PartialEq, Eq, Structural)]
pub enum CardTone {
    Good,
    Caution,
    Bad,
}

/// The tone of an environment check.
pub fn health_tone(status: HealthStatus) -> (r: CardTone)
    ensures
        r == match status {
            HealthStatus::Healthy => CardTone::Good,
            HealthStatus::Warn => CardTone::Caution,
            HealthStatus::Error => CardTone::Bad,
        },
{
    match status {
        HealthStatus::Healthy => CardTone::Good,
        HealthStatus::Warn => CardTone::Caution,
        HealthStatus::Error => CardTone::Bad,
    }
}

/// The title, summary and tone of the helper card for each diagnosis.
pub open spec fn helper_card(kind: HelperDiagnosticKind) -> (Seq<char>, Seq<char>, CardTone) {
    match kind {
        HelperDiagnosticKind::Connected => ("✅ Helper disponible"@,
            "La GUI puede comunicarse con el helper privilegiado."@, CardTone::Good),
        HelperDiagnosticKind::MissingSocket => ("⚠ Socket del helper no encontrado"@,
            "No se encontró el socket esperado del helper root."@, CardTone::Caution),
        HelperDiagnosticKind::PermissionDenied => ("🔐 Permisos insuficientes"@,
            "Tu usuario no puede acceder al socket del helper."@, CardTone::Caution),
        HelperDiagnosticKind::ConnectionLost => ("⚠ Conexión con el helper interrumpida"@,
            "La GUI perdió la comunicación con `vpn-desktopd`."@, CardTone::Caution),
        HelperDiagnosticKind::OpenVpnMissing => ("📦 OpenVPN no disponible"@,
            "El helper no pudo lanzar `openvpn` correctamente."@, CardTone::Bad),
        HelperDiagnosticKind::OpenVpnUnavailable => ("📦 OpenVPN no detectado en el entorno"@,
            "El helper no detecta `openvpn` correctamente en el sistema."@, CardTone::Bad),
        HelperDiagnosticKind::Other => ("⚠ Estado del helper con incidencias"@,
            "Se detectó un problema relacionado con el helper o su runtime."@, CardTone::Caution),
        HelperDiagnosticKind::Unknown => ("⏳ Comprobando helper"@,
            "La aplicación está esperando confirmar la disponibilidad del helper privilegiado."@, CardTone::Caution),
    }
}

/// Executable form of [`helper_card`].
pub fn helper_card_text(kind: HelperDiagnosticKind) -> (r: (&'static str, &'static str, CardTone))
    ensures
        (r.0@, r.1@, r.2) == helper_card(kind),
{
    match kind {
        HelperDiagnosticKind::Connected => ("✅ Helper disponible",
            "La GUI puede comunicarse con el helper privilegiado.", CardTone::Good),
        HelperDiagnosticKind::MissingSocket => ("⚠ Socket del helper no encontrado",
            "No se encontró el socket esperado del helper root.", CardTone::Caution),
        HelperDiagnosticKind::PermissionDenied => ("🔐 Permisos insuficientes",
            "Tu usuario no puede acceder al socket del helper.", CardTone::Caution),
        HelperDiagnosticKind::ConnectionLost => ("⚠ Conexión con el helper interrumpida",
            "La GUI perdió la comunicación con `vpn-desktopd`.", CardTone::Caution),
        HelperDiagnosticKind::OpenVpnMissing => ("📦 OpenVPN no disponible",
            "El helper no pudo lanzar `openvpn` correctamente.", CardTone::Bad),
        HelperDiagnosticKind::OpenVpnUnavailable => ("📦 OpenVPN no detectado en el entorno",
            "El helper no detecta `openvpn` correctamente en el sistema.", CardTone::Bad),
        HelperDiagnosticKind::Other => ("⚠ Estado del helper con incidencias",
            "Se detectó un problema relacionado con el helper o su runtime.", CardTone::Caution),
        HelperDiagnosticKind::Unknown => ("⏳ Comprobando helper",
            "La aplicación está esperando confirmar la disponibilidad del helper privilegiado.", CardTone::Caution),
    }
}

/// What the tray menu asks of the window.
#[derive(Debug, Clone, Copy, PartialEq, Eq)]
pub enum TrayAction {
    ToggleWindow,
    Quit,
}

/// One step the window takes in answer to the tray or to being closed.
#[derive(Debug, Clone, Copy, PartialEq, Eq)]
pub enum WindowEffect {
    /// Show or hide the window.
    SetVisible(bool),
    /// Drop a pending automatic reconnection.
    CancelReconnect,
    /// Ask the helper to disconnect the VPN.
    DisconnectVpn,
    /// Wait this many milliseconds, so that the request leaves.
    Pause(u64),
    /// Close the window.
    Close,
}

/// How long the window waits after asking for the disconnection before it closes.
pub const SHUTDOWN_PAUSE_MS: u64 = 60;

/// What the window does when it closes of its own accord: it drops a pending
/// reconnection, asks the helper to disconnect, and waits for the request to leave.
pub open spec fn closing_effects() -> Seq<WindowEffect> {
    seq![WindowEffect::CancelReconnect, WindowEffect::DisconnectVpn, WindowEffect::Pause(SHUTDOWN_PAUSE_MS)]
}

/// What quitting does: the closing steps, then closing the window.
pub open spec fn quitting_effects() -> Seq<WindowEffect> {
    closing_effects().push(WindowEffect::Close)
}

/// The steps for a window that is being closed by the system.
pub fn close_request_effects() -> (r: Vec<WindowEffect>)
    ensures
        r@ == closing_effects(),
{
    let mut r: Vec<WindowEffect> = Vec::new();
    r.push(WindowEffect::CancelReconnect);
    r.push(WindowEffect::DisconnectVpn);
    r.push(WindowEffect::Pause(SHUTDOWN_PAUSE_MS));
    assert(r@ =~= closing_effects());
    r
}

/// The steps for quitting, from the close button or the tray.
pub fn quit_effects() -> (r: Vec<WindowEffect>)
    ensures
        r@ == quitting_effects(),
{
    let mut r = close_request_effects();
    r.push(WindowEffect::Close);
    r
}

/// The answer to a tray action, given whether the window is visible: the
/// visibility afterwards and the steps to take. Toggling flips the window's
/// visibility; quitting leaves it and closes the application.
pub fn tray_effects(visible: bool, action: TrayAction) -> (r: (bool, Vec<WindowEffect>))
    ensures
        match action {
            TrayAction::ToggleWindow => r.0 == !visible && r.1@ == seq![WindowEffect::SetVisible(!visible)],
            TrayAction::Quit => r.0 == visible && r.1@ == quitting_effects(),
        },
{
    match action {
        TrayAction::ToggleWindow => {
            let mut r: Vec<WindowEffect> = Vec::new();
            r.push(WindowEffect::SetVisible(!visible));
            assert(r@ =~= seq![WindowEffect::SetVisible(!visible)]);
            (!visible, r)
        },
        TrayAction::Quit => (visible, quit_effects()),
    }
}

/// Law: a log line that is neither a rule line nor OpenVPN's ready line is
/// shown as a failure whenever it mentions, in any letter case, `error`,
/// `failed`, `fatal` or `[e]`.
pub proof fn law_error_lines_are_failures(line: Seq<char>)
    requires
        !(line.len() > 0 && line[0] == '━'),
        !lower_contains(line, "initialization sequence completed"@),
        lower_contains(line, "error"@) || lower_contains(line, "failed"@) || lower_contains(line, "fatal"@)
            || lower_contains(line, "[e]"@),
    ensures
        log_tone(line) == LogTone::Failure,
{
}

} // verus!
