//! The decisions behind the commands that the shell offers to its web view:
//! settings, consent, connectivity, and what the system said about `kubectl`.
//!
//! The shell reads files and asks the system; the functions here take what it
//! found and say what the command answers.

use vstd::prelude::*;
use vstd::string::*;
use crate::backend_ports::BACKEND_PORT;
use crate::probe::{spec_health_outcome, check_health, ProbeResult};
use crate::text::{opt_view, trim, trimmed};

verus! {

/// The message for a kubeconfig that could not be read. It names neither the
/// path nor the content, so that no secret reaches a log.
pub fn kubeconfig_read_error() -> (res: String)
    ensures
        res@ == "Failed to read kubeconfig at configured path"@,
{
    String::from_str("Failed to read kubeconfig at configured path")
}

/// The message for a kubeconfig that is no valid document.
pub fn kubeconfig_parse_error() -> (res: String)
    ensures
        res@ == "Failed to parse kubeconfig"@,
{
    String::from_str("Failed to parse kubeconfig")
}

/// The message for a kubeconfig that could not be written.
pub fn kubeconfig_write_error() -> (res: String)
    ensures
        res@ == "Failed to write kubeconfig"@,
{
    String::from_str("Failed to write kubeconfig")
}

/// One context of a kubeconfig.
#[derive(Debug, PartialEq, Eq)]
pub struct KubeconfigContext {
    pub name: String,
    pub cluster: String,
    pub user: String,
    pub namespace: Option<String>,
}

/// What a kubeconfig file holds, as far as the shell shows it.
#[derive(Debug, PartialEq, Eq)]
pub struct KubeconfigInfo {
    pub path: String,
    pub current_context: Option<String>,
    pub contexts: Vec<KubeconfigContext>,
}

/// What the shell remembers about the operator's kubeconfig.
#[derive(Debug, PartialEq, Eq)]
pub struct KubeconfigSecuritySettings {
    pub selected_contexts: Vec<String>,
    pub kubeconfig_path: Option<String>,
    /// The kubeconfig, encrypted and encoded in Base64.
    pub encrypted_kubeconfig: Option<String>,
    pub first_launch_completed: bool,
}

impl KubeconfigSecuritySettings {
    /// The settings of a shell that was never launched: nothing selected,
    /// nothing stored.
    pub fn initial() -> (res: Self)
        ensures
            res.selected_contexts@.len() == 0,
            res.kubeconfig_path is None,
            res.encrypted_kubeconfig is None,
            !res.first_launch_completed,
    {
        KubeconfigSecuritySettings {
            selected_contexts: Vec::new(),
            kubeconfig_path: None,
            encrypted_kubeconfig: None,
            first_launch_completed: false,
        }
    }
}

/// The contexts that the operator selected.
pub fn get_selected_contexts(settings: KubeconfigSecuritySettings) -> (res: Vec<String>)
    ensures
        res == settings.selected_contexts,
{
    settings.selected_contexts
}

/// Replaces the selected contexts.
pub fn save_selected_contexts(settings: &mut KubeconfigSecuritySettings, contexts: Vec<String>)
    ensures
        *final(settings) == (KubeconfigSecuritySettings {
            selected_contexts: contexts,
            ..*old(settings)
        }),
{
    settings.selected_contexts = contexts;
}

/// Whether this launch is the first.
pub fn is_first_launch(settings: &KubeconfigSecuritySettings) -> (res: bool)
    ensures
        res == !settings.first_launch_completed,
{
    !settings.first_launch_completed
}

/// Records that the first launch is over.
pub fn mark_first_launch_complete(settings: &mut KubeconfigSecuritySettings)
    ensures
        *final(settings) == (KubeconfigSecuritySettings {
            first_launch_completed: true,
            ..*old(settings)
        }),
{
    settings.first_launch_completed = true;
}

/// Records the path of the kubeconfig that the operator chose.
pub fn save_custom_kubeconfig_path(settings: &mut KubeconfigSecuritySettings, path: String)
    ensures
        *final(settings) == (KubeconfigSecuritySettings {
            kubeconfig_path: Some(path),
            ..*old(settings)
        }),
{
    settings.kubeconfig_path = Some(path);
}

/// The path of the kubeconfig that the operator chose, if any.
pub fn get_custom_kubeconfig_path(settings: KubeconfigSecuritySettings) -> (res: Option<String>)
    ensures
        res == settings.kubeconfig_path,
{
    settings.kubeconfig_path
}

/// No dialog is opened on this side: the web view shows it, and this answer is empty.
pub fn browse_for_kubeconfig() -> (res: Result<Option<String>, String>)
    ensures
        res == Ok::<Option<String>, String>(None),
{
    Ok(None)
}

/// Whether an update is waiting: never, as far as the shell itself can tell,
/// since the updater looks for updates by its own configuration.
pub fn check_for_updates() -> (res: Result<bool, String>)
    ensures
        res == Ok::<bool, String>(false),
{
    Ok(false)
}

/// Installing an update by hand is refused: the updater does it by itself.
pub fn install_update() -> (res: Result<(), String>)
    ensures
        res matches Err(message) && message@
            == "Updates are handled automatically by the updater plugin"@,
{
    Err(String::from_str("Updates are handled automatically by the updater plugin"))
}

/// Where the kubeconfig is read from.
pub open spec fn spec_kubeconfig_path(
    requested: Option<Seq<char>>,
    custom: Option<Seq<char>>,
    default_path: Option<Seq<char>>,
) -> Result<Seq<char>, Seq<char>> {
    match requested {
        Some(path) => Ok(path),
        None => match custom {
            Some(path) => Ok(path),
            None => match default_path {
                Some(path) => Ok(path),
                None => Err("Could not find home directory"@),
            },
        },
    }
}

/// Chooses the kubeconfig: the path that the caller asked for, else the path
/// that the operator stored in the settings, else the default below the home
/// directory. `custom` is `None` also where the settings could not be loaded;
/// `default_path` is `None` where the home directory is unknown.
pub fn get_kubeconfig_path(
    requested: Option<String>,
    custom: Option<String>,
    default_path: Option<String>,
) -> (res: Result<String, String>)
    ensures
        match res {
            Ok(path) => spec_kubeconfig_path(
                opt_view(requested),
                opt_view(custom),
                opt_view(default_path),
            ) == Ok::<Seq<char>, Seq<char>>(path@),
            Err(message) => spec_kubeconfig_path(
                opt_view(requested),
                opt_view(custom),
                opt_view(default_path),
            ) == Err::<Seq<char>, Seq<char>>(message@),
        },
{
    match requested {
        Some(path) => Ok(path),
        None => match custom {
            Some(path) => Ok(path),
            None => match default_path {
                Some(path) => Ok(path),
                None => Err(String::from_str("Could not find home directory")),
            },
        },
    }
}

/// What the operator decided about analytics.
#[derive(Debug, Clone, Copy, PartialEq, Eq)]
pub struct AnalyticsSettings {
    pub consent_given: bool,
    /// When consent was last given, in seconds since the Unix epoch.
    pub consent_timestamp: Option<u64>,
    pub opt_out: bool,
}

impl AnalyticsSettings {
    /// The settings of an operator who was never asked.
    pub open spec fn spec_initial() -> Self {
        AnalyticsSettings { consent_given: false, consent_timestamp: None, opt_out: false }
    }

    /// The settings of an operator who was never asked.
    pub fn initial() -> (res: Self)
        ensures
            res == Self::spec_initial(),
    {
        AnalyticsSettings { consent_given: false, consent_timestamp: None, opt_out: false }
    }
}

/// Whether analytics may be collected: consent was given and not taken back.
pub fn get_analytics_consent(settings: &AnalyticsSettings) -> (res: bool)
    ensures
        res == (settings.consent_given && !settings.opt_out),
{
    settings.consent_given && !settings.opt_out
}

/// The settings after the operator answered at time `now`.
pub open spec fn spec_set_analytics_consent(
    settings: AnalyticsSettings,
    consent: bool,
    now: u64,
) -> AnalyticsSettings {
    AnalyticsSettings {
        consent_given: consent,
        opt_out: !consent,
        consent_timestamp: if consent {
            Some(now)
        } else {
            settings.consent_timestamp
        },
    }
}

/// Records the operator's answer, given at time `now` in seconds since the
/// Unix epoch. Giving consent stamps the time; taking it back keeps the stamp
/// of the last consent.
pub fn set_analytics_consent(settings: &mut AnalyticsSettings, consent: bool, now: u64)
    ensures
        *final(settings) == spec_set_analytics_consent(*old(settings), consent, now),
{
    settings.consent_given = consent;
    settings.opt_out = !consent;
    if consent {
        settings.consent_timestamp = Some(now);
    }
}

/// Whether the operator ever gave consent, and so was asked.
pub fn has_analytics_consent_been_asked(settings: &AnalyticsSettings) -> (res: bool)
    ensures
        res == settings.consent_timestamp is Some,
{
    settings.consent_timestamp.is_some()
}

/// What the shell knows about itself and its backend.
#[derive(Debug, PartialEq, Eq)]
pub struct DesktopInfo {
    pub app_version: String,
    pub backend_port: u16,
    pub backend_version: Option<String>,
    pub backend_uptime_seconds: Option<u64>,
    pub kubeconfig_path: String,
    pub app_data_dir: String,
}

/// Describes the shell: its version, the port of its backend, and the places
/// of the kubeconfig and of its data. The version and the uptime of the
/// backend are not known to the shell.
pub fn get_desktop_info(app_version: String, kubeconfig_path: String, app_data_dir: String) -> (res:
    DesktopInfo)
    ensures
        res == (DesktopInfo {
            app_version,
            backend_port: BACKEND_PORT,
            backend_version: None,
            backend_uptime_seconds: None,
            kubeconfig_path,
            app_data_dir,
        }),
{
    DesktopInfo {
        app_version,
        backend_port: BACKEND_PORT,
        backend_version: None,
        backend_uptime_seconds: None,
        kubeconfig_path,
        app_data_dir,
    }
}

/// What can be reached from the shell.
#[derive(Debug, Clone, Copy, PartialEq, Eq)]
pub struct ConnectivityStatus {
    pub is_online: bool,
    pub backend_reachable: bool,
    pub ai_backend_reachable: bool,
    /// When this was checked, in seconds since the Unix epoch.
    pub last_check: u64,
}

/// Whether the internet can be reached, given what the probes of the
/// well-known endpoints brought, in the order in which they were tried: any
/// answer at all counts.
pub open spec fn spec_internet_reachable(probes: Seq<ProbeResult>) -> bool {
    exists|i: int| 0 <= i < probes.len() && (#[trigger] probes[i]) is Response
}

/// The well-known endpoints that tell whether the internet can be reached, in
/// the order in which they are tried.
pub fn internet_endpoints() -> (res: Vec<&'static str>)
    ensures
        res@.len() == 3,
        res@[0]@ == "https://www.google.com"@,
        res@[1]@ == "https://1.1.1.1"@,
        res@[2]@ == "https://8.8.8.8"@,
{
    let mut endpoints: Vec<&'static str> = Vec::new();
    endpoints.push("https://www.google.com");
    endpoints.push("https://1.1.1.1");
    endpoints.push("https://8.8.8.8");
    endpoints
}

/// Whether the internet can be reached: one of the endpoints answered.
pub fn check_internet_connectivity(probes: &Vec<ProbeResult>) -> (res: bool)
    ensures
        res == spec_internet_reachable(probes@),
{
    let mut i: usize = 0;
    while i < probes.len()
        invariant
            i <= probes.len(),
            forall|k: int| 0 <= k < i ==> !((#[trigger] probes[k]) is Response),
        decreases probes.len() - i,
    {
        match &probes[i] {
            ProbeResult::Response { .. } => {
                return true;
            },
            _ => {},
        }
        i = i + 1;
    }
    false
}

/// Whether a backend can be reached: its health endpoint answered with 2xx.
pub fn check_backend_connectivity(probe: &ProbeResult) -> (res: bool)
    ensures
        res == (spec_health_outcome(*probe) is Healthy),
{
    check_health(probe)
}

/// Sums up what can be reached at time `now`: the internet, by the probes of
/// the well-known endpoints, and the two backends, each by the probe of its
/// health endpoint.
pub fn check_connectivity(
    internet: &Vec<ProbeResult>,
    backend: &ProbeResult,
    ai_backend: &ProbeResult,
    now: u64,
) -> (res: ConnectivityStatus)
    ensures
        res == (ConnectivityStatus {
            is_online: spec_internet_reachable(internet@),
            backend_reachable: spec_health_outcome(*backend) is Healthy,
            ai_backend_reachable: spec_health_outcome(*ai_backend) is Healthy,
            last_check: now,
        }),
{
    ConnectivityStatus {
        is_online: check_internet_connectivity(internet),
        backend_reachable: check_backend_connectivity(backend),
        ai_backend_reachable: check_backend_connectivity(ai_backend),
        last_check: now,
    }
}

/// Whether `kubectl` is installed, and where and in which version.
#[derive(Debug, PartialEq, Eq)]
pub struct KubectlStatus {
    pub installed: bool,
    pub version: Option<String>,
    pub path: Option<String>,
}

fn trimmed_option(text: Option<&str>) -> (res: Option<String>)
    ensures
        opt_view(res) == match text {
            Some(s) => Some(trimmed(s@)),
            None => None,
        },
{
    match text {
        Some(s) => Some(trim(s)),
        None => None,
    }
}

/// Tells whether `kubectl` is installed from what the system's lookup on
/// `PATH` said. `lookup_succeeded` says whether the lookup ran and found
/// something; `lookup_output` and `version_output` are what the lookup and
/// `kubectl version` printed, or `None` where that was no text or the command
/// could not run. The path and the version are trimmed.
pub fn check_kubectl_installed(
    lookup_succeeded: bool,
    lookup_output: Option<&str>,
    version_output: Option<&str>,
) -> (res: KubectlStatus)
    ensures
        res.installed == lookup_succeeded,
        lookup_succeeded ==> opt_view(res.path) == match lookup_output {
            Some(s) => Some(trimmed(s@)),
            None => None,
        },
        lookup_succeeded ==> opt_view(res.version) == match version_output {
            Some(s) => Some(trimmed(s@)),
            None => None,
        },
        !lookup_succeeded ==> res.path is None && res.version is None,
{
    if lookup_succeeded {
        KubectlStatus {
            installed: true,
            version: trimmed_option(version_output),
            path: trimmed_option(lookup_output),
        }
    } else {
        KubectlStatus { installed: false, version: None, path: None }
    }
}

} // verus!
