use kubilitics_desktop::commands::{
    browse_for_kubeconfig, check_backend_connectivity, check_connectivity, check_for_updates,
    check_internet_connectivity, check_kubectl_installed, get_analytics_consent,
    get_custom_kubeconfig_path, get_desktop_info, get_kubeconfig_path, get_selected_contexts,
    has_analytics_consent_been_asked, install_update, internet_endpoints, is_first_launch,
    kubeconfig_parse_error, kubeconfig_read_error, kubeconfig_write_error,
    mark_first_launch_complete, save_custom_kubeconfig_path, save_selected_contexts,
    set_analytics_consent, AnalyticsSettings, ConnectivityStatus, DesktopInfo,
    KubeconfigSecuritySettings, KubectlStatus,
};
use kubilitics_desktop::crypto::{decrypt_kubeconfig, save_encrypted_kubeconfig};
use kubilitics_desktop::menu::menu_event;
use kubilitics_desktop::mobile::{
    clusters_url, connect_to_cluster, get_topology, topology_url, TopologyResponse,
};
use kubilitics_desktop::probe::ProbeResult;
use kubilitics_desktop::tray::{tray_action, TrayAction, TRAY_HEALTH_UPDATE, TRAY_SHOW_STATUS};

#[test]
fn kubeconfig_error_messages() {
    assert_eq!(kubeconfig_read_error(), "Failed to read kubeconfig at configured path");
    assert_eq!(kubeconfig_parse_error(), "Failed to parse kubeconfig");
    assert_eq!(kubeconfig_write_error(), "Failed to write kubeconfig");
}

#[test]
fn security_settings() {
    let mut settings = KubeconfigSecuritySettings::initial();
    assert_eq!(
        settings,
        KubeconfigSecuritySettings {
            selected_contexts: vec![],
            kubeconfig_path: None,
            encrypted_kubeconfig: None,
            first_launch_completed: false,
        }
    );
    assert!(is_first_launch(&settings));
    mark_first_launch_complete(&mut settings);
    assert!(!is_first_launch(&settings));
    save_selected_contexts(&mut settings, vec!["dev".to_string(), "prod".to_string()]);
    save_custom_kubeconfig_path(&mut settings, "/tmp/config".to_string());
    assert_eq!(
        settings,
        KubeconfigSecuritySettings {
            selected_contexts: vec!["dev".to_string(), "prod".to_string()],
            kubeconfig_path: Some("/tmp/config".to_string()),
            encrypted_kubeconfig: None,
            first_launch_completed: true,
        }
    );
    assert_eq!(save_encrypted_kubeconfig(&mut settings, Some("/data"), "apiVersion: v1"), Ok(()));
    let stored = settings.encrypted_kubeconfig.clone().unwrap();
    assert_eq!(decrypt_kubeconfig(Some("/data"), &stored), Ok("apiVersion: v1".to_string()));
    assert_eq!(settings.selected_contexts.len(), 2);
    assert!(settings.first_launch_completed);
    // a failure leaves the settings alone
    assert_eq!(
        save_encrypted_kubeconfig(&mut settings, None, "other"),
        Err("Could not find data directory".to_string())
    );
    assert_eq!(settings.encrypted_kubeconfig, Some(stored));
    assert_eq!(
        get_custom_kubeconfig_path(KubeconfigSecuritySettings {
            kubeconfig_path: Some("/tmp/config".to_string()),
            ..KubeconfigSecuritySettings::initial()
        }),
        Some("/tmp/config".to_string())
    );
    assert_eq!(get_custom_kubeconfig_path(KubeconfigSecuritySettings::initial()), None);
    assert_eq!(get_selected_contexts(settings), vec!["dev", "prod"]);
}

#[test]
fn constant_answers() {
    assert_eq!(browse_for_kubeconfig(), Ok(None));
    assert_eq!(check_for_updates(), Ok(false));
    assert_eq!(
        install_update(),
        Err("Updates are handled automatically by the updater plugin".to_string())
    );
}

#[test]
fn kubeconfig_path_choice() {
    let s = |t: &str| Some(t.to_string());
    assert_eq!(get_kubeconfig_path(s("/a"), s("/b"), s("/c")), Ok("/a".to_string()));
    assert_eq!(get_kubeconfig_path(None, s("/b"), s("/c")), Ok("/b".to_string()));
    assert_eq!(get_kubeconfig_path(None, None, s("/c")), Ok("/c".to_string()));
    assert_eq!(get_kubeconfig_path(s("/a"), None, None), Ok("/a".to_string()));
    assert_eq!(get_kubeconfig_path(None, s("/b"), None), Ok("/b".to_string()));
    assert_eq!(
        get_kubeconfig_path(None, None, None),
        Err("Could not find home directory".to_string())
    );
}

#[test]
fn analytics_consent() {
    let mut settings = AnalyticsSettings::initial();
    assert_eq!(
        settings,
        AnalyticsSettings { consent_given: false, consent_timestamp: None, opt_out: false }
    );
    assert!(!get_analytics_consent(&settings));
    assert!(!has_analytics_consent_been_asked(&settings));
    set_analytics_consent(&mut settings, false, 100);
    assert_eq!(
        settings,
        AnalyticsSettings { consent_given: false, consent_timestamp: None, opt_out: true }
    );
    assert!(!has_analytics_consent_been_asked(&settings));
    set_analytics_consent(&mut settings, true, 200);
    assert_eq!(
        settings,
        AnalyticsSettings { consent_given: true, consent_timestamp: Some(200), opt_out: false }
    );
    assert!(get_analytics_consent(&settings));
    assert!(has_analytics_consent_been_asked(&settings));
    set_analytics_consent(&mut settings, false, 300);
    assert_eq!(
        settings,
        AnalyticsSettings { consent_given: false, consent_timestamp: Some(200), opt_out: true }
    );
    assert!(!get_analytics_consent(&settings));
    assert!(has_analytics_consent_been_asked(&settings));
    let odd = AnalyticsSettings { consent_given: true, consent_timestamp: None, opt_out: true };
    assert!(!get_analytics_consent(&odd));
}

#[test]
fn desktop_info() {
    assert_eq!(
        get_desktop_info("1.2.3".to_string(), "/k".to_string(), "/d".to_string()),
        DesktopInfo {
            app_version: "1.2.3".to_string(),
            backend_port: 819,
            backend_version: None,
            backend_uptime_seconds: None,
            kubeconfig_path: "/k".to_string(),
            app_data_dir: "/d".to_string(),
        }
    );
}

#[test]
fn connectivity() {
    assert_eq!(
        internet_endpoints(),
        vec!["https://www.google.com", "https://1.1.1.1", "https://8.8.8.8"]
    );
    let down = ProbeResult::Refused;
    let up = ProbeResult::Response { status: 200, body: None };
    let broken = ProbeResult::Response { status: 500, body: None };
    assert!(!check_internet_connectivity(&vec![]));
    assert!(!check_internet_connectivity(&vec![ProbeResult::Refused, ProbeResult::Refused]));
    // any answer shows that the internet is there
    assert!(check_internet_connectivity(&vec![
        ProbeResult::Refused,
        ProbeResult::Response { status: 503, body: None }
    ]));
    assert!(check_backend_connectivity(&up));
    assert!(!check_backend_connectivity(&broken));
    assert!(!check_backend_connectivity(&down));
    assert_eq!(
        check_connectivity(&vec![ProbeResult::Refused], &up, &broken, 1700000000),
        ConnectivityStatus {
            is_online: false,
            backend_reachable: true,
            ai_backend_reachable: false,
            last_check: 1700000000,
        }
    );
    assert_eq!(
        check_connectivity(
            &vec![ProbeResult::Response { status: 301, body: None }],
            &down,
            &up,
            5
        ),
        ConnectivityStatus {
            is_online: true,
            backend_reachable: false,
            ai_backend_reachable: true,
            last_check: 5,
        }
    );
}

#[test]
fn kubectl_status() {
    assert_eq!(
        check_kubectl_installed(true, Some("/usr/local/bin/kubectl\n"), Some("Client Version: v1.29.0\n")),
        KubectlStatus {
            installed: true,
            version: Some("Client Version: v1.29.0".to_string()),
            path: Some("/usr/local/bin/kubectl".to_string()),
        }
    );
    assert_eq!(
        check_kubectl_installed(true, None, None),
        KubectlStatus { installed: true, version: None, path: None }
    );
    assert_eq!(
        check_kubectl_installed(true, Some("a\nb\n"), Some("")),
        KubectlStatus {
            installed: true,
            version: Some("".to_string()),
            path: Some("a\nb".to_string()),
        }
    );
    assert_eq!(
        check_kubectl_installed(false, Some("/usr/bin/kubectl"), Some("v1")),
        KubectlStatus { installed: false, version: None, path: None }
    );
}

#[test]
fn menu_items() {
    assert_eq!(menu_event("refresh"), Some("menu-refresh"));
    assert_eq!(menu_event("docs"), Some("menu-docs"));
    assert_eq!(menu_event("about"), Some("menu-about"));
    assert_eq!(menu_event("quit"), None);
    assert_eq!(menu_event("Refresh"), None);
    assert_eq!(menu_event(""), None);
}

#[test]
fn tray_items() {
    assert_eq!(tray_action("open"), TrayAction::ShowWindow);
    assert_eq!(tray_action("status"), TrayAction::ShowStatus);
    assert_eq!(tray_action("quit"), TrayAction::Quit);
    assert_eq!(tray_action("other"), TrayAction::Ignore);
    assert_eq!(tray_action(""), TrayAction::Ignore);
    assert_eq!(TRAY_SHOW_STATUS, "tray-show-status");
    assert_eq!(TRAY_HEALTH_UPDATE, "tray-health-update");
}

#[test]
fn mobile_commands() {
    assert_eq!(clusters_url("http://10.0.0.2:819"), "http://10.0.0.2:819/api/v1/clusters");
    assert_eq!(
        topology_url("http://10.0.0.2:819", "c-1"),
        "http://10.0.0.2:819/api/v1/clusters/c-1/topology"
    );
    assert_eq!(connect_to_cluster(Ok(200)), Ok("Connected".to_string()));
    assert_eq!(connect_to_cluster(Ok(204)), Ok("Connected".to_string()));
    assert_eq!(connect_to_cluster(Ok(401)), Err("Connection failed".to_string()));
    assert_eq!(
        connect_to_cluster(Err("connection refused".to_string())),
        Err("Connection failed: connection refused".to_string())
    );
    assert_eq!(
        get_topology(TopologyResponse::Body { text: "{\"nodes\":[]}".to_string() }),
        Ok("{\"nodes\":[]}".to_string())
    );
    assert_eq!(
        get_topology(TopologyResponse::RequestFailed { error: "timeout".to_string() }),
        Err("Request failed: timeout".to_string())
    );
    assert_eq!(
        get_topology(TopologyResponse::BodyUnreadable { error: "reset".to_string() }),
        Err("Failed to read response: reset".to_string())
    );
}
