use kubilitics_desktop::launcher::{
    ai_environment, allowed_origins, backend_environment, binary_exists, check_ai_binary_exists,
    expected_binary_name, find_bundled_kcli, is_executable, pick_in_dir, resolve_kcli_binary_path,
    target_os_suffix, target_vendor, DirEntryInfo, DirProbe, EnvVar, Platform,
};

fn entry(name: &str, dir: &str, executable: bool) -> DirEntryInfo {
    DirEntryInfo {
        file_name: name.to_string(),
        path: format!("{dir}/{name}"),
        executable,
    }
}

fn var(name: &str, value: &str) -> EnvVar {
    EnvVar { name: name.to_string(), value: value.to_string() }
}

#[test]
fn target_triples() {
    assert_eq!(target_vendor("macos"), "apple");
    assert_eq!(target_vendor("ios"), "apple");
    assert_eq!(target_vendor("windows"), "pc");
    assert_eq!(target_vendor("linux"), "unknown");
    assert_eq!(target_vendor("freebsd"), "unknown");
    assert_eq!(target_os_suffix("macos"), "darwin");
    assert_eq!(target_os_suffix("ios"), "ios");
    assert_eq!(target_os_suffix("linux"), "linux-gnu");
    assert_eq!(target_os_suffix("windows"), "windows-msvc");
    assert_eq!(target_os_suffix("freebsd"), "freebsd");
    assert_eq!(expected_binary_name("kcli", "aarch64", "macos"), "kcli-aarch64-apple-darwin");
    assert_eq!(expected_binary_name("kcli", "x86_64", "linux"), "kcli-x86_64-unknown-linux-gnu");
    assert_eq!(
        expected_binary_name("kcli", "x86_64", "windows"),
        "kcli-x86_64-pc-windows-msvc.exe"
    );
    assert_eq!(
        expected_binary_name("kubilitics-ai", "aarch64", "linux"),
        "kubilitics-ai-aarch64-unknown-linux-gnu"
    );
    assert_eq!(expected_binary_name("kcli", "riscv64", "freebsd"), "kcli-riscv64-unknown-freebsd");
}

#[test]
fn executable_files() {
    assert!(is_executable(Platform::Unix, 0o755, "kcli"));
    assert!(is_executable(Platform::Unix, 0o100, "x"));
    assert!(is_executable(Platform::Unix, 0o010, "x"));
    assert!(is_executable(Platform::Unix, 0o001, "x"));
    assert!(is_executable(Platform::Unix, 0o100644 | 0o1, "x"));
    assert!(!is_executable(Platform::Unix, 0o644, "kcli.exe"));
    assert!(!is_executable(Platform::Unix, 0, "kcli"));
    assert!(is_executable(Platform::Windows, 0, "kcli.exe"));
    assert!(is_executable(Platform::Windows, 0, "kcli"));
    assert!(!is_executable(Platform::Windows, 0o777, "kcli.txt"));
    assert!(!is_executable(Platform::Windows, 0, "kcli-x86_64"));
    assert!(is_executable(Platform::Other, 0, "anything"));
}

#[test]
fn pick_prefers_the_exact_name() {
    let expected = "kcli-x86_64-unknown-linux-gnu";
    let entries = vec![
        entry("README", "/r", true),
        entry("kcli-aarch64-unknown-linux-gnu", "/r", true),
        entry("kcli", "/r", true),
        entry(expected, "/r", true),
    ];
    assert_eq!(pick_in_dir(&entries, expected), Some(3));
    // without the exact name the first fallback wins
    assert_eq!(pick_in_dir(&entries[..3].iter().map(|e| entry(&e.file_name, "/r", e.executable)).collect(), expected), Some(1));
    // files that cannot be executed are passed over
    let entries = vec![
        entry(expected, "/r", false),
        entry("kcli.exe", "/r", false),
        entry("kcli", "/r", true),
    ];
    assert_eq!(pick_in_dir(&entries, expected), Some(2));
    let entries = vec![entry("kclix", "/r", true), entry("akcli-", "/r", true)];
    assert_eq!(pick_in_dir(&entries, expected), None);
    assert_eq!(pick_in_dir(&vec![], expected), None);
    let entries = vec![entry("kcli.exe", "/r", true), entry("kcli-", "/r", true)];
    assert_eq!(pick_in_dir(&entries, expected), Some(0));
}

#[test]
fn bundled_kcli_by_directory_order() {
    let expected = "kcli-x86_64-unknown-linux-gnu";
    let dirs = vec![
        None,
        Some(vec![entry("kcli", "/resources", true)]),
        Some(vec![entry(expected, "/exe", true)]),
    ];
    // the fallback of an earlier directory wins over the exact name of a later one
    assert_eq!(
        find_bundled_kcli(true, &dirs, "x86_64", "linux"),
        Some("/resources/kcli".to_string())
    );
    assert_eq!(find_bundled_kcli(false, &dirs, "x86_64", "linux"), None);
    let dirs = vec![Some(vec![entry("other", "/resources", true)]), Some(vec![entry(expected, "/exe", true)])];
    assert_eq!(
        find_bundled_kcli(true, &dirs, "x86_64", "linux"),
        Some(format!("/exe/{expected}"))
    );
    assert_eq!(find_bundled_kcli(true, &dirs, "aarch64", "linux"), Some(format!("/exe/{expected}")));
    assert_eq!(find_bundled_kcli(true, &vec![None, None], "x86_64", "linux"), None);
    assert_eq!(find_bundled_kcli(true, &vec![], "x86_64", "linux"), None);
}

#[test]
fn kcli_resolution_order() {
    let expected = "kcli-aarch64-apple-darwin";
    let dirs = vec![Some(vec![entry(expected, "/app", true)])];
    assert_eq!(
        resolve_kcli_binary_path(true, &dirs, "aarch64", "macos", Some("/usr/local/bin/kcli\n")),
        format!("/app/{expected}")
    );
    // not declared in the bundle: the lookup on PATH decides
    assert_eq!(
        resolve_kcli_binary_path(false, &dirs, "aarch64", "macos", Some("/usr/local/bin/kcli\n/opt/kcli\n")),
        "/usr/local/bin/kcli"
    );
    let none: Vec<Option<Vec<DirEntryInfo>>> = vec![None, Some(vec![])];
    assert_eq!(
        resolve_kcli_binary_path(true, &none, "aarch64", "macos", Some("  C:\\kcli.exe \r\n")),
        "C:\\kcli.exe"
    );
    assert_eq!(resolve_kcli_binary_path(true, &none, "aarch64", "macos", Some("\n/usr/bin/kcli")), "kcli");
    assert_eq!(resolve_kcli_binary_path(true, &none, "aarch64", "macos", Some("")), "kcli");
    assert_eq!(resolve_kcli_binary_path(true, &none, "aarch64", "macos", None), "kcli");
}

#[test]
fn ai_binary_on_disk() {
    let names = |list: &[&str]| Some(list.iter().map(|n| n.to_string()).collect::<Vec<_>>());
    assert!(!check_ai_binary_exists(&vec![]));
    assert!(!check_ai_binary_exists(&vec![None, None]));
    assert!(check_ai_binary_exists(&vec![
        None,
        Some(DirProbe { exact_exists: true, entries: None })
    ]));
    assert!(check_ai_binary_exists(&vec![Some(DirProbe {
        exact_exists: false,
        entries: names(&["kubilitics-backend", "kubilitics-ai-x86_64-unknown-linux-gnu"])
    })]));
    assert!(check_ai_binary_exists(&vec![Some(DirProbe {
        exact_exists: false,
        entries: names(&["kubilitics-ai"])
    })]));
    assert!(!check_ai_binary_exists(&vec![
        Some(DirProbe { exact_exists: false, entries: names(&["kubilitics-backend", "kcli", "ai-kubilitics-ai"]) }),
        Some(DirProbe { exact_exists: false, entries: None }),
        Some(DirProbe { exact_exists: false, entries: names(&[]) }),
    ]));
    assert!(binary_exists(
        &vec![Some(DirProbe { exact_exists: false, entries: names(&["kcli-x"]) })],
        "kcli"
    ));
}

#[test]
fn backend_environment_variables() {
    assert_eq!(
        allowed_origins(819),
        "tauri://localhost,tauri://,http://tauri.localhost,http://localhost:5173,http://localhost:819"
    );
    assert_eq!(
        backend_environment(819, "/app/kcli", "/data/kubilitics/kubilitics.db", "/home/u/.kube/config"),
        vec![
            var("KUBILITICS_PORT", "819"),
            var("KCLI_BIN", "/app/kcli"),
            var(
                "KUBILITICS_ALLOWED_ORIGINS",
                "tauri://localhost,tauri://,http://tauri.localhost,http://localhost:5173,http://localhost:819"
            ),
            var("KUBILITICS_DATABASE_PATH", "/data/kubilitics/kubilitics.db"),
            var("KUBECONFIG", "/home/u/.kube/config"),
        ]
    );
    // an empty kubeconfig is not passed on
    let env = backend_environment(819, "kcli", "db", "");
    assert_eq!(env.len(), 4);
    assert!(!env.iter().any(|v| v.name == "KUBECONFIG"));
}

#[test]
fn ai_environment_variables() {
    assert_eq!(
        ai_environment(8081, 819, "/data/kubilitics/ai/kubilitics-ai.db"),
        vec![
            var("KUBILITICS_PORT", "8081"),
            var("KUBILITICS_BACKEND_ADDRESS", "localhost:50051"),
            var("KUBILITICS_BACKEND_HTTP_BASE_URL", "http://localhost:819"),
            var("KUBILITICS_MCP_ENABLED", "true"),
            var("KUBILITICS_SAFETY_ENABLED", "true"),
            var("KUBILITICS_ANALYTICS_ENABLED", "true"),
            var("KUBILITICS_DATABASE_PATH", "/data/kubilitics/ai/kubilitics-ai.db"),
            var("KUBILITICS_DATABASE_SQLITE_PATH", "/data/kubilitics/ai/kubilitics-ai.db"),
            var("KUBILITICS_DATABASE_TYPE", "sqlite"),
            var(
                "KUBILITICS_ALLOWED_ORIGINS",
                "tauri://localhost,tauri://,http://tauri.localhost,http://localhost:5173,http://localhost:819"
            ),
        ]
    );
}
