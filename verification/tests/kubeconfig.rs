use kubilitics_desktop::commands::{KubeconfigContext, KubeconfigInfo};
use kubilitics_desktop::kubeconfig::{
    get_kubeconfig_info, parse_contexts, switch_context, validate_kubeconfig,
};

const CONFIG: &str = "apiVersion: v1
kind: Config
current-context: dev
clusters:
- name: dev-cluster
  cluster:
    server: https://dev.example.com
- name: prod-cluster
  cluster:
    server: https://prod.example.com
contexts:
- name: dev
  context:
    cluster: dev-cluster
    user: dev-user
    namespace: team-a
- name: prod
  context:
    cluster: prod-cluster
    user: prod-user
users:
- name: dev-user
  user: {}
- name: prod-user
  user: {}
";

fn context(name: &str, cluster: &str, user: &str, namespace: Option<&str>) -> KubeconfigContext {
    KubeconfigContext {
        name: name.to_string(),
        cluster: cluster.to_string(),
        user: user.to_string(),
        namespace: namespace.map(|n| n.to_string()),
    }
}

fn document(text: &str) -> serde_json::Value {
    serde_yaml::from_str(text).unwrap()
}

#[test]
fn contexts_are_read_in_order() {
    assert_eq!(
        parse_contexts(&document(CONFIG)),
        Ok(vec![
            context("dev", "dev-cluster", "dev-user", Some("team-a")),
            context("prod", "prod-cluster", "prod-user", None),
        ])
    );
    assert_eq!(parse_contexts(&document("contexts: []")), Ok(vec![]));
    let from_json: serde_json::Value = serde_json::from_str(
        "{\"contexts\":[{\"name\":\"a\",\"context\":{\"cluster\":\"c\",\"user\":\"u\",\"namespace\":7}}]}",
    )
    .unwrap();
    assert_eq!(parse_contexts(&from_json), Ok(vec![context("a", "c", "u", None)]));
}

#[test]
fn faulty_contexts_are_named() {
    let err = |text: &str| parse_contexts(&document(text)).unwrap_err();
    assert_eq!(err("clusters: []"), "No contexts found in kubeconfig");
    assert_eq!(err("contexts: none"), "No contexts found in kubeconfig");
    assert_eq!(err("contexts: {a: 1}"), "No contexts found in kubeconfig");
    assert_eq!(err("- contexts"), "No contexts found in kubeconfig");
    assert_eq!(err("contexts:\n- context: {cluster: c, user: u}"), "Context missing name");
    assert_eq!(err("contexts:\n- name: 5\n  context: {cluster: c, user: u}"), "Context missing name");
    assert_eq!(err("contexts:\n- name: a"), "Context missing context field");
    assert_eq!(err("contexts:\n- name: a\n  context: {user: u}"), "Context missing cluster");
    assert_eq!(err("contexts:\n- name: a\n  context: {cluster: c}"), "Context missing user");
    assert_eq!(err("contexts:\n- name: a\n  context: text"), "Context missing cluster");
    // the first faulty entry decides
    assert_eq!(
        err("contexts:\n- name: a\n  context: {cluster: c, user: u}\n- name: b\n  context: {cluster: c}\n- context: {}"),
        "Context missing user"
    );
}

#[test]
fn kubeconfig_info() {
    assert_eq!(
        get_kubeconfig_info("/home/u/.kube/config".to_string(), CONFIG),
        Ok(KubeconfigInfo {
            path: "/home/u/.kube/config".to_string(),
            current_context: Some("dev".to_string()),
            contexts: vec![
                context("dev", "dev-cluster", "dev-user", Some("team-a")),
                context("prod", "prod-cluster", "prod-user", None),
            ],
        })
    );
    assert_eq!(
        get_kubeconfig_info("p".to_string(), "contexts: []"),
        Ok(KubeconfigInfo { path: "p".to_string(), current_context: None, contexts: vec![] })
    );
    assert_eq!(
        get_kubeconfig_info("p".to_string(), "contexts: [\n"),
        Err("Failed to parse kubeconfig".to_string())
    );
    assert_eq!(
        get_kubeconfig_info("p".to_string(), "current-context: dev"),
        Err("No contexts found in kubeconfig".to_string())
    );
}

#[test]
fn kubeconfig_validation() {
    assert!(validate_kubeconfig(Some(CONFIG)));
    assert!(validate_kubeconfig(Some("clusters: 1\ncontexts: 2\nusers: 3")));
    assert!(validate_kubeconfig(Some("{\"clusters\":[],\"contexts\":[],\"users\":null}")));
    assert!(!validate_kubeconfig(Some("clusters: []\ncontexts: []")));
    assert!(!validate_kubeconfig(Some("contexts: []\nusers: []")));
    assert!(!validate_kubeconfig(Some("clusters: []\nusers: []")));
    assert!(!validate_kubeconfig(Some("")));
    assert!(!validate_kubeconfig(Some("just text")));
    assert!(!validate_kubeconfig(Some("a: [")));
    assert!(!validate_kubeconfig(None));
}

#[test]
fn switching_the_context() {
    let text = switch_context(CONFIG, "prod".to_string()).unwrap();
    let info = get_kubeconfig_info("p".to_string(), &text).unwrap();
    assert_eq!(info.current_context, Some("prod".to_string()));
    assert_eq!(info.contexts.len(), 2);
    assert_eq!(document(&text)["clusters"], document(CONFIG)["clusters"]);
    assert_eq!(document(&text)["users"], document(CONFIG)["users"]);
    // the switch touches nothing but the current context
    assert_eq!(document(&text)["contexts"], document(CONFIG)["contexts"]);
    assert_eq!(document(&text)["kind"], "Config");
    // a kubeconfig without current context gets one
    let text = switch_context("contexts:\n- name: a\n  context: {cluster: c, user: u}\n", "a".to_string()).unwrap();
    assert_eq!(document(&text)["current-context"], "a");
    assert_eq!(
        switch_context(CONFIG, "staging".to_string()),
        Err("Context 'staging' not found".to_string())
    );
    assert_eq!(switch_context(CONFIG, "".to_string()), Err("Context '' not found".to_string()));
    assert_eq!(
        switch_context("contexts: [", "dev".to_string()),
        Err("Failed to parse kubeconfig".to_string())
    );
    assert_eq!(
        switch_context("users: []", "dev".to_string()),
        Err("No contexts found in kubeconfig".to_string())
    );
    assert_eq!(
        switch_context("contexts:\n- name: a", "a".to_string()),
        Err("Context missing context field".to_string())
    );
}
