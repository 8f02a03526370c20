use node_client::config::{
    default_true, discover_openclaw_binary, exec_approvals_path, exec_host_socket_path, gateway_url_for, install_path_to_save,
    join, node_env, node_run_args, DiscoveryResult, NodeClientConfig,
};

#[test]
fn default_config_and_url() {
    let c = NodeClientConfig::default();
    assert_eq!(c.gateway_url(), "ws://127.0.0.1:18789");
    assert!(c.auto_start_node && c.exec_host_fallback && c.use_bundled_runtime && !c.use_exec_host);
    assert!(default_true());
    assert_eq!(gateway_url_for("gw.example", 443, true), "wss://gw.example:443");
    assert_eq!(gateway_url_for("h", 0, false), "ws://h:0");
}

#[test]
fn worker_arguments() {
    let mut c = NodeClientConfig::default();
    assert_eq!(node_run_args(&c), vec!["node", "run", "--host", "127.0.0.1", "--port", "18789"]);
    c.tls = true;
    c.tls_fingerprint = Some("  AB:CD  ".to_string());
    c.node_id = Some("   ".to_string());
    c.display_name = Some("Desk".to_string());
    c.gateway_password = Some("pw".to_string());
    assert_eq!(
        node_run_args(&c),
        vec!["node", "run", "--host", "127.0.0.1", "--port", "18789", "--tls", "--tls-fingerprint", "AB:CD", "--display-name", "Desk", "--password", "pw"]
    );
}

#[test]
fn worker_environment() {
    let mut c = NodeClientConfig::default();
    let env = node_env(&c, "", "", "/usr/bin");
    assert_eq!(env, vec![("NODE_OPTIONS".to_string(), "--disable-warning=DEP0040".to_string())]);
    c.use_exec_host = true;
    c.exec_host_fallback = false;
    c.gateway_token = Some("tok".to_string());
    let env = node_env(&c, "--max-old-space-size=100", "/opt/oc/bin", "/usr/bin");
    let expect: Vec<(String, String)> = vec![
        ("OPENCLAW_NODE_EXEC_HOST", "app"),
        ("OPENCLAW_NODE_EXEC_FALLBACK", "0"),
        ("OPENCLAW_GATEWAY_TOKEN", "tok"),
        ("NODE_OPTIONS", "--max-old-space-size=100 --disable-warning=DEP0040"),
        ("PATH", "/opt/oc/bin:/usr/bin"),
    ]
    .into_iter()
    .map(|(a, b)| (a.to_string(), b.to_string()))
    .collect();
    assert_eq!(env, expect);
}

#[test]
fn install_path_saving() {
    let mut c = NodeClientConfig::default();
    assert_eq!(install_path_to_save(&c, "/opt/bin", false).as_deref(), Some("/opt/bin"));
    assert!(install_path_to_save(&c, "/opt/bin", true).is_none());
    assert!(install_path_to_save(&c, "", false).is_none());
    c.install_path = Some("/opt/bin".to_string());
    assert!(install_path_to_save(&c, "/opt/bin", false).is_none());
}

#[test]
fn shared_file_locations() {
    assert_eq!(exec_approvals_path(&Some("/home/u".to_string())).unwrap(), "/home/u/.openclaw/exec-approvals.json");
    assert_eq!(exec_approvals_path(&None).unwrap_err(), "unable to resolve user directories");
    assert_eq!(exec_host_socket_path(&Some("/root/".to_string())), "/root/.openclaw/exec-approvals.sock");
    assert_eq!(exec_host_socket_path(&None), "/tmp/openclaw-exec-approvals.sock");
    assert_eq!(join("", "x"), "x");
}

fn found(m: &str) -> Option<DiscoveryResult> {
    Some(DiscoveryResult {
        bin_dir: "/d".to_string(),
        bin_path: "/d/openclaw".to_string(),
        bin_name: "openclaw".to_string(),
        method: m.to_string(),
    })
}

#[test]
fn discovery_order() {
    assert_eq!(discover_openclaw_binary(found("login"), found("known"), found("path")).unwrap().method, "login");
    assert_eq!(discover_openclaw_binary(None, found("known"), found("path")).unwrap().method, "known");
    assert_eq!(discover_openclaw_binary(None, None, found("path")).unwrap().method, "path");
    assert!(discover_openclaw_binary(None, None, None).is_none());
}
