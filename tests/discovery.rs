use node_client::config::{
    allowlist_addition, allowlist_keep, imported_config, launch_command, path_list_edit, point_var_edit,
    sanitized_path_list, search_path_string, split, EnvEdit, ImportedAuth, ImportedGateway, ImportedNode,
};
use node_client::session::{connect_reply, ConnectReply, GatewayConnectionStatus, SessionState};

#[test]
fn path_splitting() {
    assert_eq!(split("/a:/b::/c", ':'), vec!["/a", "/b", "", "/c"]);
    assert_eq!(split("", ':'), vec![""]);
    assert_eq!(split(":", ':'), vec!["", ""]);
}

#[test]
fn search_takes_first_dir_holding_binary() {
    let files = vec!["/usr/bin/openclaw".to_string(), "/opt/x/openclaw".to_string()];
    let found = search_path_string(" /home/u/bin : :/opt/x/:/usr/bin", "process-path", &files).unwrap();
    assert_eq!(found.bin_dir, "/opt/x/");
    assert_eq!(found.bin_path, "/opt/x/openclaw");
    assert_eq!(found.bin_name, "openclaw");
    assert_eq!(found.method, "process-path");
    assert!(search_path_string("/home/u/bin:/sbin", "m", &files).is_none());
    assert!(search_path_string("", "m", &files).is_none());
}

#[test]
fn bundled_runtime_command() {
    assert_eq!(launch_command("/usr/bin/node::/app/openclaw.mjs"), ("/usr/bin/node".to_string(), Some("/app/openclaw.mjs".to_string())));
    assert_eq!(launch_command("/usr/bin/openclaw"), ("/usr/bin/openclaw".to_string(), None));
    assert_eq!(launch_command("a::b::c"), ("a".to_string(), Some("b::c".to_string())));
    assert_eq!(launch_command(":"), (":".to_string(), None));
}

#[test]
fn allowlist_edits() {
    let list = vec!["ls".to_string(), "git status".to_string()];
    assert_eq!(allowlist_addition(&list, "   ").unwrap_err(), "pattern cannot be empty");
    assert_eq!(allowlist_addition(&list, " ls ").unwrap(), None);
    assert_eq!(allowlist_addition(&list, " cat ").unwrap(), Some("cat".to_string()));
    assert_eq!(allowlist_keep(&list, "ls"), vec![false, true]);
    assert_eq!(allowlist_keep(&list, "rm"), vec![true, true]);
}

#[test]
fn appimage_path_lists() {
    assert_eq!(sanitized_path_list("/tmp/.mount_x/usr/bin:/usr/bin:/bin", "/tmp/.mount_x").as_deref(), Some("/usr/bin:/bin"));
    assert!(sanitized_path_list("/tmp/.mount_x/lib", "/tmp/.mount_x").is_none());
    match path_list_edit("/tmp/.mount_x/lib", "/tmp/.mount_x", Some("/usr/lib".to_string())) {
        EnvEdit::Assign(v) => assert_eq!(v, "/usr/lib"),
        other => panic!("unexpected {:?}", other),
    }
    assert!(matches!(path_list_edit("/tmp/.mount_x/lib", "/tmp/.mount_x", None), EnvEdit::Remove));
    assert!(matches!(point_var_edit("/usr/lib/python", "/tmp/.mount_x", None), EnvEdit::Keep));
    assert!(matches!(point_var_edit("/tmp/.mount_x/py", "/tmp/.mount_x", None), EnvEdit::Remove));
}

#[test]
fn import_from_tool_configuration() {
    let gw = ImportedGateway {
        port: Some(19000),
        auth: Some(ImportedAuth { token: Some("t".to_string()), password: None }),
        tls: Some(None),
        remote: Some(Some("fp".to_string())),
    };
    let c = imported_config(&gw, &None);
    assert_eq!(c.port, 19000);
    assert_eq!(c.host, "127.0.0.1");
    assert!(!c.tls);
    assert_eq!(c.gateway_token.as_deref(), Some("t"));
    assert_eq!(c.tls_fingerprint.as_deref(), Some("fp"));
    let node = ImportedNode {
        node_id: Some("n1".to_string()),
        display_name: None,
        host: Some("gw.lan".to_string()),
        port: None,
        tls: Some(true),
    };
    let c = imported_config(&gw, &Some(node));
    assert_eq!(c.host, "gw.lan");
    assert_eq!(c.port, 19000);
    assert!(c.tls);
    assert_eq!(c.node_id.as_deref(), Some("n1"));
    assert!(c.display_name.is_none());
}

#[test]
fn connect_replies() {
    let mut s = GatewayConnectionStatus::default();
    assert!(matches!(connect_reply(&s), ConnectReply::InProgress));
    s.state = SessionState::Pairing;
    s.pairing_request_id = Some("abc123".to_string());
    match connect_reply(&s) {
        ConnectReply::PairingRequired { request_id, .. } => assert_eq!(request_id.as_deref(), Some("abc123")),
        other => panic!("unexpected {:?}", other),
    }
    s.state = SessionState::Error;
    s.error = Some("x".to_string());
    assert!(matches!(connect_reply(&s), ConnectReply::Failed(Some(_))));
    s.state = SessionState::Connected;
    assert!(matches!(connect_reply(&s), ConnectReply::Connected));
}
