use node_client::approvals::{ApprovalBroker, ApprovalPreview, DecideError, Decision, RegisterError};

fn preview(id: &str) -> ApprovalPreview {
    ApprovalPreview {
        id: id.to_string(),
        raw_command: Some("ls".to_string()),
        argv: vec!["ls".to_string()],
        cwd: None,
        env_keys: vec![],
        agent_id: None,
        session_key: None,
        expires_at_ms: 120_000,
    }
}

#[test]
fn second_decision_is_refused() {
    let mut b = ApprovalBroker::new();
    b.register(preview("a")).unwrap();
    assert_eq!(b.decide("a", "allow-once"), Ok(Decision::AllowOnce));
    assert_eq!(b.decide("a", "deny"), Err(DecideError::NoPending));
    assert_eq!(b.resolve("a"), Some(Decision::AllowOnce));
    assert_eq!(b.decide("a", "deny"), Err(DecideError::NoPending));
}

#[test]
fn unanswered_request_denies_once() {
    let mut b = ApprovalBroker::new();
    b.register(preview("t")).unwrap();
    assert_eq!(b.previews().len(), 1);
    assert_eq!(b.resolve("t"), Some(Decision::Deny));
    assert_eq!(b.previews().len(), 0);
    assert_eq!(b.resolve("t"), None);
}

#[test]
fn decide_errors() {
    let mut b = ApprovalBroker::new();
    assert_eq!(b.decide("nope", "deny"), Err(DecideError::NoPending));
    b.register(preview("x")).unwrap();
    assert_eq!(b.decide("x", "maybe"), Err(DecideError::InvalidDecision));
    assert_eq!(b.decide("x", "allow-always"), Ok(Decision::AllowAlways));
    assert_eq!(b.register(preview("x")).unwrap_err(), RegisterError::DuplicateId);
}

#[test]
fn independent_requests() {
    let mut b = ApprovalBroker::new();
    b.register(preview("1")).unwrap();
    b.register(preview("2")).unwrap();
    b.register(preview("3")).unwrap();
    assert_eq!(b.decide("2", "deny"), Ok(Decision::Deny));
    assert_eq!(b.resolve("1"), Some(Decision::Deny));
    let ids: Vec<String> = b.previews().into_iter().map(|p| p.id).collect();
    assert_eq!(ids, vec!["2".to_string(), "3".to_string()]);
    assert_eq!(b.decide("3", "allow-once"), Ok(Decision::AllowOnce));
    assert_eq!(b.resolve("3"), Some(Decision::AllowOnce));
    assert_eq!(b.resolve("2"), Some(Decision::Deny));
}

#[test]
fn decision_texts() {
    assert_eq!(Decision::parse("deny"), Some(Decision::Deny));
    assert_eq!(Decision::parse("allow-once"), Some(Decision::AllowOnce));
    assert_eq!(Decision::parse("allow-always"), Some(Decision::AllowAlways));
    assert_eq!(Decision::parse("Allow-once"), None);
    assert_eq!(Decision::AllowAlways.as_str(), "allow-always");
    assert!(!Decision::Deny.allows());
    assert!(Decision::AllowOnce.allows());
}

#[test]
fn previews_show_registered_requests() {
    let mut b = ApprovalBroker::new();
    let mut p = preview("p1");
    p.env_keys = vec!["HOME".to_string()];
    p.cwd = Some("/work".to_string());
    b.register(p).unwrap();
    b.register(preview("p2")).unwrap();
    let list = b.previews();
    assert_eq!(list.len(), 2);
    assert_eq!(list[0].id, "p1");
    assert_eq!(list[0].env_keys, vec!["HOME".to_string()]);
    assert_eq!(list[0].cwd.as_deref(), Some("/work"));
    assert_eq!(list[0].raw_command.as_deref(), Some("ls"));
    assert_eq!(list[1].id, "p2");
    assert_eq!(DecideError::NoPending.message("p9", "deny"), "no pending approval with id p9");
    assert_eq!(DecideError::InvalidDecision.message("p9", "yes"), "invalid decision: yes");
}
