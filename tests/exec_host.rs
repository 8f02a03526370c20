use hmac::Mac;
use node_client::exec_host::{
    check_envelope, check_envelope_now, digest_matches, error_response, exec_preview, format_uuid, generate_token, is_preapproved,
    message_kind, relay_preview, relay_token_ok, route_exec, validate_hmac, ExecEnvelope, ExecError, ExecHostRequest,
    ExecRoute, MessageKind, RelayApprovalRequest,
};

const SECRET: &str = "s3cret-key";

fn tag(secret: &str, msg: &str) -> Vec<u8> {
    let mut mac = <hmac::Hmac<sha2::Sha256> as Mac>::new_from_slice(secret.as_bytes()).unwrap();
    mac.update(msg.as_bytes());
    mac.finalize().into_bytes().to_vec()
}

fn envelope(nonce: Option<&str>, ts: Option<u64>, hmac: Option<String>, rj: Option<&str>) -> ExecEnvelope {
    ExecEnvelope {
        msg_type: "exec".to_string(),
        id: None,
        nonce: nonce.map(|s| s.to_string()),
        ts,
        hmac,
        request_json: rj.map(|s| s.to_string()),
    }
}

fn signed(nonce: &str, ts: u64, rj: &str) -> ExecEnvelope {
    let digest = hex::encode(tag(SECRET, &format!("{}:{}:{}", nonce, ts, rj)));
    envelope(Some(nonce), Some(ts), Some(digest), Some(rj))
}

fn code_of(r: Result<String, ExecError>) -> String {
    match r {
        Ok(_) => "ok".to_string(),
        Err(e) => e.code().to_string(),
    }
}

#[test]
fn missing_fields_give_matching_errors() {
    let now = 1_700_000_000_000u64;
    let full = signed("n1", now, "{}");
    let mut e = full.clone();
    e.nonce = None;
    assert_eq!(code_of(check_envelope(&e, now, SECRET)), "missing-nonce");
    let mut e = full.clone();
    e.nonce = Some(String::new());
    assert_eq!(code_of(check_envelope(&e, now, SECRET)), "missing-nonce");
    let mut e = full.clone();
    e.ts = None;
    assert_eq!(code_of(check_envelope(&e, now, SECRET)), "missing-ts");
    let mut e = full.clone();
    e.hmac = None;
    assert_eq!(code_of(check_envelope(&e, now, SECRET)), "missing-hmac");
    let mut e = full.clone();
    e.request_json = Some(String::new());
    assert_eq!(code_of(check_envelope(&e, now, SECRET)), "missing-request");
    let e = envelope(None, None, None, None);
    assert_eq!(code_of(check_envelope(&e, now, SECRET)), "missing-nonce");
}

#[test]
fn valid_envelope_passes() {
    let now = 1_700_000_000_000u64;
    let e = signed("abc", now - 59_000, r#"{"command":["ls"]}"#);
    assert_eq!(check_envelope(&e, now, SECRET).unwrap(), r#"{"command":["ls"]}"#);
    let e = signed("abc", now + 60_000, "{}");
    assert_eq!(check_envelope(&e, now, SECRET).unwrap(), "{}");
}

#[test]
fn stale_envelope_expired_regardless_of_hmac() {
    let now = 1_700_000_000_000u64;
    let e = signed("abc", now - 60_001, "{}");
    assert_eq!(code_of(check_envelope(&e, now, SECRET)), "expired");
    let e = signed("abc", now + 120_000, "{}");
    assert_eq!(code_of(check_envelope(&e, now, SECRET)), "expired");
    let e = envelope(Some("abc"), Some(now - 70_000), Some("00".to_string()), Some("{}"));
    assert_eq!(code_of(check_envelope(&e, now, SECRET)), "expired");
}

#[test]
fn hmac_check_both_ways() {
    let now = 1_700_000_000_000u64;
    let rj = "{}";
    let good = tag(SECRET, &format!("n:{}:{}", now, rj));
    assert!(validate_hmac(SECRET, "n", now, rj, &hex::encode(&good)));
    for byte in 0..good.len() {
        for bit in 0..8 {
            let mut bad = good.clone();
            bad[byte] ^= 1 << bit;
            let e = envelope(Some("n"), Some(now), Some(hex::encode(&bad)), Some(rj));
            assert_eq!(code_of(check_envelope(&e, now, SECRET)), "hmac-mismatch");
            assert!(!digest_matches(&bad, &hex::encode(&good)));
        }
    }
    let e = envelope(Some("n"), Some(now), Some(hex::encode(&good)), Some(rj));
    assert_eq!(code_of(check_envelope(&e, now, "other-secret")), "hmac-mismatch");
    assert!(digest_matches(&good, &hex::encode(&good)));
    assert!(!digest_matches(&good, &hex::encode(&good).to_uppercase()));
}

#[test]
fn digest_matches_renders_lower_hex() {
    assert!(digest_matches(&[0x00, 0xab, 0x10], "00ab10"));
    assert!(!digest_matches(&[0x00, 0xab, 0x10], "00ab1"));
    assert!(digest_matches(&[], ""));
}

#[test]
fn error_codes_and_messages() {
    let r = error_response(&ExecError::Expired);
    assert!(!r.ok);
    let e = r.error.unwrap();
    assert_eq!(e.code, "expired");
    assert_eq!(e.message, "timestamp drift exceeds 60s");
    let e = error_response(&ExecError::BadRequest("eof".to_string())).error.unwrap();
    assert_eq!(e.code, "bad-request");
    assert_eq!(e.message, "invalid requestJson: eof");
    assert_eq!(ExecError::Denied.code(), "denied");
    assert_eq!(ExecError::Denied.message(), "execution denied by user");
    assert_eq!(ExecError::HmacMismatch.code(), "hmac-mismatch");
    assert_eq!(ExecError::UnknownType.code(), "unknown-type");
    assert_eq!(ExecError::AuthFailed.message(), "invalid token");
}

#[test]
fn message_kinds() {
    assert_eq!(message_kind("exec"), MessageKind::Exec);
    assert_eq!(message_kind("request"), MessageKind::ApprovalRequest);
    assert_eq!(message_kind("ping"), MessageKind::Unknown);
}

fn request(decision: Option<&str>) -> ExecHostRequest {
    ExecHostRequest {
        command: vec!["echo".to_string(), "hi".to_string()],
        raw_command: Some("echo hi".to_string()),
        cwd: Some("/tmp".to_string()),
        env: Some(vec![("SECRET_KEY".to_string(), "hunter2".to_string()), ("A".to_string(), "b".to_string())]),
        timeout_ms: None,
        agent_id: Some("agent".to_string()),
        session_key: None,
        approval_decision: decision.map(|s| s.to_string()),
    }
}

#[test]
fn preapproval_routes_directly() {
    assert!(is_preapproved(&request(Some("allow-once"))));
    assert!(is_preapproved(&request(Some("allow-always"))));
    assert!(!is_preapproved(&request(Some("deny"))));
    assert!(!is_preapproved(&request(None)));
    assert!(matches!(route_exec(&request(Some("allow-always")), 0), ExecRoute::RunNow));
    match route_exec(&request(None), 1000) {
        ExecRoute::AwaitApproval(p) => {
            assert_eq!(p.id.len(), 36);
            assert_eq!(p.expires_at_ms, 121_000);
        }
        ExecRoute::RunNow => panic!("needs approval"),
    }
}

#[test]
fn preview_holds_env_names_only() {
    let p = exec_preview("id-1".to_string(), &request(None), 5);
    assert_eq!(p.id, "id-1");
    assert_eq!(p.env_keys, vec!["SECRET_KEY".to_string(), "A".to_string()]);
    assert!(!format!("{:?}", p).contains("hunter2"));
    assert_eq!(p.argv, vec!["echo".to_string(), "hi".to_string()]);
    assert_eq!(p.raw_command.as_deref(), Some("echo hi"));
    assert_eq!(p.expires_at_ms, 120_005);
    let p = exec_preview("x".to_string(), &request(None), u64::MAX - 5);
    assert_eq!(p.expires_at_ms, u64::MAX);
}

#[test]
fn relay_requests() {
    assert!(relay_token_ok(&Some("tok".to_string()), "tok"));
    assert!(!relay_token_ok(&Some("tok2".to_string()), "tok"));
    assert!(!relay_token_ok(&None, "tok"));
    let req = RelayApprovalRequest {
        token: Some("tok".to_string()),
        id: Some("req-9".to_string()),
        command: None,
        command_argv: vec!["rm".to_string()],
        cwd: None,
        agent_id: None,
        session_key: Some("s".to_string()),
        env_keys: vec!["PATH".to_string()],
    };
    let p = relay_preview(&req, 10);
    assert_eq!(p.id, "req-9");
    assert_eq!(p.raw_command.as_deref(), Some(""));
    assert_eq!(p.env_keys, vec!["PATH".to_string()]);
    assert_eq!(p.expires_at_ms, 120_010);
}

#[test]
fn uuid_layout() {
    let bytes: Vec<u8> = (0u8..16).map(|b| b.wrapping_mul(17)).collect();
    let u = format_uuid(&bytes);
    assert_eq!(u, "00112233-4455-4677-8899-aabbccddeeff");
    let u = format_uuid(&[0xff; 16]);
    assert_eq!(u, "ffffffff-ffff-4fff-bfff-ffffffffffff");
}

#[test]
fn token_is_64_hex_digits() {
    let t = generate_token();
    assert_eq!(t.len(), 64);
    assert!(t.chars().all(|c| c.is_ascii_hexdigit() && !c.is_ascii_uppercase()));
    assert_ne!(t, generate_token());
}

#[test]
fn envelope_checked_against_clock() {
    let now = node_client::primitives::now_ms();
    let e = signed("fresh", now, "{}");
    assert_eq!(check_envelope_now(&e, SECRET).unwrap(), "{}");
    let e = signed("stale", now - 600_000, "{}");
    assert_eq!(code_of(check_envelope_now(&e, SECRET)), "expired");
}
