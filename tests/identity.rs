use base64::Engine;
use node_client::identity::{build_signature_payload, DeviceIdentity, GatewayTokenEntry};
use sha2::Digest;

#[test]
fn device_id_is_hex_sha256_of_public_key() {
    let seed = vec![3u8; 32];
    let id = DeviceIdentity::from_seed(&seed, 1234);
    let public = ed25519_dalek::SigningKey::from_bytes(&[3u8; 32]).verifying_key().to_bytes();
    assert_eq!(id.device_id, hex::encode(sha2::Sha256::digest(public)));
    assert_eq!(id.device_id.len(), 64);
    let b64 = base64::engine::general_purpose::URL_SAFE_NO_PAD;
    assert_eq!(id.public_key(), b64.encode(public));
    assert_eq!(id.private_key(), b64.encode([3u8; 32]));
    assert_eq!(id.created_at_ms(), 1234);
    assert_eq!(id.version(), 1);
    assert!(id.token_entries().is_empty());
}

#[test]
fn generated_identities_differ() {
    let a = DeviceIdentity::generate(1);
    let b = DeviceIdentity::generate(1);
    assert_ne!(a.device_id, b.device_id);
    assert!(a.device_assertion("n", "", 1, "linux").is_some());
}

#[test]
fn signature_payload_field_order() {
    let p = build_signature_payload("dev", "client", "ui", "operator", "a,b", 1700000000123, "", "n0", "linux");
    assert_eq!(p, "v3|dev|client|ui|operator|a,b|1700000000123||n0|linux|");
}

#[test]
fn unusable_seed_gives_no_assertion() {
    let id = DeviceIdentity::from_parts(1, "d".to_string(), "pk".to_string(), "!!not base64!!".to_string(), 0, vec![]);
    assert!(id.device_assertion("n", "", 1, "linux").is_none());
    let short = base64::engine::general_purpose::URL_SAFE_NO_PAD.encode([1u8; 16]);
    let id = DeviceIdentity::from_parts(1, "d".to_string(), "pk".to_string(), short, 0, vec![]);
    assert!(id.device_assertion("n", "", 1, "linux").is_none());
}

#[test]
fn gateway_tokens_upsert() {
    let mut id = DeviceIdentity::from_seed(&vec![9u8; 32], 0);
    assert!(id.stored_token("ws://a:1").is_none());
    id.record_gateway_token("ws://a:1", "t1", 10);
    id.record_gateway_token("ws://b:2", "t2", 11);
    id.record_gateway_token("ws://a:1", "t3", 12);
    assert_eq!(id.stored_token("ws://a:1").as_deref(), Some("t3"));
    assert_eq!(id.stored_token("ws://b:2").as_deref(), Some("t2"));
    let entries = id.token_entries();
    assert_eq!(entries.len(), 2);
    let a = entries.iter().find(|e| e.url == "ws://a:1").unwrap();
    assert_eq!(a.role, "operator");
    assert_eq!(a.issued_at_ms, 12);
}

#[test]
fn from_parts_keeps_last_entry_per_url() {
    let e = |url: &str, t: &str| GatewayTokenEntry {
        url: url.to_string(),
        token: t.to_string(),
        role: "operator".to_string(),
        issued_at_ms: 1,
    };
    let id = DeviceIdentity::from_parts(1, "d".to_string(), "p".to_string(), "s".to_string(), 5, vec![e("u", "1"), e("v", "2"), e("u", "3")]);
    assert_eq!(id.stored_token("u").as_deref(), Some("3"));
    assert_eq!(id.token_entries().len(), 2);
    assert_eq!(id.device_id, "d");
}
