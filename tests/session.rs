use base64::Engine;
use ed25519_dalek::Verifier;
use node_client::identity::DeviceIdentity;
use node_client::session::{
    auth_params, challenge_nonce, handshake_params, handshake_step, rpc_outcome, CloseInfo, EventFrame, GatewayConnectionStatus,
    GatewayState, HandshakeStep, HelloOk, InboundFrame, Incoming, LoopAction, ResponseFrame, RpcWait, SessionState,
};

fn identity() -> DeviceIdentity {
    DeviceIdentity::from_seed(&vec![7u8; 32], 1_000)
}

fn response(id: &str, ok: bool) -> ResponseFrame {
    ResponseFrame {
        id: Some(id.to_string()),
        ok: Some(ok),
        payload: None,
        error_code: None,
        error_message: None,
        error_request_id: None,
    }
}

#[test]
fn auth_absent_without_credentials() {
    let id = identity();
    let p = handshake_params(&id, "ws://127.0.0.1:18789", &None, &None, &None, &None, 5, "linux");
    assert!(p.auth.is_none());
    assert!(p.device.is_none());
    assert_eq!(p.min_protocol, 3);
    assert_eq!(p.max_protocol, 5);
    assert_eq!(p.role, "operator");
    assert_eq!(p.scopes, vec!["operator.read", "operator.write", "operator.admin", "operator.approvals"]);
    assert_eq!(p.client.id, "openclaw-control-surface");
    assert_eq!(p.client.display_name, "OpenClaw Control Surface");
    assert_eq!(p.client.mode, "ui");
    assert_eq!(p.client.version, "1.0.0");
    assert_eq!(p.client.platform, "linux");
}

#[test]
fn auth_sources() {
    let a = auth_params(&Some("t".to_string()), &None, &Some("stored".to_string())).unwrap();
    assert_eq!(a.token.as_deref(), Some("t"));
    assert!(a.password.is_none());
    let a = auth_params(&None, &Some("pw".to_string()), &Some("stored".to_string())).unwrap();
    assert!(a.token.is_none());
    assert_eq!(a.password.as_deref(), Some("pw"));
    let a = auth_params(&None, &None, &Some("stored".to_string())).unwrap();
    assert_eq!(a.token.as_deref(), Some("stored"));
    assert!(auth_params(&None, &None, &None).is_none());

    let mut id = identity();
    id.record_gateway_token("ws://h:1", "devtok", 9);
    let p = handshake_params(&id, "ws://h:1", &None, &None, &Some("Desk".to_string()), &None, 5, "linux");
    assert_eq!(p.auth.unwrap().token.as_deref(), Some("devtok"));
    assert_eq!(p.client.display_name, "Desk");
    let p = handshake_params(&id, "ws://other:1", &None, &None, &None, &None, 5, "linux");
    assert!(p.auth.is_none());
}

#[test]
fn challenge_adds_signed_device_assertion() {
    let id = identity();
    let p = handshake_params(&id, "ws://h:1", &Some("tok".to_string()), &None, &None, &Some("nonce-1".to_string()), 42, "linux");
    let d = p.device.unwrap();
    assert_eq!(d.nonce, "nonce-1");
    assert_eq!(d.signed_at, 42);
    assert_eq!(d.id, id.device_id);
    let key = ed25519_dalek::SigningKey::from_bytes(&[7u8; 32]).verifying_key();
    let msg = format!(
        "v3|{}|openclaw-control-surface|ui|operator|operator.read,operator.write,operator.admin,operator.approvals|42|tok|nonce-1|linux|",
        id.device_id
    );
    let sig = base64::engine::general_purpose::URL_SAFE_NO_PAD.decode(&d.signature).unwrap();
    let sig = ed25519_dalek::Signature::from_slice(&sig).unwrap();
    assert!(key.verify(msg.as_bytes(), &sig).is_ok());
}

#[test]
fn challenge_nonce_read_from_event() {
    let ev = Incoming::Text(InboundFrame::Event(EventFrame {
        event: Some("connect.challenge".to_string()),
        payload: Some(r#"{"nonce":"abc"}"#.to_string()),
        nonce: Some("abc".to_string()),
    }));
    assert_eq!(challenge_nonce(&ev).as_deref(), Some("abc"));
    let other = Incoming::Text(InboundFrame::Event(EventFrame {
        event: Some("tick".to_string()),
        payload: None,
        nonce: Some("abc".to_string()),
    }));
    assert!(challenge_nonce(&other).is_none());
    assert!(challenge_nonce(&Incoming::TimedOut).is_none());
}

#[test]
fn pairing_required_scenario() {
    let mut f = response("ctrl-1", false);
    f.error_code = Some("PAIRING_REQUIRED".to_string());
    f.error_request_id = Some("abc123".to_string());
    let step = handshake_step("ctrl-1", &Incoming::Text(InboundFrame::Response(f)));
    let request_id = match step {
        HandshakeStep::Pairing(r) => r,
        other => panic!("unexpected {:?}", other),
    };
    assert_eq!(request_id.as_deref(), Some("abc123"));
    let id = identity();
    let mut s = GatewayState::new();
    s.enter_pairing(request_id, id.device_id.clone());
    let st = s.get_status();
    assert_eq!(st.state, SessionState::Pairing);
    assert_eq!(st.state.as_str(), "pairing");
    assert_eq!(st.pairing_request_id.as_deref(), Some("abc123"));
    assert_eq!(st.device_id.as_deref(), Some(id.device_id.as_str()));
    assert!(st.error.is_none());
    let mut f = response("ctrl-1", false);
    f.error_code = Some("1008".to_string());
    assert!(matches!(handshake_step("ctrl-1", &Incoming::Text(InboundFrame::Response(f))), HandshakeStep::Pairing(None)));
}

#[test]
fn handshake_outcomes() {
    let mut ok = response("ctrl-1", true);
    ok.payload = Some("{}".to_string());
    match handshake_step("ctrl-1", &Incoming::Text(InboundFrame::Response(ok.clone()))) {
        HandshakeStep::Connected(p) => assert_eq!(p.as_deref(), Some("{}")),
        other => panic!("unexpected {:?}", other),
    }
    assert!(matches!(handshake_step("ctrl-2", &Incoming::Text(InboundFrame::Response(ok))), HandshakeStep::Continue));
    let mut bad = response("ctrl-1", false);
    bad.error_message = Some("nope".to_string());
    match handshake_step("ctrl-1", &Incoming::Text(InboundFrame::Response(bad))) {
        HandshakeStep::Failed(m) => assert_eq!(m, "nope"),
        other => panic!("unexpected {:?}", other),
    }
    match handshake_step("ctrl-1", &Incoming::Text(InboundFrame::Response(response("ctrl-1", false)))) {
        HandshakeStep::Failed(m) => assert_eq!(m, "handshake rejected"),
        other => panic!("unexpected {:?}", other),
    }
    let close = |policy: bool, reason: &str| Incoming::Close(Some(CloseInfo { policy, reason: reason.to_string() }));
    assert!(matches!(handshake_step("c", &close(true, "device PAIRING_REQUIRED")), HandshakeStep::Pairing(None)));
    match handshake_step("c", &close(true, "bad auth")) {
        HandshakeStep::Failed(m) => assert_eq!(m, "Connection closed: bad auth"),
        other => panic!("unexpected {:?}", other),
    }
    match handshake_step("c", &close(false, "PAIRING_REQUIRED")) {
        HandshakeStep::Failed(m) => assert_eq!(m, "Connection closed during handshake"),
        other => panic!("unexpected {:?}", other),
    }
    match handshake_step("c", &Incoming::End) {
        HandshakeStep::Failed(m) => assert_eq!(m, "Connection closed during handshake"),
        other => panic!("unexpected {:?}", other),
    }
    match handshake_step("c", &Incoming::TimedOut) {
        HandshakeStep::Failed(m) => assert_eq!(m, "Handshake timed out"),
        other => panic!("unexpected {:?}", other),
    }
    assert!(matches!(handshake_step("c", &Incoming::Malformed), HandshakeStep::Continue));
}

fn connected_state() -> GatewayState {
    let mut s = GatewayState::new();
    let hello = HelloOk {
        conn_id: Some("conn-7".to_string()),
        protocol: Some(4),
        server_version: Some("2.1".to_string()),
        device_token: None,
    };
    s.enter_connected(&hello, "dev".to_string(), 77);
    s
}

#[test]
fn connected_status_records_hello() {
    let s = connected_state();
    let st = s.get_status();
    assert_eq!(st.state, SessionState::Connected);
    assert_eq!(st.conn_id.as_deref(), Some("conn-7"));
    assert_eq!(st.protocol, Some(4));
    assert_eq!(st.server_version.as_deref(), Some("2.1"));
    assert_eq!(st.connected_at_ms, Some(77));
    assert_eq!(st.device_id.as_deref(), Some("dev"));
}

#[test]
fn rpc_timeout_then_late_response_dropped() {
    let mut s = connected_state();
    let id = s.begin_rpc().unwrap();
    assert_eq!(id, "ctrl-1");
    s.rpc_sent(id.clone(), "status".to_string());
    assert_eq!(rpc_outcome(RpcWait::TimedOut).unwrap_err(), "RPC timed out");
    assert!(s.remove_pending(&id));
    let late = Incoming::Text(InboundFrame::Response(response(&id, true)));
    assert!(matches!(s.on_incoming(late), LoopAction::Ignore));
}

#[test]
fn rpc_response_resolves_once() {
    let mut s = connected_state();
    let id = s.begin_rpc().unwrap();
    s.rpc_sent(id.clone(), "m".to_string());
    let mut f = response(&id, true);
    f.payload = Some(r#"{"x":1}"#.to_string());
    match s.on_incoming(Incoming::Text(InboundFrame::Response(f.clone()))) {
        LoopAction::Resolve { id: rid, result } => {
            assert_eq!(rid, id);
            assert_eq!(result, Ok(r#"{"x":1}"#.to_string()));
        }
        other => panic!("unexpected {:?}", other),
    }
    assert!(matches!(s.on_incoming(Incoming::Text(InboundFrame::Response(f))), LoopAction::Ignore));
    let id2 = s.begin_rpc().unwrap();
    assert_eq!(id2, "ctrl-2");
    s.rpc_sent(id2.clone(), "m".to_string());
    match s.on_incoming(Incoming::Text(InboundFrame::Response(response(&id2, false)))) {
        LoopAction::Resolve { result, .. } => assert_eq!(result, Err("RPC error".to_string())),
        other => panic!("unexpected {:?}", other),
    }
}

#[test]
fn rpc_outcomes() {
    let o = rpc_outcome(RpcWait::Reply(Ok("1".to_string()))).unwrap();
    assert!(o.ok);
    assert_eq!(o.payload.as_deref(), Some("1"));
    let o = rpc_outcome(RpcWait::Reply(Err("bad".to_string()))).unwrap();
    assert!(!o.ok);
    assert_eq!(o.error_code.as_deref(), Some("RPC_ERROR"));
    assert_eq!(o.error_message.as_deref(), Some("bad"));
    assert_eq!(rpc_outcome(RpcWait::ChannelClosed).unwrap_err(), "Reply channel closed");
}

#[test]
fn events_pings_and_close() {
    let mut s = connected_state();
    let ev = Incoming::Text(InboundFrame::Event(EventFrame {
        event: Some("exec.approval".to_string()),
        payload: Some("[1]".to_string()),
        nonce: None,
    }));
    match s.on_incoming(ev) {
        LoopAction::Publish { event, payload } => {
            assert_eq!(event, "exec.approval");
            assert_eq!(payload, "[1]");
        }
        other => panic!("unexpected {:?}", other),
    }
    match s.on_incoming(Incoming::Ping(vec![1, 2])) {
        LoopAction::Pong(d) => assert_eq!(d, vec![1, 2]),
        other => panic!("unexpected {:?}", other),
    }
    assert!(matches!(s.on_incoming(Incoming::End), LoopAction::Exit));
    assert!(matches!(s.on_incoming(Incoming::Close(None)), LoopAction::Exit));
}

#[test]
fn close_drains_pending_and_blocks_new_calls() {
    let mut s = connected_state();
    let a = s.begin_rpc().unwrap();
    s.rpc_sent(a.clone(), "x".to_string());
    let b = s.begin_rpc().unwrap();
    s.rpc_sent(b.clone(), "y".to_string());
    let mut drained = s.on_closed();
    drained.sort();
    assert_eq!(drained, vec![a, b]);
    assert_eq!(s.get_status().state, SessionState::Disconnected);
    assert_eq!(s.begin_rpc().unwrap_err(), "Gateway not connected");
    assert!(s.on_closed().is_empty());
}

#[test]
fn status_defaults_and_disconnect() {
    let d = GatewayConnectionStatus::default();
    assert_eq!(d.state.as_str(), "disconnected");
    assert!(d.conn_id.is_none() && d.error.is_none() && d.device_id.is_none());
    let mut s = connected_state();
    s.disconnect();
    assert_eq!(s.get_status().state, SessionState::Disconnected);
    assert!(s.begin_rpc().is_err());
    s.begin_connect();
    assert_eq!(s.get_status().state.as_str(), "connecting");
    s.fail("WS connect failed: refused".to_string());
    let st = s.get_status();
    assert_eq!(st.state.as_str(), "error");
    assert_eq!(st.error.as_deref(), Some("WS connect failed: refused"));
}
