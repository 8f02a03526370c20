//! The gateway session: connection status, the handshake request, the
//! classification of the handshake's answer, and the main loop's
//! bookkeeping of outstanding RPC calls.
//!
//! The transport itself is driven outside the library. Each thing that
//! happens on it is handed to a step function here, which updates the
//! session and says what to do next.

use crate::identity::{DeviceAssertion, DeviceIdentity, ROLE};
use crate::text::{clone_opt, concat2, contains, decimal, decimal_string, owned, seq_contains, str_eq};
use vstd::prelude::*;

verus! {

/// Lowest protocol version this client speaks.
pub const MIN_PROTOCOL: u32 = 3;

/// Highest protocol version this client speaks.
pub const MAX_PROTOCOL: u32 = 5;

/// The state of the gateway session.
#[derive(Clone, Copy, Debug, PartialEq, Eq, Structural)]
pub enum SessionState {
    Disconnected,
    Connecting,
    Connected,
    Pairing,
    Error,
}

/// The wire name of a session state.
pub open spec fn state_text(s: SessionState) -> Seq<char> {
    match s {
        SessionState::Disconnected => "disconnected"@,
        SessionState::Connecting => "connecting"@,
        SessionState::Connected => "connected"@,
        SessionState::Pairing => "pairing"@,
        SessionState::Error => "error"@,
    }
}

impl SessionState {
    /// The wire name of this state.
    pub fn as_str(&self) -> (r: &'static str)
        ensures
            r@ == state_text(*self),
    {
        match self {
            SessionState::Disconnected => "disconnected",
            SessionState::Connecting => "connecting",
            SessionState::Connected => "connected",
            SessionState::Pairing => "pairing",
            SessionState::Error => "error",
        }
    }
}

/// A snapshot of the session, as readers see it.
#[derive(Clone, Debug)]
pub struct GatewayConnectionStatus {
    pub state: SessionState,
    pub conn_id: Option<String>,
    pub protocol: Option<u32>,
    pub server_version: Option<String>,
    pub error: Option<String>,
    pub connected_at_ms: Option<u64>,
    pub pairing_request_id: Option<String>,
    pub device_id: Option<String>,
}

/// A status that records the state `state` and nothing else.
pub open spec fn is_bare(s: GatewayConnectionStatus, state: SessionState) -> bool {
    &&& s.state == state
    &&& s.conn_id is None
    &&& s.protocol is None
    &&& s.server_version is None
    &&& s.error is None
    &&& s.connected_at_ms is None
    &&& s.pairing_request_id is None
    &&& s.device_id is None
}

/// What the gateway reports in a successful handshake answer.
#[derive(Clone, Debug)]
pub struct HelloOk {
    pub conn_id: Option<String>,
    pub protocol: Option<u64>,
    pub server_version: Option<String>,
    pub device_token: Option<String>,
}

impl GatewayConnectionStatus {
    /// A status recording `state` alone.
    pub fn bare(state: SessionState) -> (r: GatewayConnectionStatus)
        ensures
            is_bare(r, state),
    {
        GatewayConnectionStatus {
            state,
            conn_id: None,
            protocol: None,
            server_version: None,
            error: None,
            connected_at_ms: None,
            pairing_request_id: None,
            device_id: None,
        }
    }

    /// The status of a session that failed with `message`.
    pub fn failed(message: String) -> (r: GatewayConnectionStatus)
        ensures
            r.state == SessionState::Error,
            r.error == Some(message),
            r.conn_id is None && r.protocol is None && r.server_version is None,
            r.connected_at_ms is None && r.pairing_request_id is None && r.device_id is None,
    {
        GatewayConnectionStatus {
            state: SessionState::Error,
            conn_id: None,
            protocol: None,
            server_version: None,
            error: Some(message),
            connected_at_ms: None,
            pairing_request_id: None,
            device_id: None,
        }
    }

    /// The status of a session the gateway holds for pairing approval.
    pub fn pairing(request_id: Option<String>, device_id: String) -> (r: GatewayConnectionStatus)
        ensures
            r.state == SessionState::Pairing,
            r.pairing_request_id == request_id,
            r.device_id == Some(device_id),
            r.error is None,
            r.conn_id is None && r.protocol is None && r.server_version is None && r.connected_at_ms is None,
    {
        GatewayConnectionStatus {
            state: SessionState::Pairing,
            conn_id: None,
            protocol: None,
            server_version: None,
            error: None,
            connected_at_ms: None,
            pairing_request_id: request_id,
            device_id: Some(device_id),
        }
    }

    /// The status of a session whose handshake succeeded at `now`.
    pub fn connected(hello: &HelloOk, device_id: String, now: u64) -> (r: GatewayConnectionStatus)
        ensures
            r.state == SessionState::Connected,
            r.conn_id == hello.conn_id,
            r.protocol == (match hello.protocol {
                Some(p) => Some(p as u32),
                None => None,
            }),
            r.server_version == hello.server_version,
            r.error is None,
            r.connected_at_ms == Some(now),
            r.pairing_request_id is None,
            r.device_id == Some(device_id),
    {
        let protocol = match hello.protocol {
            Some(p) => Some(
                #[verifier::truncate]
                (p as u32),
            ),
            None => None,
        };
        GatewayConnectionStatus {
            state: SessionState::Connected,
            conn_id: clone_opt(&hello.conn_id),
            protocol,
            server_version: clone_opt(&hello.server_version),
            error: None,
            connected_at_ms: Some(now),
            pairing_request_id: None,
            device_id: Some(device_id),
        }
    }

    /// A copy of this status.
    pub fn snapshot(&self) -> (r: GatewayConnectionStatus)
        ensures
            r == *self,
    {
        GatewayConnectionStatus {
            state: self.state,
            conn_id: clone_opt(&self.conn_id),
            protocol: self.protocol,
            server_version: clone_opt(&self.server_version),
            error: clone_opt(&self.error),
            connected_at_ms: self.connected_at_ms,
            pairing_request_id: clone_opt(&self.pairing_request_id),
            device_id: clone_opt(&self.device_id),
        }
    }
}

impl Default for GatewayConnectionStatus {
    fn default() -> (r: GatewayConnectionStatus)
        ensures
            is_bare(r, SessionState::Disconnected),
    {
        GatewayConnectionStatus::bare(SessionState::Disconnected)
    }
}

/// Credentials offered in a handshake.
#[derive(Clone, Debug)]
pub struct AuthParams {
    pub token: Option<String>,
    pub password: Option<String>,
}

/// How this client describes itself in a handshake.
#[derive(Clone, Debug)]
pub struct ClientInfo {
    pub id: String,
    pub display_name: String,
    pub version: String,
    pub platform: String,
    pub mode: String,
}

/// The parameters of the connect request. `device` and `auth` are left out
/// of the serialized request when they are `None`: the receiving schema
/// accepts an object or nothing, never null.
#[derive(Clone, Debug)]
pub struct ConnectParams {
    pub min_protocol: u32,
    pub max_protocol: u32,
    pub client: ClientInfo,
    pub role: String,
    pub scopes: Vec<String>,
    pub device: Option<DeviceAssertion>,
    pub auth: Option<AuthParams>,
}

/// The token a handshake offers: the configured one, else the device token
/// stored for this gateway, but only when no password is configured either.
pub open spec fn offered_token(token: Option<String>, password: Option<String>, stored: Option<String>) -> Option<String> {
    if token is Some {
        token
    } else if password is None {
        stored
    } else {
        None
    }
}

/// The credentials object of a handshake: present exactly when a token, a
/// password or a stored device token exists.
pub fn auth_params(token: &Option<String>, password: &Option<String>, stored: &Option<String>) -> (r: Option<
    AuthParams,
>)
    ensures
        r is None <==> (token is None && password is None && stored is None),
        r matches Some(a) ==> a.token == offered_token(*token, *password, *stored) && a.password == *password,
{
    let t = if token.is_some() {
        clone_opt(token)
    } else if password.is_none() {
        clone_opt(stored)
    } else {
        None
    };
    if t.is_none() && password.is_none() {
        None
    } else {
        Some(AuthParams { token: t, password: clone_opt(password) })
    }
}

/// The four scopes a handshake requests, in order.
pub open spec fn requested_scopes() -> Seq<Seq<char>> {
    seq!["operator.read"@, "operator.write"@, "operator.admin"@, "operator.approvals"@]
}

/// The display name shown to the gateway when none is configured.
pub const DEFAULT_DISPLAY_NAME: &'static str = "OpenClaw Control Surface";

/// The client version reported in handshakes.
pub const CLIENT_VERSION: &'static str = "1.0.0";

/// The connect request's parameters: protocol bounds, this client, the
/// operator role and its scopes, the optional device assertion and the
/// optional credentials.
pub fn connect_params(
    display_name: &Option<String>,
    platform: &str,
    device: Option<DeviceAssertion>,
    auth: Option<AuthParams>,
) -> (r: ConnectParams)
    ensures
        r.min_protocol == MIN_PROTOCOL,
        r.max_protocol == MAX_PROTOCOL,
        r.client.id@ == crate::identity::CLIENT_ID@,
        r.client.mode@ == crate::identity::CLIENT_MODE@,
        r.client.version@ == CLIENT_VERSION@,
        r.client.platform@ == platform@,
        display_name is Some ==> r.client.display_name == display_name->0,
        display_name is None ==> r.client.display_name@ == DEFAULT_DISPLAY_NAME@,
        r.role@ == ROLE@,
        r.scopes@.map_values(|s: String| s@) == requested_scopes(),
        r.device == device,
        r.auth == auth,
{
    let name = match display_name {
        Some(n) => n.clone(),
        None => owned(DEFAULT_DISPLAY_NAME),
    };
    let mut scopes: Vec<String> = Vec::new();
    scopes.push(owned("operator.read"));
    scopes.push(owned("operator.write"));
    scopes.push(owned("operator.admin"));
    scopes.push(owned("operator.approvals"));
    assert(scopes@.map_values(|s: String| s@) =~= requested_scopes());
    ConnectParams {
        min_protocol: MIN_PROTOCOL,
        max_protocol: MAX_PROTOCOL,
        client: ClientInfo {
            id: owned(crate::identity::CLIENT_ID),
            display_name: name,
            version: owned(CLIENT_VERSION),
            platform: owned(platform),
            mode: owned(crate::identity::CLIENT_MODE),
        },
        role: owned(ROLE),
        scopes,
        device,
        auth,
    }
}

/// The whole connect request for the gateway at `url`. A device assertion
/// is included only when a challenge nonce arrived and the stored seed is
/// usable; credentials only when some exist.
pub fn handshake_params(
    identity: &DeviceIdentity,
    url: &str,
    token: &Option<String>,
    password: &Option<String>,
    display_name: &Option<String>,
    nonce: &Option<String>,
    signed_at: u64,
    platform: &str,
) -> (r: ConnectParams)
    ensures
        r.auth is None <==> (token is None && password is None && !identity.tokens().contains_key(url@)),
        r.auth matches Some(a) ==> a.password == *password,
        r.auth matches Some(a) ==> (token is Some ==> a.token == *token),
        r.auth matches Some(a) ==> (token is None && password is None ==> a.token is Some && a.token->0@
            == identity.tokens()[url@].token),
        nonce is None ==> r.device is None,
        r.device matches Some(d) ==> d.nonce@ == nonce->0@ && d.signed_at == signed_at && d.id@
            == identity.spec_device_id(),
        r.min_protocol == MIN_PROTOCOL && r.max_protocol == MAX_PROTOCOL,
        r.role@ == ROLE@,
        r.scopes@.map_values(|s: String| s@) == requested_scopes(),
{
    let device = match nonce {
        Some(n) => {
            let token_part = match token {
                Some(t) => t.clone(),
                None => String::new(),
            };
            identity.device_assertion(n.as_str(), token_part.as_str(), signed_at, platform)
        },
        None => None,
    };
    let stored = identity.stored_token(url);
    let auth = auth_params(token, password, &stored);
    connect_params(display_name, platform, device, auth)
}

/// A response frame as received: each field as found, absent when missing
/// or of the wrong kind. `payload` is the payload's JSON text.
#[derive(Clone, Debug)]
pub struct ResponseFrame {
    pub id: Option<String>,
    pub ok: Option<bool>,
    pub payload: Option<String>,
    pub error_code: Option<String>,
    pub error_message: Option<String>,
    pub error_request_id: Option<String>,
}

/// An event frame as received; `nonce` is the payload's `nonce` text when
/// it has one.
#[derive(Clone, Debug)]
pub struct EventFrame {
    pub event: Option<String>,
    pub payload: Option<String>,
    pub nonce: Option<String>,
}

/// A text frame that parsed as JSON, by its `type`.
#[derive(Clone, Debug)]
pub enum InboundFrame {
    Response(ResponseFrame),
    Event(EventFrame),
    Other,
}

/// A close frame's code class and reason.
#[derive(Clone, Debug)]
pub struct CloseInfo {
    /// The close code is the policy-violation code.
    pub policy: bool,
    pub reason: String,
}

/// What the transport delivered.
#[derive(Clone, Debug)]
pub enum Incoming {
    Text(InboundFrame),
    /// A text frame that is not JSON.
    Malformed,
    Close(Option<CloseInfo>),
    Ping(Vec<u8>),
    /// The stream ended.
    End,
    /// The deadline for this wait passed.
    TimedOut,
    /// Anything else, including a transport error on one frame.
    Other,
}

/// The nonce a challenge event carries; nothing for anything else.
pub open spec fn challenge_of(m: Incoming) -> Option<String> {
    match m {
        Incoming::Text(InboundFrame::Event(e)) => if e.event is Some && e.event->0@ == "connect.challenge"@ {
            e.nonce
        } else {
            None
        },
        _ => None,
    }
}

/// The nonce of a challenge, when `m` is the challenge event.
pub fn challenge_nonce(m: &Incoming) -> (r: Option<String>)
    ensures
        r == challenge_of(*m),
{
    match m {
        Incoming::Text(InboundFrame::Event(e)) => {
            match &e.event {
                Some(name) => if str_eq(name.as_str(), "connect.challenge") {
                    clone_opt(&e.nonce)
                } else {
                    None
                },
                None => None,
            }
        },
        _ => None,
    }
}

/// Where the handshake stands after one thing happened on the transport.
#[derive(Clone, Debug)]
pub enum HandshakeStep {
    /// Keep waiting for the answer.
    Continue,
    /// Accepted; the answer's payload JSON text, if any.
    Connected(Option<String>),
    /// The gateway requires this device to be paired first; the pairing
    /// request id, if given. Nothing more is sent.
    Pairing(Option<String>),
    /// The handshake failed with this message. Nothing more is sent.
    Failed(String),
}

/// Whether a rejection code asks for pairing.
pub open spec fn is_pairing_code(code: Seq<char>) -> bool {
    code == "PAIRING_REQUIRED"@ || code == "1008"@
}

/// Whether a close reason mentions pairing.
pub open spec fn mentions_pairing(reason: Seq<char>) -> bool {
    seq_contains(reason, "PAIRING_REQUIRED"@) || seq_contains(reason, "1008"@)
}

/// Classifies what happened while waiting for the answer to the connect
/// request `connect_id`.
pub fn handshake_step(connect_id: &str, m: &Incoming) -> (r: HandshakeStep)
    ensures
        match m {
            Incoming::Text(InboundFrame::Response(f)) => if f.id is Some && f.id->0@ == connect_id@ {
                if f.ok == Some(true) {
                    r == HandshakeStep::Connected(f.payload)
                } else if f.error_code is Some && is_pairing_code(f.error_code->0@) {
                    r == HandshakeStep::Pairing(f.error_request_id)
                } else {
                    r matches HandshakeStep::Failed(msg) && (f.error_message is Some ==> msg == f.error_message->0)
                        && (f.error_message is None ==> msg@ == "handshake rejected"@)
                }
            } else {
                r is Continue
            },
            Incoming::Close(Some(c)) => if c.policy && mentions_pairing(c.reason@) {
                r == HandshakeStep::Pairing(None)
            } else if c.policy {
                r matches HandshakeStep::Failed(msg) && msg@ == "Connection closed: "@ + c.reason@
            } else {
                r matches HandshakeStep::Failed(msg) && msg@ == "Connection closed during handshake"@
            },
            Incoming::Close(None) => r matches HandshakeStep::Failed(msg) && msg@
                == "Connection closed during handshake"@,
            Incoming::End => r matches HandshakeStep::Failed(msg) && msg@ == "Connection closed during handshake"@,
            Incoming::TimedOut => r matches HandshakeStep::Failed(msg) && msg@ == "Handshake timed out"@,
            _ => r is Continue,
        },
{
    match m {
        Incoming::Text(InboundFrame::Response(f)) => {
            let matches_id = match &f.id {
                Some(id) => str_eq(id.as_str(), connect_id),
                None => false,
            };
            if !matches_id {
                return HandshakeStep::Continue;
            }
            if f.ok == Some(true) {
                return HandshakeStep::Connected(clone_opt(&f.payload));
            }
            let pairing = match &f.error_code {
                Some(c) => str_eq(c.as_str(), "PAIRING_REQUIRED") || str_eq(c.as_str(), "1008"),
                None => false,
            };
            if pairing {
                return HandshakeStep::Pairing(clone_opt(&f.error_request_id));
            }
            match &f.error_message {
                Some(msg) => HandshakeStep::Failed(msg.clone()),
                None => HandshakeStep::Failed(owned("handshake rejected")),
            }
        },
        Incoming::Close(Some(c)) => {
            if c.policy {
                if contains(c.reason.as_str(), "PAIRING_REQUIRED") || contains(c.reason.as_str(), "1008") {
                    HandshakeStep::Pairing(None)
                } else {
                    HandshakeStep::Failed(concat2("Connection closed: ", c.reason.as_str()))
                }
            } else {
                HandshakeStep::Failed(owned("Connection closed during handshake"))
            }
        },
        Incoming::Close(None) => HandshakeStep::Failed(owned("Connection closed during handshake")),
        Incoming::End => HandshakeStep::Failed(owned("Connection closed during handshake")),
        Incoming::TimedOut => HandshakeStep::Failed(owned("Handshake timed out")),
        _ => HandshakeStep::Continue,
    }
}

/// An RPC call sent and not yet answered.
#[derive(Clone, Debug)]
pub struct PendingRpc {
    pub id: String,
    pub method: String,
}

/// The session's own state: the published status, whether an outbound
/// sender is installed, the request counter and the outstanding calls.
pub struct GatewayState {
    status: GatewayConnectionStatus,
    connected: bool,
    seq: u64,
    pending: Vec<PendingRpc>,
}

/// The id of the `n`-th request of a session.
pub open spec fn request_id(n: u64) -> Seq<char> {
    seq!['c', 't', 'r', 'l', '-'] + decimal(n as nat)
}

/// What the main loop does after something arrived on the transport.
#[derive(Debug)]
pub enum LoopAction {
    /// Hand this result to the caller waiting on call `id`.
    Resolve { id: String, result: Result<String, String> },
    /// Republish this event, name and payload JSON text unchanged.
    Publish { event: String, payload: String },
    /// Answer a ping with these bytes.
    Pong(Vec<u8>),
    /// The connection is gone: leave the loop.
    Exit,
    /// Nothing to do.
    Ignore,
}

/// `result` is what the caller of a call answered by `f` receives: the
/// payload text (`null` when absent) on success, else the gateway's message
/// (`RPC error` when absent).
pub open spec fn resolves_response(result: Result<String, String>, f: ResponseFrame) -> bool {
    if f.ok == Some(true) {
        &&& result is Ok
        &&& f.payload is Some ==> result->Ok_0 == f.payload->0
        &&& f.payload is None ==> result->Ok_0@ == "null"@
    } else {
        &&& result is Err
        &&& f.error_message is Some ==> result->Err_0 == f.error_message->0
        &&& f.error_message is None ==> result->Err_0@ == "RPC error"@
    }
}

/// `event` and `payload` republish the event frame `e` unchanged (an absent
/// name as empty, an absent payload as `null`).
pub open spec fn republishes(event: String, payload: String, e: EventFrame) -> bool {
    &&& e.event is Some ==> event == e.event->0
    &&& e.event is None ==> event@.len() == 0
    &&& e.payload is Some ==> payload == e.payload->0
    &&& e.payload is None ==> payload@ == "null"@
}

/// The ids of a list of calls.
pub open spec fn ids_of(v: Seq<PendingRpc>) -> Set<Seq<char>> {
    Set::new(|k: Seq<char>| exists|i: int| 0 <= i < v.len() && #[trigger] v[i].id@ == k)
}

proof fn lemma_ids_of_push(v: Seq<PendingRpc>, e: PendingRpc)
    ensures
        ids_of(v.push(e)) == ids_of(v).insert(e.id@),
{
    let w = v.push(e);
    assert forall|k: Seq<char>| #[trigger] ids_of(w).contains(k) == ids_of(v).insert(e.id@).contains(k) by {
        if ids_of(w).contains(k) {
            let j = choose|j: int| 0 <= j < w.len() && #[trigger] w[j].id@ == k;
            if j < v.len() {
                assert(v[j] == w[j]);
            }
        }
        if ids_of(v).contains(k) {
            let j = choose|j: int| 0 <= j < v.len() && #[trigger] v[j].id@ == k;
            assert(w[j] == v[j]);
        }
        if k == e.id@ {
            assert(w[v.len() as int].id@ == k);
        }
    }
    assert(ids_of(w) =~= ids_of(v).insert(e.id@));
}

impl GatewayState {
    /// The published status.
    pub closed spec fn spec_status(&self) -> GatewayConnectionStatus {
        self.status
    }

    /// Whether an outbound sender is installed, so calls can be made.
    pub closed spec fn is_connected(&self) -> bool {
        self.connected
    }

    /// How many request ids were handed out.
    pub closed spec fn spec_seq(&self) -> u64 {
        self.seq
    }

    /// The ids of the outstanding calls.
    pub closed spec fn pending_ids(&self) -> Set<Seq<char>> {
        ids_of(self.pending@)
    }

    /// A disconnected session with no history.
    pub fn new() -> (r: GatewayState)
        ensures
            is_bare(r.spec_status(), SessionState::Disconnected),
            !r.is_connected(),
            r.spec_seq() == 0,
            r.pending_ids() == Set::<Seq<char>>::empty(),
    {
        let r = GatewayState {
            status: GatewayConnectionStatus::bare(SessionState::Disconnected),
            connected: false,
            seq: 0,
            pending: Vec::new(),
        };
        assert(r.pending_ids() =~= Set::<Seq<char>>::empty());
        r
    }

    /// A snapshot of the published status.
    pub fn get_status(&self) -> (r: GatewayConnectionStatus)
        ensures
            r == self.spec_status(),
    {
        self.status.snapshot()
    }

    /// Publishes a new status.
    pub fn set_status(&mut self, status: GatewayConnectionStatus)
        ensures
            final(self).spec_status() == status,
            final(self).is_connected() == old(self).is_connected(),
            final(self).spec_seq() == old(self).spec_seq(),
            final(self).pending_ids() == old(self).pending_ids(),
    {
        self.status = status;
    }

    /// The next request id, `ctrl-N` with N counting from 1 (wrapping
    /// after the largest counter value).
    pub fn next_id(&mut self) -> (r: String)
        ensures
            final(self).spec_seq() == (if old(self).spec_seq() == u64::MAX { 0 } else { old(self).spec_seq() + 1 }),
            r@ == request_id(final(self).spec_seq()),
            final(self).spec_status() == old(self).spec_status(),
            final(self).is_connected() == old(self).is_connected(),
            final(self).pending_ids() == old(self).pending_ids(),
    {
        proof {
            reveal_strlit("ctrl-");
        }
        self.seq = if self.seq == u64::MAX { 0 } else { self.seq + 1 };
        let digits = decimal_string(self.seq);
        concat2("ctrl-", digits.as_str())
    }

    /// A connection attempt begins.
    pub fn begin_connect(&mut self)
        ensures
            is_bare(final(self).spec_status(), SessionState::Connecting),
            final(self).is_connected() == old(self).is_connected(),
            final(self).spec_seq() == old(self).spec_seq(),
            final(self).pending_ids() == old(self).pending_ids(),
    {
        self.status = GatewayConnectionStatus::bare(SessionState::Connecting);
    }

    /// The user asked to disconnect: the outbound sender is dropped, so new
    /// calls fail at once, and the status is reset.
    pub fn disconnect(&mut self)
        ensures
            is_bare(final(self).spec_status(), SessionState::Disconnected),
            !final(self).is_connected(),
            final(self).spec_seq() == old(self).spec_seq(),
            final(self).pending_ids() == old(self).pending_ids(),
    {
        self.connected = false;
        self.status = GatewayConnectionStatus::bare(SessionState::Disconnected);
    }

    /// The connection attempt or the handshake failed with `message`.
    pub fn fail(&mut self, message: String)
        ensures
            final(self).spec_status().state == SessionState::Error,
            final(self).spec_status().error == Some(message),
            final(self).spec_status().conn_id is None,
            final(self).spec_status().pairing_request_id is None,
            final(self).is_connected() == old(self).is_connected(),
            final(self).spec_seq() == old(self).spec_seq(),
            final(self).pending_ids() == old(self).pending_ids(),
    {
        self.status = GatewayConnectionStatus::failed(message);
    }

    /// The gateway requires pairing; the session stops here.
    pub fn enter_pairing(&mut self, request_id: Option<String>, device_id: String)
        ensures
            final(self).spec_status().state == SessionState::Pairing,
            final(self).spec_status().pairing_request_id == request_id,
            final(self).spec_status().device_id == Some(device_id),
            final(self).spec_status().error is None,
            final(self).is_connected() == old(self).is_connected(),
            final(self).spec_seq() == old(self).spec_seq(),
            final(self).pending_ids() == old(self).pending_ids(),
    {
        self.status = GatewayConnectionStatus::pairing(request_id, device_id);
    }

    /// The handshake succeeded at `now`: the status records the gateway's
    /// answer and calls can be made.
    pub fn enter_connected(&mut self, hello: &HelloOk, device_id: String, now: u64)
        ensures
            final(self).spec_status().state == SessionState::Connected,
            final(self).spec_status().conn_id == hello.conn_id,
            final(self).spec_status().protocol == (match hello.protocol {
                Some(p) => Some(p as u32),
                None => None,
            }),
            final(self).spec_status().server_version == hello.server_version,
            final(self).spec_status().pairing_request_id is None,
            final(self).spec_status().connected_at_ms == Some(now),
            final(self).spec_status().device_id == Some(device_id),
            final(self).spec_status().error is None,
            final(self).is_connected(),
            final(self).spec_seq() == old(self).spec_seq(),
            final(self).pending_ids() == old(self).pending_ids(),
    {
        self.status = GatewayConnectionStatus::connected(hello, device_id, now);
        self.connected = true;
    }

    /// A caller asks for a call: it gets a fresh id while connected, and
    /// fails at once otherwise.
    pub fn begin_rpc(&mut self) -> (r: Result<String, String>)
        ensures
            old(self).is_connected() ==> r is Ok,
            r matches Ok(id) ==> id@ == request_id(final(self).spec_seq()),
            !old(self).is_connected() ==> (r matches Err(e) && e@ == "Gateway not connected"@),
            !old(self).is_connected() ==> final(self).spec_seq() == old(self).spec_seq(),
            final(self).spec_status() == old(self).spec_status(),
            final(self).is_connected() == old(self).is_connected(),
            final(self).pending_ids() == old(self).pending_ids(),
    {
        if !self.connected {
            return Err(owned("Gateway not connected"));
        }
        Ok(self.next_id())
    }

    /// The call `id` was sent; it now waits for its response.
    pub fn rpc_sent(&mut self, id: String, method: String)
        ensures
            final(self).pending_ids() == old(self).pending_ids().insert(id@),
            final(self).spec_status() == old(self).spec_status(),
            final(self).is_connected() == old(self).is_connected(),
            final(self).spec_seq() == old(self).spec_seq(),
    {
        let ghost old_self = *self;
        let ghost k = id@;
        self.pending.push(PendingRpc { id, method });
        proof {
            let n = old_self.pending@.len();
            assert forall|q: Seq<char>| #[trigger] self.pending_ids().contains(q) == old_self.pending_ids().insert(k).contains(q) by {
                if self.pending_ids().contains(q) {
                    let j = choose|j: int| 0 <= j < self.pending@.len() && #[trigger] self.pending@[j].id@ == q;
                    if j < n {
                        assert(old_self.pending@[j] == self.pending@[j]);
                    }
                }
                if old_self.pending_ids().contains(q) {
                    let j = choose|j: int| 0 <= j < old_self.pending@.len() && #[trigger] old_self.pending@[j].id@ == q;
                    assert(old_self.pending@[j] == self.pending@[j]);
                }
                if q == k {
                    assert(self.pending@[n as int].id@ == q);
                }
            }
            assert(self.pending_ids() =~= old_self.pending_ids().insert(k));
        }
    }

    /// Forgets the call `id`, whether or not it is outstanding; reports
    /// whether it was.
    pub fn remove_pending(&mut self, id: &str) -> (r: bool)
        ensures
            r == old(self).pending_ids().contains(id@),
            final(self).pending_ids() == old(self).pending_ids().remove(id@),
            final(self).spec_status() == old(self).spec_status(),
            final(self).is_connected() == old(self).is_connected(),
            final(self).spec_seq() == old(self).spec_seq(),
    {
        let ghost old_self = *self;
        let mut kept: Vec<PendingRpc> = Vec::new();
        let mut found = false;
        let mut i: usize = 0;
        proof {
            assert(ids_of(kept@) =~= ids_of(self.pending@.subrange(0, 0)).remove(id@));
            assert(!ids_of(self.pending@.subrange(0, 0)).contains(id@));
        }
        while i < self.pending.len()
            invariant
                *self == old_self,
                i <= self.pending@.len(),
                found == ids_of(self.pending@.subrange(0, i as int)).contains(id@),
                ids_of(kept@) == ids_of(self.pending@.subrange(0, i as int)).remove(id@),
            decreases self.pending@.len() - i,
        {
            let e = &self.pending[i];
            proof {
                assert(self.pending@.subrange(0, i + 1) =~= self.pending@.subrange(0, i as int).push(self.pending@[i as int]));
                lemma_ids_of_push(self.pending@.subrange(0, i as int), self.pending@[i as int]);
            }
            let ghost prev = ids_of(self.pending@.subrange(0, i as int));
            if str_eq(e.id.as_str(), id) {
                found = true;
                proof {
                    assert(prev.insert(id@).remove(id@) =~= prev.remove(id@));
                }
            } else {
                let ghost before = kept@;
                kept.push(PendingRpc { id: e.id.clone(), method: e.method.clone() });
                proof {
                    lemma_ids_of_push(before, kept@.last());
                    assert(before.push(kept@.last()) == kept@);
                    assert(prev.remove(id@).insert(e.id@) =~= prev.insert(e.id@).remove(id@));
                }
            }
            i = i + 1;
        }
        proof {
            assert(self.pending@.subrange(0, self.pending@.len() as int) =~= self.pending@);
        }
        self.pending = kept;
        found
    }

    /// Handles what arrived on the transport while connected: a response
    /// resolves and removes its outstanding call (a response for no
    /// outstanding call is dropped), an event is republished unchanged, a
    /// ping is answered, a close or the end of the stream ends the loop.
    pub fn on_incoming(&mut self, m: Incoming) -> (r: LoopAction)
        ensures
            final(self).spec_status() == old(self).spec_status(),
            final(self).is_connected() == old(self).is_connected(),
            final(self).spec_seq() == old(self).spec_seq(),
            match m {
                Incoming::Text(InboundFrame::Response(f)) => {
                    let id: Seq<char> = if f.id is Some { f.id->0@ } else { Seq::<char>::empty() };
                    &&& final(self).pending_ids() == old(self).pending_ids().remove(id)
                    &&& old(self).pending_ids().contains(id) ==> (r matches LoopAction::Resolve { id: rid, result }
                        && rid@ == id && resolves_response(result, f))
                    &&& !old(self).pending_ids().contains(id) ==> r is Ignore
                },
                Incoming::Text(InboundFrame::Event(e)) => final(self).pending_ids() == old(self).pending_ids() && (
                r matches LoopAction::Publish { event, payload } && republishes(event, payload, e)),
                Incoming::Ping(d) => final(self).pending_ids() == old(self).pending_ids() && r == LoopAction::Pong(d),
                Incoming::Close(_) => final(self).pending_ids() == old(self).pending_ids() && r is Exit,
                Incoming::End => final(self).pending_ids() == old(self).pending_ids() && r is Exit,
                _ => final(self).pending_ids() == old(self).pending_ids() && r is Ignore,
            },
    {
        match m {
            Incoming::Text(InboundFrame::Response(f)) => {
                let id = match &f.id {
                    Some(i) => i.clone(),
                    None => String::new(),
                };
                if !self.remove_pending(id.as_str()) {
                    return LoopAction::Ignore;
                }
                let result = if f.ok == Some(true) {
                    match f.payload {
                        Some(p) => Ok(p),
                        None => Ok(owned("null")),
                    }
                } else {
                    match f.error_message {
                        Some(e) => Err(e),
                        None => Err(owned("RPC error")),
                    }
                };
                LoopAction::Resolve { id, result }
            },
            Incoming::Text(InboundFrame::Event(e)) => {
                let event = match e.event {
                    Some(n) => n,
                    None => String::new(),
                };
                let payload = match e.payload {
                    Some(p) => p,
                    None => owned("null"),
                };
                LoopAction::Publish { event, payload }
            },
            Incoming::Ping(d) => LoopAction::Pong(d),
            Incoming::Close(_) => LoopAction::Exit,
            Incoming::End => LoopAction::Exit,
            _ => LoopAction::Ignore,
        }
    }

    /// The loop ended: the outbound sender is cleared, so new calls fail at
    /// once; every outstanding call is handed back to be failed; the status
    /// becomes disconnected.
    pub fn on_closed(&mut self) -> (r: Vec<String>)
        ensures
            !final(self).is_connected(),
            is_bare(final(self).spec_status(), SessionState::Disconnected),
            final(self).pending_ids() == Set::<Seq<char>>::empty(),
            final(self).spec_seq() == old(self).spec_seq(),
            forall|k: Seq<char>| old(self).pending_ids().contains(k) <==> exists|i: int| 0 <= i < r@.len() && #[trigger] r@[i]@ == k,
    {
        let ghost old_self = *self;
        let mut ids: Vec<String> = Vec::new();
        let mut i: usize = 0;
        while i < self.pending.len()
            invariant
                *self == old_self,
                i <= self.pending@.len(),
                ids@.len() == i,
                forall|j: int| 0 <= j < i ==> #[trigger] ids@[j]@ == self.pending@[j].id@,
            decreases self.pending@.len() - i,
        {
            ids.push(self.pending[i].id.clone());
            i = i + 1;
        }
        self.pending = Vec::new();
        self.connected = false;
        self.status = GatewayConnectionStatus::bare(SessionState::Disconnected);
        proof {
            assert(self.pending_ids() =~= Set::<Seq<char>>::empty());
            assert forall|k: Seq<char>| old_self.pending_ids().contains(k) <==> exists|i: int| 0 <= i < ids@.len() && #[trigger] ids@[i]@ == k by {
                if old_self.pending_ids().contains(k) {
                    let j = choose|j: int| 0 <= j < old_self.pending@.len() && #[trigger] old_self.pending@[j].id@ == k;
                    assert(ids@[j]@ == k);
                }
                if exists|i: int| 0 <= i < ids@.len() && #[trigger] ids@[i]@ == k {
                    let j = choose|i: int| 0 <= i < ids@.len() && #[trigger] ids@[i]@ == k;
                    assert(old_self.pending@[j].id@ == k);
                }
            }
        }
        ids
    }
}

/// How a caller's wait for its call ended.
pub enum RpcWait {
    /// The session handed back this result.
    Reply(Result<String, String>),
    /// No result within the deadline.
    TimedOut,
    /// The session dropped the call without a result.
    ChannelClosed,
}

/// What a caller is told: the payload JSON text, or an RPC error.
#[derive(Clone, Debug)]
pub struct RpcOutput {
    pub ok: bool,
    pub payload: Option<String>,
    pub error_code: Option<String>,
    pub error_message: Option<String>,
}

/// Deadline for a caller's wait on a call.
pub const RPC_TIMEOUT_MS: u64 = 30_000;

/// What a caller receives for the way its wait ended. A timeout and a
/// dropped call are errors of the call itself; a gateway rejection is an
/// `RPC_ERROR` output carrying the gateway's message.
pub fn rpc_outcome(w: RpcWait) -> (r: Result<RpcOutput, String>)
    ensures
        w is TimedOut ==> (r matches Err(e) && e@ == "RPC timed out"@),
        w is ChannelClosed ==> (r matches Err(e) && e@ == "Reply channel closed"@),
        w matches RpcWait::Reply(Ok(p)) ==> (r matches Ok(o) && o.ok && o.payload == Some(p) && o.error_code is None
            && o.error_message is None),
        w matches RpcWait::Reply(Err(m)) ==> (r matches Ok(o) && !o.ok && o.payload is None && o.error_code is Some
            && o.error_code->0@ == "RPC_ERROR"@ && o.error_message == Some(m)),
{
    match w {
        RpcWait::TimedOut => Err(owned("RPC timed out")),
        RpcWait::ChannelClosed => Err(owned("Reply channel closed")),
        RpcWait::Reply(Ok(p)) => Ok(RpcOutput { ok: true, payload: Some(p), error_code: None, error_message: None }),
        RpcWait::Reply(Err(m)) => Ok(
            RpcOutput { ok: false, payload: None, error_code: Some(owned("RPC_ERROR")), error_message: Some(m) },
        ),
    }
}

/// The message a caller gets when its call could not be sent.
pub fn send_failed_message(reason: &str) -> (r: String)
    ensures
        r@ == "send failed: "@ + reason@,
{
    concat2("send failed: ", reason)
}

/// The message every outstanding call gets when the connection closes.
pub fn connection_closed_message() -> (r: String)
    ensures
        r@ == "Connection closed"@,
{
    owned("Connection closed")
}

/// What the connect command answers once it looked at the session.
#[derive(Clone, Debug)]
pub enum ConnectReply {
    /// The handshake succeeded.
    Connected,
    /// The gateway requires pairing.
    PairingRequired { request_id: Option<String>, device_id: Option<String> },
    /// The attempt failed, with the recorded error.
    Failed(Option<String>),
    /// The attempt has not finished yet.
    InProgress,
}

/// The connect command's answer for the session status it found.
pub fn connect_reply(status: &GatewayConnectionStatus) -> (r: ConnectReply)
    ensures
        status.state == SessionState::Connected ==> r is Connected,
        status.state == SessionState::Pairing ==> r == (ConnectReply::PairingRequired {
            request_id: status.pairing_request_id,
            device_id: status.device_id,
        }),
        status.state == SessionState::Error ==> r == ConnectReply::Failed(status.error),
        status.state == SessionState::Connecting || status.state == SessionState::Disconnected ==> r is InProgress,
{
    match status.state {
        SessionState::Connected => ConnectReply::Connected,
        SessionState::Pairing => ConnectReply::PairingRequired {
            request_id: clone_opt(&status.pairing_request_id),
            device_id: clone_opt(&status.device_id),
        },
        SessionState::Error => ConnectReply::Failed(clone_opt(&status.error)),
        _ => ConnectReply::InProgress,
    }
}

} // verus!
