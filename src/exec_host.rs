//! The local exec host: authentication of exec envelopes, routing of
//! requests through the approval broker, and the response records.
//!
//! An envelope passes only with every field present, a timestamp within
//! sixty seconds of the local clock, and an HMAC-SHA256 tag over
//! `nonce:ts:requestJson` under the per-process secret; each failure is a
//! distinct error, checked in that order.

use crate::approvals::{ApprovalPreview, Decision};
use crate::primitives::{hex_encode, hex_lower, hex_nibble, hmac_sha256, hmac_sha256_of, now_ms, random_bytes};
use crate::runner::ExecHostRunResult;
use crate::text::{clone_opt, clone_strings, concat2, decimal, decimal_string, owned, str_eq};
use vstd::prelude::*;
use vstd::slice::slice_subrange;

verus! {

/// Largest accepted distance between an envelope's timestamp and the local
/// clock.
pub const HMAC_MAX_DRIFT_MS: u64 = 60_000;

/// How long a request waits for a human decision.
pub const APPROVAL_TIMEOUT_MS: u64 = 120_000;

/// An exec request as it arrives, before any check.
#[derive(Clone, Debug)]
pub struct ExecEnvelope {
    pub msg_type: String,
    pub id: Option<String>,
    pub nonce: Option<String>,
    pub ts: Option<u64>,
    pub hmac: Option<String>,
    pub request_json: Option<String>,
}

/// The request carried, as JSON text, inside an authenticated envelope.
/// The environment is a list of name/value pairs.
#[derive(Clone, Debug)]
pub struct ExecHostRequest {
    pub command: Vec<String>,
    pub raw_command: Option<String>,
    pub cwd: Option<String>,
    pub env: Option<Vec<(String, String)>>,
    pub timeout_ms: Option<i64>,
    pub agent_id: Option<String>,
    pub session_key: Option<String>,
    pub approval_decision: Option<String>,
}

/// A tagged rejection of a request.
#[derive(Clone, Debug)]
pub enum ExecError {
    MissingNonce,
    MissingTs,
    MissingHmac,
    MissingRequest,
    Expired,
    HmacMismatch,
    /// The request text is not a request; the reason is the parser's.
    BadRequest(String),
    Denied,
    UnknownType,
    AuthFailed,
}

/// The machine-readable code of an error.
pub open spec fn error_code(e: ExecError) -> Seq<char> {
    match e {
        ExecError::MissingNonce => "missing-nonce"@,
        ExecError::MissingTs => "missing-ts"@,
        ExecError::MissingHmac => "missing-hmac"@,
        ExecError::MissingRequest => "missing-request"@,
        ExecError::Expired => "expired"@,
        ExecError::HmacMismatch => "hmac-mismatch"@,
        ExecError::BadRequest(_) => "bad-request"@,
        ExecError::Denied => "denied"@,
        ExecError::UnknownType => "unknown-type"@,
        ExecError::AuthFailed => "auth-failed"@,
    }
}

/// The human-readable message of an error.
pub open spec fn error_message(e: ExecError) -> Seq<char> {
    match e {
        ExecError::MissingNonce => "nonce is required"@,
        ExecError::MissingTs => "ts is required"@,
        ExecError::MissingHmac => "hmac is required"@,
        ExecError::MissingRequest => "requestJson is required"@,
        ExecError::Expired => "timestamp drift exceeds 60s"@,
        ExecError::HmacMismatch => "HMAC validation failed"@,
        ExecError::BadRequest(reason) => "invalid requestJson: "@ + reason@,
        ExecError::Denied => "execution denied by user"@,
        ExecError::UnknownType => "unrecognized message type"@,
        ExecError::AuthFailed => "invalid token"@,
    }
}

impl ExecError {
    /// The machine-readable code.
    pub fn code(&self) -> (r: &'static str)
        ensures
            r@ == error_code(*self),
    {
        match self {
            ExecError::MissingNonce => "missing-nonce",
            ExecError::MissingTs => "missing-ts",
            ExecError::MissingHmac => "missing-hmac",
            ExecError::MissingRequest => "missing-request",
            ExecError::Expired => "expired",
            ExecError::HmacMismatch => "hmac-mismatch",
            ExecError::BadRequest(_) => "bad-request",
            ExecError::Denied => "denied",
            ExecError::UnknownType => "unknown-type",
            ExecError::AuthFailed => "auth-failed",
        }
    }

    /// The human-readable message.
    pub fn message(&self) -> (r: String)
        ensures
            r@ == error_message(*self),
    {
        match self {
            ExecError::MissingNonce => owned("nonce is required"),
            ExecError::MissingTs => owned("ts is required"),
            ExecError::MissingHmac => owned("hmac is required"),
            ExecError::MissingRequest => owned("requestJson is required"),
            ExecError::Expired => owned("timestamp drift exceeds 60s"),
            ExecError::HmacMismatch => owned("HMAC validation failed"),
            ExecError::BadRequest(reason) => concat2("invalid requestJson: ", reason.as_str()),
            ExecError::Denied => owned("execution denied by user"),
            ExecError::UnknownType => owned("unrecognized message type"),
            ExecError::AuthFailed => owned("invalid token"),
        }
    }
}

/// An optional text field that is present and not empty.
pub open spec fn present(o: Option<String>) -> bool {
    o is Some && o->0@.len() > 0
}

/// Distance between two instants in milliseconds.
pub open spec fn drift(now: u64, ts: u64) -> int {
    if now > ts {
        now - ts
    } else {
        ts - now
    }
}

/// The text that the HMAC tag covers: `nonce:ts:requestJson`, with the
/// timestamp in decimal.
pub open spec fn hmac_message(nonce: Seq<char>, ts: u64, request_json: Seq<char>) -> Seq<char> {
    nonce + seq![':'] + decimal(ts as nat) + seq![':'] + request_json
}

/// The hex digest an envelope must carry.
pub open spec fn expected_digest(secret: Seq<char>, nonce: Seq<char>, ts: u64, request_json: Seq<char>) -> Seq<char> {
    hex_lower(hmac_sha256_of(secret, hmac_message(nonce, ts, request_json)))
}

/// The outcome of checking an envelope at local time `now` under `secret`:
/// the request text, or the first check that fails.
pub open spec fn envelope_verdict(env: ExecEnvelope, now: u64, secret: Seq<char>) -> Result<Seq<char>, ExecError> {
    if !present(env.nonce) {
        Err(ExecError::MissingNonce)
    } else if env.ts is None {
        Err(ExecError::MissingTs)
    } else if !present(env.hmac) {
        Err(ExecError::MissingHmac)
    } else if !present(env.request_json) {
        Err(ExecError::MissingRequest)
    } else if drift(now, env.ts->0) > HMAC_MAX_DRIFT_MS {
        Err(ExecError::Expired)
    } else if env.hmac->0@ != expected_digest(secret, env.nonce->0@, env.ts->0, env.request_json->0@) {
        Err(ExecError::HmacMismatch)
    } else {
        Ok(env.request_json->0@)
    }
}

fn nonempty(o: &Option<String>) -> (r: bool)
    ensures
        r == present(*o),
{
    match o {
        Some(s) => s.unicode_len() > 0,
        None => false,
    }
}

/// Builds `nonce:ts:requestJson`.
pub fn build_hmac_message(nonce: &str, ts: u64, request_json: &str) -> (r: String)
    ensures
        r@ == hmac_message(nonce@, ts, request_json@),
{
    proof {
        reveal_strlit(":");
    }
    let mut m = concat2(nonce, ":");
    let digits = decimal_string(ts);
    m.append(digits.as_str());
    m.append(":");
    m.append(request_json);
    m
}

/// Whether a computed tag, rendered in lower-case hex, is the supplied
/// digest text.
pub fn digest_matches(digest: &[u8], supplied: &str) -> (r: bool)
    ensures
        r == (hex_lower(digest@) == supplied@),
{
    let hex = hex_encode(digest);
    str_eq(hex.as_str(), supplied)
}

/// Whether `supplied` is the HMAC-SHA256 tag, in lower-case hex, of
/// `nonce:ts:requestJson` under `secret`.
pub fn validate_hmac(secret: &str, nonce: &str, ts: u64, request_json: &str, supplied: &str) -> (r: bool)
    ensures
        r == (supplied@ == expected_digest(secret@, nonce@, ts, request_json@)),
{
    let msg = build_hmac_message(nonce, ts, request_json);
    let tag = hmac_sha256(secret, msg.as_str());
    digest_matches(tag.as_slice(), supplied)
}

/// Checks an envelope at local time `now` under the per-process `secret`
/// and hands back the request text it carries.
pub fn check_envelope(env: &ExecEnvelope, now: u64, secret: &str) -> (r: Result<String, ExecError>)
    ensures
        outcome_at(*env, now, secret@, r),
{
    if !nonempty(&env.nonce) {
        return Err(ExecError::MissingNonce);
    }
    let ts = match env.ts {
        Some(t) => t,
        None => return Err(ExecError::MissingTs),
    };
    if !nonempty(&env.hmac) {
        return Err(ExecError::MissingHmac);
    }
    if !nonempty(&env.request_json) {
        return Err(ExecError::MissingRequest);
    }
    let nonce = env.nonce.as_ref().unwrap();
    let supplied = env.hmac.as_ref().unwrap();
    let request_json = env.request_json.as_ref().unwrap();
    let d: u64 = if now > ts { now - ts } else { ts - now };
    if d > HMAC_MAX_DRIFT_MS {
        return Err(ExecError::Expired);
    }
    if !validate_hmac(secret, nonce.as_str(), ts, request_json.as_str(), supplied.as_str()) {
        return Err(ExecError::HmacMismatch);
    }
    Ok(request_json.clone())
}

/// Checks an envelope against the local clock as it reads now.
pub fn check_envelope_now(env: &ExecEnvelope, secret: &str) -> (r: Result<String, ExecError>)
    ensures
        exists|now: u64| #[trigger] outcome_at(*env, now, secret@, r),
{
    let now = now_ms();
    let r = check_envelope(env, now, secret);
    assert(outcome_at(*env, now, secret@, r));
    r
}

/// `r` is the outcome of checking `env` at local time `now`.
pub open spec fn outcome_at(env: ExecEnvelope, now: u64, secret: Seq<char>, r: Result<String, ExecError>) -> bool {
    match r {
        Ok(s) => envelope_verdict(env, now, secret) == Ok::<Seq<char>, ExecError>(s@),
        Err(e) => envelope_verdict(env, now, secret) == Err::<Seq<char>, ExecError>(e),
    }
}

/// An envelope lacking a field is refused with the error naming the first
/// missing field, in the order nonce, timestamp, digest, request; such an
/// envelope never reaches the runner.
pub proof fn lemma_missing_field_rejected(env: ExecEnvelope, now: u64, secret: Seq<char>)
    ensures
        !present(env.nonce) ==> envelope_verdict(env, now, secret) == Err::<Seq<char>, ExecError>(ExecError::MissingNonce),
        present(env.nonce) && env.ts is None ==> envelope_verdict(env, now, secret) == Err::<Seq<char>, ExecError>(ExecError::MissingTs),
        present(env.nonce) && env.ts is Some && !present(env.hmac) ==> envelope_verdict(env, now, secret) == Err::<Seq<char>, ExecError>(ExecError::MissingHmac),
        present(env.nonce) && env.ts is Some && present(env.hmac) && !present(env.request_json)
            ==> envelope_verdict(env, now, secret) == Err::<Seq<char>, ExecError>(ExecError::MissingRequest),
        !present(env.nonce) || env.ts is None || !present(env.hmac) || !present(env.request_json)
            ==> envelope_verdict(env, now, secret) is Err,
{
}

/// A complete envelope whose timestamp is more than sixty seconds away from
/// the local clock is refused as expired, whatever digest it carries and
/// whatever the secret.
pub proof fn lemma_stale_envelope_expired(env: ExecEnvelope, now: u64, secret: Seq<char>)
    requires
        present(env.nonce),
        env.ts is Some,
        present(env.hmac),
        present(env.request_json),
        drift(now, env.ts->0) > HMAC_MAX_DRIFT_MS,
    ensures
        envelope_verdict(env, now, secret) == Err::<Seq<char>, ExecError>(ExecError::Expired),
{
}

/// For a complete and fresh envelope the digest check decides: it passes
/// exactly when the supplied digest is the expected one, and otherwise the
/// envelope is refused with a digest mismatch.
pub proof fn lemma_hmac_check_both_ways(env: ExecEnvelope, now: u64, secret: Seq<char>)
    requires
        present(env.nonce),
        env.ts is Some,
        present(env.hmac),
        present(env.request_json),
        drift(now, env.ts->0) <= HMAC_MAX_DRIFT_MS,
    ensures
        envelope_verdict(env, now, secret) is Ok
            <==> env.hmac->0@ == expected_digest(secret, env.nonce->0@, env.ts->0, env.request_json->0@),
        envelope_verdict(env, now, secret) is Err
            ==> envelope_verdict(env, now, secret) == Err::<Seq<char>, ExecError>(ExecError::HmacMismatch),
{
}

proof fn lemma_hex_nibble_injective(a: nat, b: nat)
    requires
        a < 16,
        b < 16,
        hex_nibble(a) == hex_nibble(b),
    ensures
        a == b,
{
}

/// Distinct byte strings have distinct hex renderings.
pub proof fn lemma_hex_injective(d1: Seq<u8>, d2: Seq<u8>)
    requires
        hex_lower(d1) == hex_lower(d2),
    ensures
        d1 == d2,
{
    assert(hex_lower(d1).len() == 2 * d1.len());
    assert(d1.len() == d2.len());
    assert forall|i: int| 0 <= i < d1.len() implies d1[i] == d2[i] by {
        let j = 2 * i;
        assert(j % 2 == 0 && j / 2 == i);
        assert((j + 1) % 2 == 1 && (j + 1) / 2 == i);
        assert(hex_lower(d1)[j] == hex_lower(d2)[j]);
        assert(hex_lower(d1)[j + 1] == hex_lower(d2)[j + 1]);
        assert(hex_lower(d1)[j] == hex_nibble((d1[i] / 16) as nat));
        assert(hex_lower(d2)[j] == hex_nibble((d2[i] / 16) as nat));
        assert(hex_lower(d1)[j + 1] == hex_nibble((d1[i] % 16) as nat));
        assert(hex_lower(d2)[j + 1] == hex_nibble((d2[i] % 16) as nat));
        lemma_hex_nibble_injective((d1[i] / 16) as nat, (d2[i] / 16) as nat);
        lemma_hex_nibble_injective((d1[i] % 16) as nat, (d2[i] % 16) as nat);
    }
    assert(d1 =~= d2);
}

/// A byte string with bit `bit` of byte `i` flipped.
pub open spec fn flip_bit(d: Seq<u8>, i: int, bit: u8) -> Seq<u8> {
    d.update(i, d[i] ^ (1u8 << bit))
}

/// Flipping any single bit of a tag changes its hex rendering, so a
/// digest check against the altered tag fails.
pub proof fn lemma_flipped_digest_differs(d: Seq<u8>, i: int, bit: u8)
    requires
        0 <= i < d.len(),
        bit < 8,
    ensures
        hex_lower(flip_bit(d, i, bit)) != hex_lower(d),
{
    let x = d[i];
    assert((x ^ (1u8 << bit)) != x) by (bit_vector)
        requires
            bit < 8,
    ;
    if hex_lower(flip_bit(d, i, bit)) == hex_lower(d) {
        lemma_hex_injective(flip_bit(d, i, bit), d);
        assert(flip_bit(d, i, bit)[i] == d[i]);
    }
}

/// A complete and fresh envelope whose digest is the expected tag with one
/// bit flipped is refused with a digest mismatch.
pub proof fn lemma_flipped_envelope_rejected(env: ExecEnvelope, now: u64, secret: Seq<char>, i: int, bit: u8)
    requires
        present(env.nonce),
        env.ts is Some,
        present(env.hmac),
        present(env.request_json),
        drift(now, env.ts->0) <= HMAC_MAX_DRIFT_MS,
        0 <= i < hmac_sha256_of(secret, hmac_message(env.nonce->0@, env.ts->0, env.request_json->0@)).len(),
        bit < 8,
        env.hmac->0@ == hex_lower(
            flip_bit(hmac_sha256_of(secret, hmac_message(env.nonce->0@, env.ts->0, env.request_json->0@)), i, bit),
        ),
    ensures
        envelope_verdict(env, now, secret) == Err::<Seq<char>, ExecError>(ExecError::HmacMismatch),
{
    lemma_flipped_digest_differs(hmac_sha256_of(secret, hmac_message(env.nonce->0@, env.ts->0, env.request_json->0@)), i, bit);
}

/// The two kinds of message the exec host serves.
#[derive(Clone, Copy, Debug, PartialEq, Eq, Structural)]
pub enum MessageKind {
    /// An authenticated request to run a command.
    Exec,
    /// A relayed request for a human decision.
    ApprovalRequest,
    /// Anything else; answered with an `unknown-type` error.
    Unknown,
}

/// Tells the kinds of message apart by their `type` field.
pub fn message_kind(msg_type: &str) -> (r: MessageKind)
    ensures
        msg_type@ == "exec"@ ==> r == MessageKind::Exec,
        msg_type@ == "request"@ ==> r == MessageKind::ApprovalRequest,
        msg_type@ != "exec"@ && msg_type@ != "request"@ ==> r == MessageKind::Unknown,
{
    proof {
        reveal_strlit("exec");
        reveal_strlit("request");
        assert("exec"@.len() != "request"@.len());
    }
    if str_eq(msg_type, "exec") {
        MessageKind::Exec
    } else if str_eq(msg_type, "request") {
        MessageKind::ApprovalRequest
    } else {
        MessageKind::Unknown
    }
}

/// A request whose decision was made out of band: it runs without asking.
pub open spec fn preapproved(req: ExecHostRequest) -> bool {
    req.approval_decision is Some && (req.approval_decision->0@ == "allow-once"@ || req.approval_decision->0@
        == "allow-always"@)
}

/// Whether the request carries an allowing decision already.
pub fn is_preapproved(req: &ExecHostRequest) -> (r: bool)
    ensures
        r == preapproved(*req),
{
    match &req.approval_decision {
        Some(d) => str_eq(d.as_str(), "allow-once") || str_eq(d.as_str(), "allow-always"),
        None => false,
    }
}

/// The instant a request registered at `now` stops waiting, saturated at
/// the largest representable instant.
pub open spec fn expiry(now: u64) -> u64 {
    if now > u64::MAX - APPROVAL_TIMEOUT_MS {
        u64::MAX
    } else {
        (now + APPROVAL_TIMEOUT_MS) as u64
    }
}

/// The preview `p` shows the request `req` registered at `now`, with the
/// names of its environment variables and none of their values.
pub open spec fn previews_exec(p: ApprovalPreview, req: ExecHostRequest, now: u64) -> bool {
    &&& p.raw_command == req.raw_command
    &&& p.argv@ == req.command@
    &&& p.cwd == req.cwd
    &&& p.agent_id == req.agent_id
    &&& p.session_key == req.session_key
    &&& p.expires_at_ms == expiry(now)
    &&& match req.env {
        None => p.env_keys@.len() == 0,
        Some(e) => p.env_keys@.len() == e@.len() && forall|i: int| 0 <= i < e@.len() ==> #[trigger] p.env_keys@[i] == e@[i].0,
    }
}

fn expiry_of(now: u64) -> (r: u64)
    ensures
        r == expiry(now),
{
    if now > u64::MAX - APPROVAL_TIMEOUT_MS {
        u64::MAX
    } else {
        now + APPROVAL_TIMEOUT_MS
    }
}

fn env_names(env: &Option<Vec<(String, String)>>) -> (r: Vec<String>)
    ensures
        match *env {
            None => r@.len() == 0,
            Some(e) => r@.len() == e@.len() && forall|i: int| 0 <= i < e@.len() ==> #[trigger] r@[i] == e@[i].0,
        },
{
    let mut out: Vec<String> = Vec::new();
    match env {
        None => {},
        Some(e) => {
            let mut i: usize = 0;
            while i < e.len()
                invariant
                    i <= e@.len(),
                    out@.len() == i,
                    forall|j: int| 0 <= j < i ==> #[trigger] out@[j] == e@[j].0,
                decreases e@.len() - i,
            {
                out.push(e[i].0.clone());
                i = i + 1;
            }
        },
    }
    out
}

/// The preview of an exec request under the id `id`.
pub fn exec_preview(id: String, req: &ExecHostRequest, now: u64) -> (r: ApprovalPreview)
    ensures
        r.id == id,
        previews_exec(r, *req, now),
{
    ApprovalPreview {
        id,
        raw_command: clone_opt(&req.raw_command),
        argv: clone_strings(&req.command),
        cwd: clone_opt(&req.cwd),
        env_keys: env_names(&req.env),
        agent_id: clone_opt(&req.agent_id),
        session_key: clone_opt(&req.session_key),
        expires_at_ms: expiry_of(now),
    }
}

/// Where an authenticated exec request goes next.
pub enum ExecRoute {
    /// Run it now: it carries an allowing decision already.
    RunNow,
    /// Register this preview and wait for a decision.
    AwaitApproval(ApprovalPreview),
}

/// Routes an authenticated request: straight to the runner when it is
/// pre-approved, else to the approval broker under a fresh random id.
pub fn route_exec(req: &ExecHostRequest, now: u64) -> (r: ExecRoute)
    ensures
        preapproved(*req) <==> r is RunNow,
        r matches ExecRoute::AwaitApproval(p) ==> previews_exec(p, *req, now),
        r matches ExecRoute::AwaitApproval(p) ==> exists|b: Seq<u8>| b.len() == 16 && p.id@ == #[trigger] uuid_text(b),
{
    if is_preapproved(req) {
        ExecRoute::RunNow
    } else {
        ExecRoute::AwaitApproval(exec_preview(uuid_v4(), req, now))
    }
}

/// What a resolved decision means for an exec request: it runs unless
/// denied.
pub fn decision_outcome(d: Decision) -> (r: Result<(), ExecError>)
    ensures
        d == Decision::Deny ==> r matches Err(ExecError::Denied),
        d != Decision::Deny ==> r is Ok,
{
    if d.allows() {
        Ok(())
    } else {
        Err(ExecError::Denied)
    }
}

/// A relayed request for a decision, with the shared token it claims.
#[derive(Clone, Debug)]
pub struct RelayApprovalRequest {
    pub token: Option<String>,
    pub id: Option<String>,
    pub command: Option<String>,
    pub command_argv: Vec<String>,
    pub cwd: Option<String>,
    pub agent_id: Option<String>,
    pub session_key: Option<String>,
    pub env_keys: Vec<String>,
}

/// Whether a relayed request carries the shared token.
pub fn relay_token_ok(supplied: &Option<String>, token: &str) -> (r: bool)
    ensures
        r == (supplied is Some && supplied->0@ == token@),
{
    match supplied {
        Some(s) => str_eq(s.as_str(), token),
        None => false,
    }
}

/// The preview of a relayed request: its own id, or a fresh random one
/// when it has none; its command text, empty when absent.
pub fn relay_preview(req: &RelayApprovalRequest, now: u64) -> (r: ApprovalPreview)
    ensures
        req.id is Some ==> r.id == req.id->0,
        req.id is None ==> exists|b: Seq<u8>| b.len() == 16 && r.id@ == #[trigger] uuid_text(b),
        r.raw_command is Some,
        req.command is Some ==> r.raw_command->0 == req.command->0,
        req.command is None ==> r.raw_command->0@.len() == 0,
        r.argv@ == req.command_argv@,
        r.cwd == req.cwd,
        r.env_keys@ == req.env_keys@,
        r.agent_id == req.agent_id,
        r.session_key == req.session_key,
        r.expires_at_ms == expiry(now),
{
    let id = match &req.id {
        Some(i) => i.clone(),
        None => uuid_v4(),
    };
    let command = match &req.command {
        Some(c) => c.clone(),
        None => String::new(),
    };
    ApprovalPreview {
        id,
        raw_command: Some(command),
        argv: clone_strings(&req.command_argv),
        cwd: clone_opt(&req.cwd),
        env_keys: clone_strings(&req.env_keys),
        agent_id: clone_opt(&req.agent_id),
        session_key: clone_opt(&req.session_key),
        expires_at_ms: expiry_of(now),
    }
}

/// The error part of a failed response.
#[derive(Clone, Debug)]
pub struct ExecErrorPayload {
    pub code: String,
    pub message: String,
}

/// The response to an exec request: a run result, or a tagged error.
#[derive(Clone, Debug)]
pub struct ExecResponse {
    pub ok: bool,
    pub payload: Option<ExecHostRunResult>,
    pub error: Option<ExecErrorPayload>,
}

/// The response that reports `e`.
pub fn error_response(e: &ExecError) -> (r: ExecResponse)
    ensures
        !r.ok,
        r.payload is None,
        r.error is Some,
        r.error->0.code@ == error_code(*e),
        r.error->0.message@ == error_message(*e),
{
    ExecResponse {
        ok: false,
        payload: None,
        error: Some(ExecErrorPayload { code: owned(e.code()), message: e.message() }),
    }
}

/// The response that carries a run result.
pub fn success_response(result: ExecHostRunResult) -> (r: ExecResponse)
    ensures
        r.ok,
        r.payload == Some(result),
        r.error is None,
{
    ExecResponse { ok: true, payload: Some(result), error: None }
}

/// Random bytes with the version-4 and variant bits of a UUID set.
pub open spec fn uuid_bytes(b: Seq<u8>) -> Seq<u8> {
    b.update(6, (b[6] & 0x0f) | 0x40).update(8, (b[8] & 0x3f) | 0x80)
}

/// The canonical 8-4-4-4-12 hex text of a version-4 UUID made from 16
/// random bytes.
pub open spec fn uuid_text(b: Seq<u8>) -> Seq<char> {
    let v = uuid_bytes(b);
    hex_lower(v.subrange(0, 4)) + seq!['-'] + hex_lower(v.subrange(4, 6)) + seq!['-'] + hex_lower(
        v.subrange(6, 8),
    ) + seq!['-'] + hex_lower(v.subrange(8, 10)) + seq!['-'] + hex_lower(v.subrange(10, 16))
}

/// Formats 16 bytes as a version-4 UUID.
pub fn format_uuid(b: &[u8]) -> (r: String)
    requires
        b@.len() == 16,
    ensures
        r@ == uuid_text(b@),
{
    proof {
        reveal_strlit("-");
    }
    let mut v: Vec<u8> = Vec::new();
    let mut i: usize = 0;
    while i < 16
        invariant
            b@.len() == 16,
            i <= 16,
            v@ == b@.subrange(0, i as int),
        decreases 16 - i,
    {
        v.push(b[i]);
        i = i + 1;
    }
    assert(v@ =~= b@);
    let b6 = (v[6] & 0x0f) | 0x40;
    let b8 = (v[8] & 0x3f) | 0x80;
    v.set(6, b6);
    v.set(8, b8);
    assert(v@ == uuid_bytes(b@));
    let s = v.as_slice();
    let mut out = hex_encode(slice_subrange(s, 0, 4));
    out.append("-");
    out.append(hex_encode(slice_subrange(s, 4, 6)).as_str());
    out.append("-");
    out.append(hex_encode(slice_subrange(s, 6, 8)).as_str());
    out.append("-");
    out.append(hex_encode(slice_subrange(s, 8, 10)).as_str());
    out.append("-");
    out.append(hex_encode(slice_subrange(s, 10, 16)).as_str());
    out
}

/// A fresh random version-4 UUID.
pub fn uuid_v4() -> (r: String)
    ensures
        exists|b: Seq<u8>| b.len() == 16 && r@ == #[trigger] uuid_text(b),
{
    let b = random_bytes(16);
    format_uuid(b.as_slice())
}

/// A fresh per-process secret: 32 random bytes in hex.
pub fn generate_token() -> (r: String)
    ensures
        r@.len() == 64,
        exists|b: Seq<u8>| b.len() == 32 && r@ == hex_lower(b),
{
    let b = random_bytes(32);
    hex_encode(b.as_slice())
}

} // verus!
