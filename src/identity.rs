//! The device identity: an Ed25519 key pair whose public half, hashed,
//! names the device, and the device tokens that gateways issued to it.
//!
//! The device assertion sent in a handshake signs a pipe-delimited text
//! whose field order is a fixed wire contract:
//! `v3|deviceId|clientId|mode|role|scopes|signedAtMs|token|nonce|platform|`.

use crate::primitives::{
    b64url_decode, b64url_decoded, b64url_encode, b64url_of, ed25519_public_key, ed25519_public_of, ed25519_sign,
    ed25519_signature_of, generate_seed, hex_encode, hex_lower, sha256, sha256_of,
};
use crate::text::{decimal, decimal_string, owned, str_eq};
use vstd::prelude::*;

verus! {

/// The client id this program presents to gateways.
pub const CLIENT_ID: &'static str = "openclaw-control-surface";

/// The client mode this program presents to gateways.
pub const CLIENT_MODE: &'static str = "ui";

/// The role requested in every handshake.
pub const ROLE: &'static str = "operator";

/// The four scopes requested in every handshake, comma-joined as they are
/// signed.
pub const SCOPES_JOINED: &'static str = "operator.read,operator.write,operator.admin,operator.approvals";

/// A device token a gateway issued after a successful handshake.
#[derive(Clone, Debug)]
pub struct GatewayTokenEntry {
    pub url: String,
    pub token: String,
    pub role: String,
    pub issued_at_ms: u64,
}

/// What a stored token entry holds, without its url.
pub struct TokenView {
    pub token: Seq<char>,
    pub role: Seq<char>,
    pub issued_at_ms: u64,
}

/// The persistent identity of this installation.
#[derive(Debug)]
pub struct DeviceIdentity {
    version: u32,
    pub device_id: String,
    public_key_bytes: String,
    private_key_bytes: String,
    created_at_ms: u64,
    gateway_tokens: TokenList,
}

/// The signed assertion that a handshake carries when the gateway sent a
/// challenge.
#[derive(Clone, Debug)]
pub struct DeviceAssertion {
    pub id: String,
    pub public_key: String,
    pub signature: String,
    pub signed_at: u64,
    pub nonce: String,
}

/// The device id of a public key: the hex SHA-256 of its raw bytes.
pub open spec fn device_id_of(public_key: Seq<u8>) -> Seq<char> {
    hex_lower(sha256_of(public_key))
}

/// The text a device assertion signs.
pub open spec fn signature_payload(
    device_id: Seq<char>,
    client_id: Seq<char>,
    mode: Seq<char>,
    role: Seq<char>,
    scopes: Seq<char>,
    signed_at: u64,
    token: Seq<char>,
    nonce: Seq<char>,
    platform: Seq<char>,
) -> Seq<char> {
    seq!['v', '3', '|'] + device_id + seq!['|'] + client_id + seq!['|'] + mode + seq!['|'] + role + seq!['|']
        + scopes + seq!['|'] + decimal(signed_at as nat) + seq!['|'] + token + seq!['|'] + nonce + seq!['|']
        + platform + seq!['|']
}

/// Builds the text a device assertion signs, field by field.
pub fn build_signature_payload(
    device_id: &str,
    client_id: &str,
    mode: &str,
    role: &str,
    scopes: &str,
    signed_at: u64,
    token: &str,
    nonce: &str,
    platform: &str,
) -> (r: String)
    ensures
        r@ == signature_payload(device_id@, client_id@, mode@, role@, scopes@, signed_at, token@, nonce@, platform@),
{
    proof {
        reveal_strlit("v3|");
        reveal_strlit("|");
    }
    let mut s = owned("v3|");
    s.append(device_id);
    s.append("|");
    s.append(client_id);
    s.append("|");
    s.append(mode);
    s.append("|");
    s.append(role);
    s.append("|");
    s.append(scopes);
    s.append("|");
    let digits = decimal_string(signed_at);
    s.append(digits.as_str());
    s.append("|");
    s.append(token);
    s.append("|");
    s.append(nonce);
    s.append("|");
    s.append(platform);
    s.append("|");
    s
}

/// Device tokens, one per gateway url.
#[derive(Debug)]
struct TokenList {
    entries: Vec<GatewayTokenEntry>,
}

impl TokenList {
    fn new() -> (r: TokenList)
        ensures
            r.wf(),
            r.tokens() == Map::<Seq<char>, TokenView>::empty(),
    {
        let r = TokenList { entries: Vec::new() };
        assert(r.tokens() =~= Map::<Seq<char>, TokenView>::empty());
        r
    }

    /// Token urls are unique.
    closed spec fn wf(&self) -> bool {
        forall|i: int, j: int|
            0 <= i < self.entries@.len() && 0 <= j < self.entries@.len() && i != j
                ==> #[trigger] self.entries@[i].url@ != #[trigger] self.entries@[j].url@
    }

    /// The stored tokens, by gateway url.
    closed spec fn tokens(&self) -> Map<Seq<char>, TokenView> {
        Map::new(
            |k: Seq<char>|
                exists|i: int| 0 <= i < self.entries@.len() && #[trigger] self.entries@[i].url@ == k,
            |k: Seq<char>|
                {
                    let e = self.entries@[choose|i: int|
                        0 <= i < self.entries@.len() && #[trigger] self.entries@[i].url@ == k];
                    TokenView { token: e.token@, role: e.role@, issued_at_ms: e.issued_at_ms }
                },
        )
    }

    proof fn lemma_entry(&self, i: int)
        requires
            self.wf(),
            0 <= i < self.entries@.len(),
        ensures
            self.tokens().contains_key(self.entries@[i].url@),
            self.tokens()[self.entries@[i].url@] == (TokenView {
                token: self.entries@[i].token@,
                role: self.entries@[i].role@,
                issued_at_ms: self.entries@[i].issued_at_ms,
            }),
    {
        let k = self.entries@[i].url@;
        assert(self.entries@[i].url@ == k);
        let j = choose|j: int| 0 <= j < self.entries@.len() && #[trigger] self.entries@[j].url@ == k;
        assert(j == i);
    }

    fn find(&self, url: &str) -> (r: Option<usize>)
        ensures
            match r {
                Some(i) => i < self.entries@.len() && self.entries@[i as int].url@ == url@,
                None => forall|i: int|
                    0 <= i < self.entries@.len() ==> #[trigger] self.entries@[i].url@ != url@,
            },
    {
        let mut i: usize = 0;
        while i < self.entries.len()
            invariant
                i <= self.entries@.len(),
                forall|j: int| 0 <= j < i ==> #[trigger] self.entries@[j].url@ != url@,
            decreases self.entries@.len() - i,
        {
            if str_eq(self.entries[i].url.as_str(), url) {
                return Some(i);
            }
            i = i + 1;
        }
        None
    }

    /// The device token stored for a gateway url.
    fn stored_token(&self, url: &str) -> (r: Option<String>)
        requires
            self.wf(),
        ensures
            r is Some <==> self.tokens().contains_key(url@),
            r is Some ==> r->0@ == self.tokens()[url@].token,
    {
        match self.find(url) {
            Some(i) => {
                proof {
                    self.lemma_entry(i as int);
                }
                Some(self.entries[i].token.clone())
            },
            None => {
                proof {
                    if self.tokens().contains_key(url@) {
                        let j = choose|j: int|
                            0 <= j < self.entries@.len() && #[trigger] self.entries@[j].url@ == url@;
                    }
                }
                None
            },
        }
    }

    fn upsert(&mut self, url: String, token: String, role: String, issued_at_ms: u64)
        requires
            old(self).wf(),
        ensures
            final(self).wf(),
            final(self).tokens() == old(self).tokens().insert(
                url@,
                TokenView { token: token@, role: role@, issued_at_ms },
            ),
    {
        let ghost old_self = *self;
        let ghost k = url@;
        let ghost tv = TokenView { token: token@, role: role@, issued_at_ms };
        let entry = GatewayTokenEntry { url, token, role, issued_at_ms };
        match self.find(entry.url.as_str()) {
            Some(i) => {
                self.entries.set(i, entry);
                proof {
                    assert forall|a: int, b: int|
                        0 <= a < self.entries@.len() && 0 <= b < self.entries@.len() && a != b
                            implies #[trigger] self.entries@[a].url@ != #[trigger] self.entries@[b].url@ by {
                        assert(old_self.entries@[a].url@ == self.entries@[a].url@);
                        assert(old_self.entries@[b].url@ == self.entries@[b].url@);
                    }
                    assert forall|q: Seq<char>| #[trigger] self.tokens().contains_key(q) == old_self.tokens().insert(k, tv).contains_key(q) by {
                        if self.tokens().contains_key(q) {
                            let j = choose|j: int| 0 <= j < self.entries@.len() && #[trigger] self.entries@[j].url@ == q;
                            assert(old_self.entries@[j].url@ == q);
                        }
                        if old_self.tokens().contains_key(q) {
                            let j = choose|j: int| 0 <= j < old_self.entries@.len() && #[trigger] old_self.entries@[j].url@ == q;
                            assert(self.entries@[j].url@ == q);
                        }
                        if q == k {
                            assert(self.entries@[i as int].url@ == q);
                        }
                    }
                    assert forall|q: Seq<char>| #[trigger] self.tokens().contains_key(q) implies self.tokens()[q] == old_self.tokens().insert(k, tv)[q] by {
                        let j = choose|j: int| 0 <= j < self.entries@.len() && #[trigger] self.entries@[j].url@ == q;
                        self.lemma_entry(j);
                        if j != i {
                            old_self.lemma_entry(j);
                        }
                    }
                    assert(self.tokens() =~= old_self.tokens().insert(k, tv));
                }
            },
            None => {
                self.entries.push(entry);
                proof {
                    let n = old_self.entries@.len();
                    assert forall|a: int, b: int|
                        0 <= a < self.entries@.len() && 0 <= b < self.entries@.len() && a != b
                            implies #[trigger] self.entries@[a].url@ != #[trigger] self.entries@[b].url@ by {
                        if a < n {
                            assert(old_self.entries@[a] == self.entries@[a]);
                        }
                        if b < n {
                            assert(old_self.entries@[b] == self.entries@[b]);
                        }
                    }
                    assert forall|q: Seq<char>| #[trigger] self.tokens().contains_key(q) == old_self.tokens().insert(k, tv).contains_key(q) by {
                        if self.tokens().contains_key(q) {
                            let j = choose|j: int| 0 <= j < self.entries@.len() && #[trigger] self.entries@[j].url@ == q;
                            if j < n {
                                assert(old_self.entries@[j] == self.entries@[j]);
                            }
                        }
                        if old_self.tokens().contains_key(q) {
                            let j = choose|j: int| 0 <= j < old_self.entries@.len() && #[trigger] old_self.entries@[j].url@ == q;
                            assert(old_self.entries@[j] == self.entries@[j]);
                        }
                        if q == k {
                            assert(self.entries@[n as int].url@ == q);
                        }
                    }
                    assert forall|q: Seq<char>| #[trigger] self.tokens().contains_key(q) implies self.tokens()[q] == old_self.tokens().insert(k, tv)[q] by {
                        let j = choose|j: int| 0 <= j < self.entries@.len() && #[trigger] self.entries@[j].url@ == q;
                        self.lemma_entry(j);
                        if j < n {
                            assert(old_self.entries@[j] == self.entries@[j]);
                            old_self.lemma_entry(j);
                        }
                    }
                    assert(self.tokens() =~= old_self.tokens().insert(k, tv));
                }
            },
        }
    }

    fn token_entries(&self) -> (r: Vec<GatewayTokenEntry>)
        requires
            self.wf(),
        ensures
            r@.len() == self.tokens().len(),
            forall|i: int| 0 <= i < r@.len() ==> self.tokens().contains_key(#[trigger] r@[i].url@),
    {
        let mut out: Vec<GatewayTokenEntry> = Vec::new();
        let mut i: usize = 0;
        while i < self.entries.len()
            invariant
                i <= self.entries@.len(),
                out@.len() == i,
                forall|j: int| 0 <= j < i ==> #[trigger] out@[j].url@ == self.entries@[j].url@,
            decreases self.entries@.len() - i,
        {
            let e = &self.entries[i];
            out.push(GatewayTokenEntry {
                url: e.url.clone(),
                token: e.token.clone(),
                role: e.role.clone(),
                issued_at_ms: e.issued_at_ms,
            });
            i = i + 1;
        }
        proof {
            assert forall|j: int| 0 <= j < out@.len() implies self.tokens().contains_key(#[trigger] out@[j].url@) by {
                self.lemma_entry(j);
            }
            self.lemma_tokens_len();
        }
        out
    }

    proof fn lemma_tokens_len(&self)
        requires
            self.wf(),
        ensures
            self.tokens().len() == self.entries@.len(),
    {
        let urls = self.entries@.map_values(|e: GatewayTokenEntry| e.url@);
        assert forall|i: int, j: int| 0 <= i < j < urls.len() implies urls[i] != urls[j] by {
            assert(self.entries@[i].url@ != self.entries@[j].url@);
        }
        urls.unique_seq_to_set();
        assert(self.tokens().dom() =~= urls.to_set()) by {
            assert forall|k: Seq<char>| #[trigger] urls.to_set().contains(k) implies self.tokens().dom().contains(k) by {
                let i = choose|i: int| 0 <= i < urls.len() && urls[i] == k;
                assert(self.entries@[i].url@ == k);
            }
            assert forall|k: Seq<char>| #[trigger] self.tokens().dom().contains(k) implies urls.to_set().contains(k) by {
                let i = choose|i: int| 0 <= i < self.entries@.len() && #[trigger] self.entries@[i].url@ == k;
                assert(urls[i] == k);
            }
        }
    }

}

impl DeviceIdentity {
    #[verifier::type_invariant]
    closed spec fn inv(&self) -> bool {
        self.gateway_tokens.wf()
    }

    /// The stored tokens, by gateway url.
    pub closed spec fn tokens(&self) -> Map<Seq<char>, TokenView> {
        self.gateway_tokens.tokens()
    }

    /// The device id.
    pub closed spec fn spec_device_id(&self) -> Seq<char> {
        self.device_id@
    }

    /// The format version.
    pub closed spec fn spec_version(&self) -> u32 {
        self.version
    }

    /// The public key, base64url.
    pub closed spec fn spec_public_key(&self) -> Seq<char> {
        self.public_key_bytes@
    }

    /// The secret seed, base64url.
    pub closed spec fn spec_private_key(&self) -> Seq<char> {
        self.private_key_bytes@
    }

    /// When the identity was made.
    pub closed spec fn spec_created_at(&self) -> u64 {
        self.created_at_ms
    }

    /// A new identity from a 32-byte secret seed, made at `now`, with no
    /// gateway tokens.
    pub fn from_seed(seed: &Vec<u8>, now: u64) -> (r: DeviceIdentity)
        requires
            seed@.len() == 32,
        ensures
            r.spec_version() == 1,
            r.spec_device_id() == device_id_of(ed25519_public_of(seed@)),
            r.spec_public_key() == b64url_of(ed25519_public_of(seed@)),
            r.spec_private_key() == b64url_of(seed@),
            r.spec_created_at() == now,
            r.tokens() == Map::<Seq<char>, TokenView>::empty(),
    {
        let public = ed25519_public_key(seed.as_slice());
        let digest = sha256(public.as_slice());
        let r = DeviceIdentity {
            version: 1,
            device_id: hex_encode(digest.as_slice()),
            public_key_bytes: b64url_encode(public.as_slice()),
            private_key_bytes: b64url_encode(seed.as_slice()),
            created_at_ms: now,
            gateway_tokens: TokenList::new(),
        };
        r
    }

    /// A fresh identity from a newly generated key pair.
    pub fn generate(now: u64) -> (r: DeviceIdentity)
        ensures
            r.spec_version() == 1,
            exists|seed: Seq<u8>|
                seed.len() == 32 && r.spec_device_id() == device_id_of(ed25519_public_of(seed)) && r.spec_public_key()
                    == b64url_of(ed25519_public_of(seed)) && r.spec_private_key() == b64url_of(seed),
            r.spec_created_at() == now,
            r.tokens() == Map::<Seq<char>, TokenView>::empty(),
    {
        let seed = generate_seed();
        DeviceIdentity::from_seed(&seed, now)
    }

    /// An identity read back from storage, its token list taken in order
    /// with a later entry for a url replacing an earlier one.
    pub fn from_parts(
        version: u32,
        device_id: String,
        public_key_bytes: String,
        private_key_bytes: String,
        created_at_ms: u64,
        tokens: Vec<GatewayTokenEntry>,
    ) -> (r: DeviceIdentity)
        ensures
            r.spec_version() == version,
            r.spec_device_id() == device_id@,
            r.spec_public_key() == public_key_bytes@,
            r.spec_private_key() == private_key_bytes@,
            r.spec_created_at() == created_at_ms,
            forall|i: int| 0 <= i < tokens@.len() ==> r.tokens().contains_key(#[trigger] tokens@[i].url@),
    {
        let mut list = TokenList::new();
        let mut i: usize = 0;
        while i < tokens.len()
            invariant
                list.wf(),
                i <= tokens@.len(),
                forall|j: int| 0 <= j < i ==> list.tokens().contains_key(#[trigger] tokens@[j].url@),
            decreases tokens@.len() - i,
        {
            let e = &tokens[i];
            list.upsert(e.url.clone(), e.token.clone(), e.role.clone(), e.issued_at_ms);
            i = i + 1;
        }
        DeviceIdentity { version, device_id, public_key_bytes, private_key_bytes, created_at_ms, gateway_tokens: list }
    }


    /// The device token stored for a gateway url.
    pub fn stored_token(&self, url: &str) -> (r: Option<String>)
        ensures
            r is Some <==> self.tokens().contains_key(url@),
            r is Some ==> r->0@ == self.tokens()[url@].token,
    {
        proof {
            use_type_invariant(&*self);
        }
        self.gateway_tokens.stored_token(url)
    }

    /// Stores, or replaces, the device token a gateway issued at `now`, under
    /// the operator role.
    pub fn record_gateway_token(&mut self, url: &str, token: &str, now: u64)
        ensures
            final(self).tokens() == old(self).tokens().insert(
                url@,
                TokenView { token: token@, role: ROLE@, issued_at_ms: now },
            ),
            final(self).spec_device_id() == old(self).spec_device_id(),
            final(self).spec_version() == old(self).spec_version(),
            final(self).spec_public_key() == old(self).spec_public_key(),
            final(self).spec_private_key() == old(self).spec_private_key(),
            final(self).spec_created_at() == old(self).spec_created_at(),
    {
        proof {
            use_type_invariant(&*self);
        }
        let mut list = TokenList::new();
        std::mem::swap(&mut list, &mut self.gateway_tokens);
        list.upsert(owned(url), owned(token), owned(ROLE), now);
        self.gateway_tokens = list;
    }

    /// The format version.
    pub fn version(&self) -> (r: u32)
        ensures
            r == self.spec_version(),
    {
        self.version
    }

    /// The public key, base64url.
    pub fn public_key(&self) -> (r: String)
        ensures
            r@ == self.spec_public_key(),
    {
        self.public_key_bytes.clone()
    }

    /// The secret seed, base64url.
    pub fn private_key(&self) -> (r: String)
        ensures
            r@ == self.spec_private_key(),
    {
        self.private_key_bytes.clone()
    }

    /// When the identity was made.
    pub fn created_at_ms(&self) -> (r: u64)
        ensures
            r == self.spec_created_at(),
    {
        self.created_at_ms
    }

    /// The stored token entries, for persistence.
    pub fn token_entries(&self) -> (r: Vec<GatewayTokenEntry>)
        ensures
            r@.len() == self.tokens().len(),
            forall|i: int| 0 <= i < r@.len() ==> self.tokens().contains_key(#[trigger] r@[i].url@),
    {
        proof {
            use_type_invariant(&*self);
        }
        self.gateway_tokens.token_entries()
    }

    /// Signs a handshake assertion for the challenge `nonce`, when the
    /// stored secret decodes to a 32-byte seed; `None` otherwise.
    pub fn device_assertion(&self, nonce: &str, token: &str, signed_at: u64, platform: &str) -> (r: Option<
        DeviceAssertion,
    >)
        ensures
            r is Some <==> (b64url_decoded(self.spec_private_key()) is Some && b64url_decoded(
                self.spec_private_key(),
            )->0.len() == 32),
            r matches Some(a) ==> {
                &&& a.id@ == self.spec_device_id()
                &&& a.public_key@ == self.spec_public_key()
                &&& a.signed_at == signed_at
                &&& a.nonce@ == nonce@
                &&& a.signature@ == b64url_of(
                    ed25519_signature_of(
                        b64url_decoded(self.spec_private_key())->0,
                        signature_payload(
                            self.spec_device_id(),
                            CLIENT_ID@,
                            CLIENT_MODE@,
                            ROLE@,
                            SCOPES_JOINED@,
                            signed_at,
                            token@,
                            nonce@,
                            platform@,
                        ),
                    ),
                )
            },
    {
        let seed = match b64url_decode(self.private_key_bytes.as_str()) {
            Some(s) => s,
            None => return None,
        };
        if seed.len() != 32 {
            return None;
        }
        let payload = build_signature_payload(
            self.device_id.as_str(),
            CLIENT_ID,
            CLIENT_MODE,
            ROLE,
            SCOPES_JOINED,
            signed_at,
            token,
            nonce,
            platform,
        );
        let sig = ed25519_sign(seed.as_slice(), payload.as_str());
        Some(DeviceAssertion {
            id: self.device_id.clone(),
            public_key: self.public_key_bytes.clone(),
            signature: b64url_encode(sig.as_slice()),
            signed_at,
            nonce: owned(nonce),
        })
    }
}

} // verus!
