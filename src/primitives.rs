//! The calls this library makes into outside crates and into std functions
//! that carry no specification of their own. Each function here states what
//! the callee's documentation or source promises; where the result takes
//! pages to state, it is given a name that depends on the arguments alone.

use crate::text::digit_char;
use base64::Engine;
use ed25519_dalek::Signer;
use hmac::Mac;
use rand::RngCore;
use sha2::Digest;
use vstd::prelude::*;

verus! {

/// Lower-case hexadecimal digit for `n < 16`.
pub open spec fn hex_nibble(n: nat) -> char {
    if n < 10 {
        digit_char(n)
    } else if n == 10 {
        'a'
    } else if n == 11 {
        'b'
    } else if n == 12 {
        'c'
    } else if n == 13 {
        'd'
    } else if n == 14 {
        'e'
    } else {
        'f'
    }
}

/// Lower-case hexadecimal rendering: two digits per byte, high nibble first.
pub open spec fn hex_lower(b: Seq<u8>) -> Seq<char> {
    Seq::new(
        2 * b.len(),
        |i: int|
            if i % 2 == 0 {
                hex_nibble((b[i / 2] / 16) as nat)
            } else {
                hex_nibble((b[i / 2] % 16) as nat)
            },
    )
}

/// SHA-256 digest of a byte string.
pub uninterp spec fn sha256_of(b: Seq<u8>) -> Seq<u8>;

/// HMAC-SHA256 tag under a key, both given as text and taken as UTF-8 bytes.
pub uninterp spec fn hmac_sha256_of(key: Seq<char>, msg: Seq<char>) -> Seq<u8>;

/// URL-safe base64 without padding.
pub uninterp spec fn b64url_of(b: Seq<u8>) -> Seq<char>;

/// Decoding of URL-safe unpadded base64; `None` for text that is not such an
/// encoding.
pub uninterp spec fn b64url_decoded(s: Seq<char>) -> Option<Seq<u8>>;

/// Ed25519 public key derived from a 32-byte secret seed.
pub uninterp spec fn ed25519_public_of(seed: Seq<u8>) -> Seq<u8>;

/// Ed25519 signature under a 32-byte secret seed over the UTF-8 bytes of a
/// message (Ed25519 signing is deterministic).
pub uninterp spec fn ed25519_signature_of(seed: Seq<u8>, msg: Seq<char>) -> Seq<u8>;

/// Unicode lower-casing of a string.
pub uninterp spec fn lower_of(s: Seq<char>) -> Seq<char>;

/// A string without its leading and trailing Unicode white space.
pub uninterp spec fn trim_of(s: Seq<char>) -> Seq<char>;

/// Relies on hex::encode: lower-case digits, two per byte, high nibble first.
#[verifier::external_body]
pub fn hex_encode(b: &[u8]) -> (r: String)
    ensures
        r@ == hex_lower(b@),
{
    hex::encode(b)
}

/// Relies on sha2::Sha256::digest: a 32-byte digest of the input.
#[verifier::external_body]
pub fn sha256(b: &[u8]) -> (r: Vec<u8>)
    ensures
        r@ == sha256_of(b@),
        r@.len() == 32,
{
    sha2::Sha256::digest(b).to_vec()
}

/// Relies on hmac::Hmac<Sha256>: `new_from_slice` accepts a key of any
/// length, and the finalized tag has 32 bytes.
#[verifier::external_body]
pub fn hmac_sha256(key: &str, msg: &str) -> (r: Vec<u8>)
    ensures
        r@ == hmac_sha256_of(key@, msg@),
        r@.len() == 32,
{
    let mut mac = <hmac::Hmac<sha2::Sha256> as Mac>::new_from_slice(key.as_bytes())
        .expect("HMAC takes keys of any length");
    mac.update(msg.as_bytes());
    mac.finalize().into_bytes().to_vec()
}

/// Relies on base64's URL_SAFE_NO_PAD engine, `encode`.
#[verifier::external_body]
pub fn b64url_encode(b: &[u8]) -> (r: String)
    ensures
        r@ == b64url_of(b@),
{
    base64::engine::general_purpose::URL_SAFE_NO_PAD.encode(b)
}

/// Relies on base64's URL_SAFE_NO_PAD engine, `decode`.
#[verifier::external_body]
pub fn b64url_decode(s: &str) -> (r: Option<Vec<u8>>)
    ensures
        match r {
            Some(v) => b64url_decoded(s@) == Some(v@),
            None => b64url_decoded(s@) is None,
        },
{
    base64::engine::general_purpose::URL_SAFE_NO_PAD.decode(s).ok()
}

/// Relies on ed25519_dalek::SigningKey: `from_bytes` on a 32-byte seed, then
/// `verifying_key().to_bytes()`, 32 bytes.
#[verifier::external_body]
pub fn ed25519_public_key(seed: &[u8]) -> (r: Vec<u8>)
    requires
        seed@.len() == 32,
    ensures
        r@ == ed25519_public_of(seed@),
        r@.len() == 32,
{
    let arr: [u8; 32] = seed.try_into().expect("a 32-byte seed");
    ed25519_dalek::SigningKey::from_bytes(&arr).verifying_key().to_bytes().to_vec()
}

/// Relies on ed25519_dalek::SigningKey: `from_bytes` on a 32-byte seed, then
/// `sign` over the message bytes; the signature has 64 bytes.
#[verifier::external_body]
pub fn ed25519_sign(seed: &[u8], msg: &str) -> (r: Vec<u8>)
    requires
        seed@.len() == 32,
    ensures
        r@ == ed25519_signature_of(seed@, msg@),
        r@.len() == 64,
{
    let arr: [u8; 32] = seed.try_into().expect("a 32-byte seed");
    ed25519_dalek::SigningKey::from_bytes(&arr).sign(msg.as_bytes()).to_bytes().to_vec()
}

/// Relies on ed25519_dalek::SigningKey::generate with the operating system's
/// random source: a fresh 32-byte seed.
#[verifier::external_body]
pub fn generate_seed() -> (r: Vec<u8>)
    ensures
        r@.len() == 32,
{
    ed25519_dalek::SigningKey::generate(&mut rand::rngs::OsRng).to_bytes().to_vec()
}

/// Relies on rand's thread_rng().fill_bytes: `n` random bytes.
#[verifier::external_body]
pub fn random_bytes(n: usize) -> (r: Vec<u8>)
    ensures
        r@.len() == n,
{
    let mut v = vec![0u8; n];
    rand::thread_rng().fill_bytes(&mut v);
    v
}

/// Relies on std's SystemTime: milliseconds since the Unix epoch, 0 if the
/// clock reads earlier than the epoch.
#[verifier::external_body]
pub fn now_ms() -> (r: u64) {
    std::time::SystemTime::now()
        .duration_since(std::time::UNIX_EPOCH)
        .unwrap_or_default()
        .as_millis() as u64
}

/// Relies on str::to_lowercase: the result depends on the characters alone.
#[verifier::external_body]
pub fn lowercase(s: &str) -> (r: String)
    ensures
        r@ == lower_of(s@),
{
    s.to_lowercase()
}

/// Relies on str::trim: the result depends on the characters alone.
#[verifier::external_body]
pub fn trim(s: &str) -> (r: String)
    ensures
        r@ == trim_of(s@),
{
    s.trim().to_string()
}

} // verus!
