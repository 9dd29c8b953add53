//! Identity derivation and secret handling.
//!
//! A session identity is derived deterministically from the user's secret:
//! the ed25519 seed is the Keccak-256 digest of the secret's UTF-8 bytes,
//! so equal secrets always yield equal identities. A fresh secret is a
//! random 256-bit key rendered as 64 lowercase hexadecimal characters.
//! Reading and writing the persisted secret is the caller's I/O; the
//! library only fixes the file's location below the home directory.

use vstd::prelude::*;
use vstd::string::StrSliceExecFns;
use vstd::string::StringExecFns;

verus! {

/// Keccak-256 digest of a byte sequence. The digest's value is fixed by
/// the implementation the wrapper below relies on; contracts use the name.
pub uninterp spec fn keccak256_of(data: Seq<u8>) -> Seq<u8>;

/// Relies on web3::signing::keccak256: the Keccak-256 digest of the input,
/// always 32 bytes, a function of the input bytes alone.
#[verifier::external_body]
fn keccak256(data: &Vec<u8>) -> (r: Vec<u8>)
    ensures
        r@ == keccak256_of(data@),
        r@.len() == 32,
{
    web3::signing::keccak256(data.as_slice()).to_vec()
}

/// A session identity: the 32-byte ed25519 seed from which the keypair and
/// the peer identifier are built.
#[derive(Clone, PartialEq, Eq, Debug)]
pub struct Identity {
    pub seed: Vec<u8>,
}

/// The derivation relation: `id` is the identity of `secret`.
pub open spec fn is_derived_from(id: Identity, secret: Seq<char>) -> bool {
    id.seed@ == keccak256_of(vstd::utf8::encode_utf8(secret))
}

/// Derive the session identity from the user's secret. Total: every secret
/// maps to a valid 32-byte seed, so derivation never fails.
pub fn generate_ed25519(key: &str) -> (id: Identity)
    ensures
        is_derived_from(id, key@),
        id.seed@.len() == 32,
{
    let bytes = key.as_bytes_vec();
    let seed = keccak256(&bytes);
    Identity { seed }
}

/// Identity derivation is deterministic: identities derived from equal
/// secrets are equal.
pub proof fn lemma_derivation_deterministic(a: Identity, b: Identity, s1: Seq<char>, s2: Seq<char>)
    requires
        is_derived_from(a, s1),
        is_derived_from(b, s2),
        s1 == s2,
    ensures
        a.seed@ == b.seed@,
{
}

/// A lowercase hexadecimal digit.
pub open spec fn is_hex_digit_lower(c: char) -> bool {
    ('0' <= c && c <= '9') || ('a' <= c && c <= 'f')
}

/// Relies on secp256k1::SecretKey::new over the operating system's secure
/// random source, and on SecretKey::display_secret, which renders the 32
/// secret bytes as two lowercase hexadecimal digits each. The value is
/// random; only its shape is promised.
#[verifier::external_body]
fn random_secret_hex() -> (r: String)
    ensures
        r@.len() == 64,
        forall|i: int| 0 <= i < r@.len() ==> is_hex_digit_lower(#[trigger] r@[i]),
{
    let secret_key = secp256k1::SecretKey::new(&mut rand::rngs::OsRng);
    format!("{}", secret_key.display_secret())
}

/// Create a fresh secret key: 64 lowercase hexadecimal characters from a
/// cryptographically secure random source. The caller shows it to the user
/// exactly once and persists it.
pub fn new_secret_key() -> (r: String)
    ensures
        r@.len() == 64,
        forall|i: int| 0 <= i < r@.len() ==> is_hex_digit_lower(#[trigger] r@[i]),
{
    random_secret_hex()
}

/// Location of the persisted secret below the user's home directory.
pub fn secret_file_path(home: &str) -> (r: String)
    ensures
        r@ == home@ + "/.tochat/secret.json"@,
{
    let mut r = home.to_owned();
    r.append("/.tochat/secret.json");
    r
}

} // verus!
