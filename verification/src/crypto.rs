use vstd::prelude::*;
use chacha20poly1305::aead::{Aead, KeyInit};
use chacha20poly1305::{XChaCha20Poly1305, XNonce};
use hkdf::Hkdf;
use sha2::Sha256;
use x25519_dalek::{EphemeralSecret, PublicKey};
use zeroize::Zeroize;

verus! {

#[verifier::external_type_specification]
#[verifier::external_body]
pub struct ExPublicKey(x25519_dalek::PublicKey);

#[verifier::external_type_specification]
#[verifier::external_body]
pub struct ExEphemeralSecret(x25519_dalek::EphemeralSecret);

#[verifier::external_type_specification]
#[verifier::external_body]
pub struct ExAeadError(chacha20poly1305::Error);

/// The 32 bytes that HKDF-SHA256 (RFC 5869) extracts from `ikm` under `salt`
/// (no salt: the all-zero salt) and expands under `info`.
pub uninterp spec fn hkdf_sha256_okm32(salt: Option<Seq<u8>>, ikm: Seq<u8>, info: Seq<u8>) -> Seq<u8>;

/// The XChaCha20-Poly1305 ciphertext (with its 16-byte tag appended) of
/// `plaintext` under `key` and `nonce`, with empty associated data.
pub uninterp spec fn xchacha20poly1305_seal(key: Seq<u8>, nonce: Seq<u8>, plaintext: Seq<u8>) -> Seq<u8>;

/// The XChaCha20-Poly1305 decryption of `ciphertext` under `key` and
/// `nonce`, with empty associated data: `None` when authentication fails.
pub uninterp spec fn xchacha20poly1305_open(key: Seq<u8>, nonce: Seq<u8>, ciphertext: Seq<u8>) -> Option<Seq<u8>>;

/// Plaintexts of this many bytes or more exceed the ChaCha20 block counter
/// (64 * (2^32 - 1) bytes) and are refused by the cipher.
pub const AEAD_MAX_PLAINTEXT_LEN: u64 = 274877906880;

/// Length in bytes of the Poly1305 tag appended to every ciphertext.
pub const AEAD_TAG_LEN: usize = 16;

/// Errors of the authenticated-encryption layer.
#[derive(Debug, Clone, Copy, PartialEq, Eq, Structural)]
pub enum CryptoError {
    EncryptionFailed,
    DecryptionFailed,
}

/// The `info` label under which session keys are expanded:
/// the ASCII bytes of "safesurf-v1-session-key".
pub open spec fn session_key_info() -> Seq<u8> {
    seq![115u8, 97, 102, 101, 115, 117, 114, 102, 45, 118, 49, 45, 115, 101, 115, 115, 105, 111,
        110, 45, 107, 101, 121]
}

/// The salt that HKDF-SHA256 uses when none is given: 32 zero bytes.
pub open spec fn zero_salt() -> Seq<u8> {
    Seq::new(32, |i: int| 0u8)
}

/// The view of an optional byte slice.
pub open spec fn opt_bytes(s: Option<&[u8]>) -> Option<Seq<u8>> {
    match s {
        Some(b) => Some(b@),
        None => None,
    }
}

/// What `decrypt` returns for a ciphertext, over byte sequences.
pub open spec fn decrypt_outcome(key: Seq<u8>, nonce: Seq<u8>, ciphertext: Seq<u8>) -> Result<Seq<u8>, CryptoError> {
    match xchacha20poly1305_open(key, nonce, ciphertext) {
        Some(p) => Ok(p),
        None => Err(CryptoError::DecryptionFailed),
    }
}

/// The view of a byte-vector result.
pub open spec fn result_bytes<E>(r: Result<Vec<u8>, E>) -> Result<Seq<u8>, E> {
    match r {
        Ok(v) => Ok(v@),
        Err(e) => Err(e),
    }
}

/// `x25519_dalek::EphemeralSecret::random_from_rng` with the operating
/// system's generator: a fresh secret, about which nothing is claimed.
#[verifier::external_body]
fn random_ephemeral_secret() -> (s: EphemeralSecret) {
    EphemeralSecret::random_from_rng(rand::rngs::OsRng)
}

/// The X25519 public key of an ephemeral secret: the secret scalar times the
/// Curve25519 base point.
pub uninterp spec fn x25519_public_of(secret: EphemeralSecret) -> PublicKey;

/// `x25519_dalek::PublicKey::from(&EphemeralSecret)`: the public key of a
/// secret, which depends on the secret alone.
#[verifier::external_body]
fn x25519_public_key(secret: &EphemeralSecret) -> (p: PublicKey)
    ensures
        p == x25519_public_of(*secret),
{
    PublicKey::from(secret)
}

/// `hkdf::Hkdf::<Sha256>::new(salt, ikm)` followed by `expand(info, okm)`
/// into 32 bytes; the expansion cannot fail at that length (at most
/// 255 * 32 bytes may be asked for), so the result is the named 32 bytes.
/// Without a salt the extraction uses a block of 32 zero bytes as its salt,
/// so the result is then also that of the all-zero 32-byte salt.
#[verifier::external_body]
fn hkdf_sha256_expand32(salt: Option<&[u8]>, ikm: &[u8], info: &[u8]) -> (okm: [u8; 32])
    ensures
        okm@ == hkdf_sha256_okm32(opt_bytes(salt), ikm@, info@),
        salt is None ==> okm@ == hkdf_sha256_okm32(Some(zero_salt()), ikm@, info@),
{
    let mut okm = [0u8; 32];
    let _ = Hkdf::<Sha256>::new(salt, ikm).expand(info, &mut okm);
    okm
}

/// `XChaCha20Poly1305::encrypt` (empty associated data). Per the crate's
/// source it fails exactly when the plaintext reaches 64 * (2^32 - 1)
/// bytes; otherwise the result is the plaintext's length plus the tag, and
/// decrypting it under the same key and nonce gives the plaintext back.
#[verifier::external_body]
fn xchacha20poly1305_encrypt(key: &[u8; 32], nonce: &[u8; 24], plaintext: &[u8]) -> (r: Result<Vec<u8>, chacha20poly1305::Error>)
    ensures
        r is Ok <==> plaintext@.len() < AEAD_MAX_PLAINTEXT_LEN,
        r matches Ok(c) ==> c@ == xchacha20poly1305_seal(key@, nonce@, plaintext@),
        r matches Ok(c) ==> c@.len() == plaintext@.len() + AEAD_TAG_LEN,
        r matches Ok(c) ==> xchacha20poly1305_open(key@, nonce@, c@) == Some(plaintext@),
{
    XChaCha20Poly1305::new(key.into()).encrypt(XNonce::from_slice(nonce), plaintext)
}

/// `XChaCha20Poly1305::decrypt` (empty associated data): succeeds exactly
/// when the named decryption does, with its plaintext, which is the tag's
/// length shorter than the ciphertext; a ciphertext shorter than the tag
/// is refused.
#[verifier::external_body]
fn xchacha20poly1305_decrypt(key: &[u8; 32], nonce: &[u8; 24], ciphertext: &[u8]) -> (r: Result<Vec<u8>, chacha20poly1305::Error>)
    ensures
        r is Ok <==> xchacha20poly1305_open(key@, nonce@, ciphertext@) is Some,
        r matches Ok(p) ==> xchacha20poly1305_open(key@, nonce@, ciphertext@) == Some(p@),
        r matches Ok(p) ==> p@.len() + AEAD_TAG_LEN == ciphertext@.len(),
        ciphertext@.len() < AEAD_TAG_LEN ==> r is Err,
{
    XChaCha20Poly1305::new(key.into()).decrypt(XNonce::from_slice(nonce), ciphertext)
}

/// `<[u8; 32] as zeroize::Zeroize>::zeroize`: overwrites every byte with 0.
#[verifier::external_body]
pub(crate) fn zeroize_key(key: &mut [u8; 32])
    ensures
        final(key)@ == Seq::new(32, |i: int| 0u8),
    opens_invariants none
    no_unwind
{
    key.zeroize();
}

/// Ephemeral key pair for the X25519 handshake.
pub struct KeyPair {
    pub public: PublicKey,
    pub secret: EphemeralSecret,
}

impl KeyPair {
    /// A fresh key pair from the operating system's random generator: a
    /// random secret and the public key of that secret.
    pub fn generate() -> (kp: Self)
        ensures
            kp.public == x25519_public_of(kp.secret),
    {
        let secret = random_ephemeral_secret();
        let public = x25519_public_key(&secret);
        KeyPair { public, secret }
    }
}

/// Derives a 32-byte session key from a shared secret with HKDF-SHA256,
/// under the label "safesurf-v1-session-key". Without a salt the key is the
/// one derived under the all-zero 32-byte salt.
pub fn derive_session_key(shared_secret: &[u8], salt: Option<&[u8]>) -> (key: [u8; 32])
    ensures
        key@ == hkdf_sha256_okm32(opt_bytes(salt), shared_secret@, session_key_info()),
        salt is None ==> key@ == hkdf_sha256_okm32(Some(zero_salt()), shared_secret@, session_key_info()),
{
    let info: [u8; 23] = [115u8, 97, 102, 101, 115, 117, 114, 102, 45, 118, 49, 45, 115, 101, 115,
        115, 105, 111, 110, 45, 107, 101, 121];
    assert(info@ =~= session_key_info());
    hkdf_sha256_expand32(salt, shared_secret, &info)
}

/// Two parties that hold the same shared secret and use the same salt
/// derive the same session key.
pub proof fn law_session_keys_agree(secret_a: Seq<u8>, secret_b: Seq<u8>, salt: Option<Seq<u8>>)
    requires
        secret_a == secret_b,
    ensures
        hkdf_sha256_okm32(salt, secret_a, session_key_info()) == hkdf_sha256_okm32(salt, secret_b, session_key_info()),
{
}

/// Encrypts `plaintext` with XChaCha20-Poly1305 under `key` and `nonce`.
/// Succeeds exactly for plaintexts shorter than `AEAD_MAX_PLAINTEXT_LEN`;
/// what it returns decrypts, under the same key and nonce, to the plaintext.
pub fn encrypt(key: &[u8; 32], nonce: &[u8; 24], plaintext: &[u8]) -> (r: Result<Vec<u8>, CryptoError>)
    ensures
        r is Ok <==> plaintext@.len() < AEAD_MAX_PLAINTEXT_LEN,
        r matches Ok(c) ==> c@ == xchacha20poly1305_seal(key@, nonce@, plaintext@),
        r matches Ok(c) ==> c@.len() == plaintext@.len() + AEAD_TAG_LEN,
        r matches Ok(c) ==> decrypt_outcome(key@, nonce@, c@) == Ok::<Seq<u8>, CryptoError>(plaintext@),
        r matches Err(e) ==> e == CryptoError::EncryptionFailed,
{
    match xchacha20poly1305_encrypt(key, nonce, plaintext) {
        Ok(c) => Ok(c),
        Err(_) => Err(CryptoError::EncryptionFailed),
    }
}

/// Decrypts and authenticates `ciphertext` with XChaCha20-Poly1305 under
/// `key` and `nonce`; fails with `DecryptionFailed` when authentication fails.
pub fn decrypt(key: &[u8; 32], nonce: &[u8; 24], ciphertext: &[u8]) -> (r: Result<Vec<u8>, CryptoError>)
    ensures
        result_bytes(r) == decrypt_outcome(key@, nonce@, ciphertext@),
        r matches Ok(p) ==> p@.len() + AEAD_TAG_LEN == ciphertext@.len(),
{
    match xchacha20poly1305_decrypt(key, nonce, ciphertext) {
        Ok(p) => Ok(p),
        Err(_) => Err(CryptoError::DecryptionFailed),
    }
}

/// Session keys are expanded under the UTF-8 bytes of the label
/// "safesurf-v1-session-key", and a missing salt is 32 zero bytes.
pub proof fn law_session_key_label()
    ensures
        session_key_info() == vstd::utf8::encode_utf8("safesurf-v1-session-key"@),
        zero_salt().len() == 32,
        forall|i: int| 0 <= i < 32 ==> #[trigger] zero_salt()[i] == 0u8,
{
    reveal_strlit("safesurf-v1-session-key");
    let label = "safesurf-v1-session-key"@;
    assert(vstd::utf8::is_ascii_chars(label));
    vstd::utf8::is_ascii_chars_encode_utf8(label);
    assert(session_key_info() =~= vstd::utf8::encode_utf8(label));
}

} // verus!
