//! The cryptographic primitives of the channel, called through `ring`.
//!
//! Every call into `ring` stands behind a trusted item here: a declaration
//! whose contract the verifier believes without reading the body. The
//! contracts state only what `ring`'s own source and documentation show; the
//! deterministic primitives (the password KDF and the AEAD cipher) get named
//! results, so the callers' contracts can speak of them exactly without
//! restating the algorithms.
use vstd::prelude::*;

use ring::agreement::EphemeralPrivateKey;
use ring::rand::SecureRandom;
use ring::rand::SystemRandom;

verus! {

/// How a cryptographic operation can fail. Each variant names the stage that
/// refused: drawing randomness, generating or encoding an ephemeral key,
/// computing the key agreement, sealing a packet, or opening one (a tag
/// mismatch, a truncated ciphertext, or a key/nonce mismatch).
#[derive(Clone, Copy, Debug, PartialEq, Eq, Structural)]
pub enum CryptoError {
    RandomFailed,
    KeyGenFailed,
    PublicKeyFailed,
    AgreementFailed,
    SealFailed,
    OpenFailed,
}

/// The length in bytes of an AEAD nonce (96 bits).
pub const NONCE_LEN: usize = 12;

/// The length in bytes of an AEAD authentication tag under AES-256-GCM.
pub const AEAD_TAG_LEN: usize = 16;

/// The length in bytes of an AES-256 key, an X25519 public key encoding, and
/// an X25519 shared secret alike.
pub const KEY_LEN: usize = 32;

#[verifier::external_type_specification]
#[verifier::external_body]
pub struct ExEphemeralPrivateKey(EphemeralPrivateKey);

#[verifier::external_type_specification]
#[verifier::external_body]
pub struct ExSystemRandom(SystemRandom);

/// What `ring`'s PBKDF2 with HMAC-SHA-256 derives as a 32-byte key: a pure
/// function of the iteration count, the salt and the secret.
pub uninterp spec fn pbkdf2_of(iterations: u32, salt: Seq<u8>, secret: Seq<u8>) -> Seq<u8>;

/// The ciphertext-and-tag that AES-256-GCM produces: a pure function of the
/// key, the nonce and the plaintext.
pub uninterp spec fn aead_seal_of(key: Seq<u8>, nonce: Seq<u8>, plaintext: Seq<u8>) -> Seq<u8>;

/// What opening an AES-256-GCM ciphertext-and-tag yields: the plaintext when
/// the tag authenticates under the key and nonce, nothing otherwise. A pure
/// function of the key, the nonce and the ciphertext.
pub uninterp spec fn aead_open_of(key: Seq<u8>, nonce: Seq<u8>, ciphertext: Seq<u8>) -> Option<
    Seq<u8>,
>;

/// Relies on `ring::rand::SystemRandom::new`: a handle on the system's
/// cryptographically secure random source.
#[verifier::external_body]
pub(crate) fn new_system_random() -> SystemRandom {
    SystemRandom::new()
}

/// Relies on `ring::rand::SecureRandom::fill`: on success the nonce holds
/// fresh random bytes. Nothing is stated of the value — it depends on the
/// random source, not on the arguments.
#[verifier::external_body]
pub(crate) fn random_nonce(rng: &SystemRandom) -> (r: Result<[u8; 12], CryptoError>) {
    let mut nonce: [u8; 12] = [0; 12];
    match rng.fill(&mut nonce) {
        Ok(()) => Ok(nonce),
        Err(_) => Err(CryptoError::RandomFailed),
    }
}

/// Relies on `ring::agreement::EphemeralPrivateKey::generate` with X25519:
/// a fresh single-use private key. Nothing is stated of the value — it
/// depends on the random source.
#[verifier::external_body]
pub(crate) fn generate_private_key(rng: &SystemRandom) -> (r: Result<
    EphemeralPrivateKey,
    CryptoError,
>) {
    match EphemeralPrivateKey::generate(&ring::agreement::X25519, rng) {
        Ok(k) => Ok(k),
        Err(_) => Err(CryptoError::KeyGenFailed),
    }
}

/// Relies on `ring::agreement::EphemeralPrivateKey::compute_public_key`: an
/// X25519 public key encodes as exactly 32 bytes. The crate generates its
/// private keys only through `generate_private_key`, so every key here is an
/// X25519 key.
#[verifier::external_body]
pub(crate) fn compute_public_key(private: &EphemeralPrivateKey) -> (r: Result<Vec<u8>, CryptoError>)
    ensures
        r matches Ok(p) ==> p@.len() == 32,
{
    match private.compute_public_key() {
        Ok(p) => Ok(p.as_ref().to_vec()),
        Err(_) => Err(CryptoError::PublicKeyFailed),
    }
}

/// Relies on `ring::agreement::agree_ephemeral` with X25519: on success the
/// closure receives the 32-byte shared secret, which is returned unchanged.
/// The private key is consumed — `ring` enforces its single use. Nothing
/// more is stated of the secret: it depends on the opaque private key.
#[verifier::external_body]
pub(crate) fn agree_x25519(my_private: EphemeralPrivateKey, peer_public: &[u8]) -> (r: Result<
    Vec<u8>,
    CryptoError,
>)
    ensures
        r matches Ok(s) ==> s@.len() == 32,
{
    let peer = ring::agreement::UnparsedPublicKey::new(&ring::agreement::X25519, peer_public);
    match ring::agreement::agree_ephemeral(my_private, &peer, |km: &[u8]| km.to_vec()) {
        Ok(s) => Ok(s),
        Err(_) => Err(CryptoError::AgreementFailed),
    }
}

/// Relies on `ring::pbkdf2::derive` with HMAC-SHA-256 and a 32-byte output:
/// the derived key is `pbkdf2_of` of the iteration count, salt and secret,
/// and of nothing else. The length bounds keep the inputs far under the
/// lengths at which `ring` refuses HMAC input.
#[verifier::external_body]
pub(crate) fn pbkdf2_hmac_sha256(iterations: u32, salt: &[u8], secret: &[u8]) -> (r: [u8; 32])
    requires
        iterations >= 1,
        salt@.len() <= 0x1000_0000,
        secret@.len() <= 0x1000_0000,
    ensures
        r@ == pbkdf2_of(iterations, salt@, secret@),
{
    let mut out: [u8; 32] = [0; 32];
    let iters = core::num::NonZeroU32::new(iterations).unwrap();
    ring::pbkdf2::derive(ring::pbkdf2::PBKDF2_HMAC_SHA256, iters, salt, secret, &mut out);
    out
}

/// Relies on `ring::aead::LessSafeKey::seal_in_place_append_tag` with
/// AES-256-GCM: on success the output is the ciphertext with the 16-byte tag
/// appended, a pure function of key, nonce and plaintext; opening it under
/// the same key and nonce gives the plaintext back; and sealing refuses only
/// a plaintext beyond the mode's input limit, far above the stated bound.
#[verifier::external_body]
pub(crate) fn aead_seal(key: &[u8; 32], nonce: &[u8; 12], plaintext: &[u8]) -> (r: Result<
    Vec<u8>,
    CryptoError,
>)
    ensures
        r matches Ok(c) ==> c@ == aead_seal_of(key@, nonce@, plaintext@),
        r matches Ok(c) ==> c@.len() == plaintext@.len() + 16,
        r matches Ok(c) ==> aead_open_of(key@, nonce@, c@) == Some(plaintext@),
        r is Err ==> plaintext@.len() > 0x1000_0000,
{
    let unbound = match ring::aead::UnboundKey::new(&ring::aead::AES_256_GCM, key) {
        Ok(u) => u,
        Err(_) => return Err(CryptoError::SealFailed),
    };
    let sealing = ring::aead::LessSafeKey::new(unbound);
    let n = ring::aead::Nonce::assume_unique_for_key(*nonce);
    let mut in_out = plaintext.to_vec();
    match sealing.seal_in_place_append_tag(n, ring::aead::Aad::empty(), &mut in_out) {
        Ok(()) => Ok(in_out),
        Err(_) => Err(CryptoError::SealFailed),
    }
}

/// Relies on `ring::aead::LessSafeKey::open_in_place` with AES-256-GCM: it
/// returns the plaintext exactly when the tag authenticates the ciphertext
/// under the key and nonce — `aead_open_of` yields a value — and fails
/// otherwise, never returning altered plaintext. The plaintext is 16 bytes
/// shorter than the ciphertext-and-tag.
#[verifier::external_body]
pub(crate) fn aead_open(key: &[u8; 32], nonce: &[u8; 12], ciphertext: &[u8]) -> (r: Result<
    Vec<u8>,
    CryptoError,
>)
    ensures
        r matches Ok(q) ==> aead_open_of(key@, nonce@, ciphertext@) == Some(q@) && q@.len() + 16
            == ciphertext@.len(),
        r is Err <==> aead_open_of(key@, nonce@, ciphertext@) is None,
{
    let unbound = match ring::aead::UnboundKey::new(&ring::aead::AES_256_GCM, key) {
        Ok(u) => u,
        Err(_) => return Err(CryptoError::OpenFailed),
    };
    let opening = ring::aead::LessSafeKey::new(unbound);
    let n = ring::aead::Nonce::assume_unique_for_key(*nonce);
    let mut in_out = ciphertext.to_vec();
    match opening.open_in_place(n, ring::aead::Aad::empty(), &mut in_out) {
        Ok(plain) => Ok(plain.to_vec()),
        Err(_) => Err(CryptoError::OpenFailed),
    }
}

} // verus!
