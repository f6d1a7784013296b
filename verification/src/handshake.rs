//! The ephemeral Diffie-Hellman handshake and session-key derivation.
//!
//! Each side generates a fresh X25519 key pair, exchanges 32-byte public
//! encodings over the raw stream, and computes the agreement. The raw shared
//! secret is never used as a key directly: it passes through an
//! HMAC-SHA-256-based password KDF, bound to both peers' public encodings in
//! a fixed order — responder's first, initiator's second — so both roles
//! derive the same 256-bit session key from the same exchanged material.
//!
//! The KDF salt is constant zero bytes rather than random: a carried-over
//! weakness kept as is, since changing it would break wire-level
//! interoperability. It is tolerable only because the key pairs are fresh
//! per session.
use vstd::prelude::*;

use crate::crypto::CryptoError;
use crate::crypto::agree_x25519;
use crate::crypto::compute_public_key;
use crate::crypto::generate_private_key;
use crate::crypto::new_system_random;
use crate::crypto::pbkdf2_hmac_sha256;
use crate::crypto::pbkdf2_of;
use crate::frame::push_all;
use ring::agreement::EphemeralPrivateKey;

verus! {

broadcast use vstd::array::group_array_axioms;

/// The length in bytes of an X25519 public key encoding.
pub const PUB_KEY_LEN: usize = 32;

/// How many PBKDF2 iterations the key derivation applies.
pub const PBKDF2_ITERATIONS: u32 = 10000;

/// The KDF salt: 8 constant zero bytes (see the module comment).
pub open spec fn kdf_salt() -> Seq<u8> {
    Seq::new(8, |i: int| 0u8)
}

/// What the KDF is fed: the responder's public encoding, then the
/// initiator's, then the raw shared secret, concatenated in that fixed
/// order.
pub open spec fn kdf_input_of(
    shared_secret: Seq<u8>,
    responder_pub: Seq<u8>,
    initiator_pub: Seq<u8>,
) -> Seq<u8> {
    responder_pub + initiator_pub + shared_secret
}

/// The session key that either role derives from a raw shared secret and the
/// two exchanged public encodings.
pub open spec fn session_key_of(
    shared_secret: Seq<u8>,
    responder_pub: Seq<u8>,
    initiator_pub: Seq<u8>,
) -> Seq<u8> {
    pbkdf2_of(PBKDF2_ITERATIONS, kdf_salt(), kdf_input_of(shared_secret, responder_pub, initiator_pub))
}

/// One single-use ephemeral key pair: the private key is consumed by exactly
/// one agreement, and the public encoding is what goes on the wire.
pub struct KeyPair {
    pub private_key: EphemeralPrivateKey,
    pub public_encoded: Vec<u8>,
}

impl KeyPair {
    /// A well-formed key pair carries a 32-byte public encoding.
    pub open spec fn wf(&self) -> bool {
        self.public_encoded@.len() == PUB_KEY_LEN
    }

    /// Generate a fresh ephemeral key pair from the system's secure random
    /// source.
    pub fn generate() -> (r: Result<KeyPair, CryptoError>)
        ensures
            r matches Ok(kp) ==> kp.wf(),
    {
        let rng = new_system_random();
        let private_key = match generate_private_key(&rng) {
            Ok(k) => k,
            Err(e) => {
                return Err(e);
            },
        };
        let public_encoded = match compute_public_key(&private_key) {
            Ok(p) => p,
            Err(e) => {
                return Err(e);
            },
        };
        Ok(KeyPair { private_key, public_encoded })
    }
}

/// Derive the 256-bit session key from a raw shared secret, bound to the
/// responder's and the initiator's public encodings in that fixed order.
/// Pure: equal inputs always derive the equal key.
pub fn derive_session_key(
    shared_secret: &[u8],
    responder_pub: &[u8],
    initiator_pub: &[u8],
) -> (r: [u8; 32])
    requires
        shared_secret@.len() <= 0x100_0000,
        responder_pub@.len() <= 0x100_0000,
        initiator_pub@.len() <= 0x100_0000,
    ensures
        r@ == session_key_of(shared_secret@, responder_pub@, initiator_pub@),
{
    let mut combined: Vec<u8> = Vec::new();
    push_all(&mut combined, responder_pub);
    push_all(&mut combined, initiator_pub);
    push_all(&mut combined, shared_secret);
    proof {
        assert(combined@ =~= kdf_input_of(shared_secret@, responder_pub@, initiator_pub@));
    }
    let salt: [u8; 8] = [0; 8];
    proof {
        assert(salt@ =~= kdf_salt());
    }
    pbkdf2_hmac_sha256(PBKDF2_ITERATIONS, salt.as_slice(), combined.as_slice())
}

/// Consume a private key, agree with the peer's public encoding, and derive
/// the session key bound to `server_pub` (the responder's encoding) and
/// `client_pub` (the initiator's), in that order. Fails only when the
/// agreement refuses the peer's encoding.
pub fn get_handshake_result(
    my_priv: EphemeralPrivateKey,
    their_pub: &[u8],
    server_pub: &[u8],
    client_pub: &[u8],
) -> (r: Result<[u8; 32], CryptoError>)
    requires
        server_pub@.len() <= 0x100_0000,
        client_pub@.len() <= 0x100_0000,
    ensures
        r matches Ok(k) ==> exists|s: Seq<u8>|
            s.len() == 32 && k@ == session_key_of(s, server_pub@, client_pub@),
{
    let shared = match agree_x25519(my_priv, their_pub) {
        Ok(s) => s,
        Err(e) => {
            return Err(e);
        },
    };
    let key = derive_session_key(shared.as_slice(), server_pub, client_pub);
    proof {
        assert(shared@.len() == 32 && key@ == session_key_of(
            shared@,
            server_pub@,
            client_pub@,
        ));
    }
    Ok(key)
}

/// The initiator's half of the exchange, once the responder's public
/// encoding has arrived: agree, then derive with the responder's encoding
/// first and our own second.
pub fn initiator_handshake_finish(keypair: KeyPair, responder_pub: &[u8]) -> (r: Result<
    [u8; 32],
    CryptoError,
>)
    requires
        keypair.wf(),
        responder_pub@.len() == PUB_KEY_LEN,
    ensures
        r matches Ok(k) ==> exists|s: Seq<u8>|
            s.len() == 32 && k@ == session_key_of(s, responder_pub@, keypair.public_encoded@),
{
    let KeyPair { private_key, public_encoded } = keypair;
    get_handshake_result(private_key, responder_pub, responder_pub, public_encoded.as_slice())
}

/// The responder's half of the exchange, once the initiator's public
/// encoding has arrived: agree, then derive with our own encoding first and
/// the initiator's second — the same order the initiator uses, so matching
/// agreements yield matching keys.
pub fn responder_handshake_finish(keypair: KeyPair, initiator_pub: &[u8]) -> (r: Result<
    [u8; 32],
    CryptoError,
>)
    requires
        keypair.wf(),
        initiator_pub@.len() == PUB_KEY_LEN,
    ensures
        r matches Ok(k) ==> exists|s: Seq<u8>|
            s.len() == 32 && k@ == session_key_of(s, keypair.public_encoded@, initiator_pub@),
{
    let KeyPair { private_key, public_encoded } = keypair;
    get_handshake_result(private_key, initiator_pub, public_encoded.as_slice(), initiator_pub)
}

/// Key derivation is pure: the two roles apply one function to the raw
/// shared secret and the exchanged public encodings, so whenever their
/// agreements produce the same secret over the same exchanged material, the
/// two independently derived session keys are identical.
pub proof fn lemma_derive_session_key_pure(
    s1: Seq<u8>,
    rp1: Seq<u8>,
    ip1: Seq<u8>,
    s2: Seq<u8>,
    rp2: Seq<u8>,
    ip2: Seq<u8>,
)
    requires
        s1 == s2,
        rp1 == rp2,
        ip1 == ip2,
    ensures
        session_key_of(s1, rp1, ip1) == session_key_of(s2, rp2, ip2),
{
}

} // verus!
