use netcode::handshake::KeyPair;
use netcode::handshake::derive_session_key;
use netcode::handshake::get_handshake_result;
use netcode::handshake::initiator_handshake_finish;
use netcode::handshake::responder_handshake_finish;

#[test]
fn test_keypair_generate() {
    let a = KeyPair::generate().expect("key generation should succeed");
    let b = KeyPair::generate().expect("key generation should succeed");
    assert_eq!(a.public_encoded.len(), 32);
    assert_eq!(b.public_encoded.len(), 32);
    // Fresh ephemeral keys: two generations must not collide.
    assert_ne!(a.public_encoded, b.public_encoded);
}

#[test]
fn test_handshake_symmetry() {
    // The initiator and the responder, run against each other's public
    // encodings, derive the identical session key on both ends.
    let initiator = KeyPair::generate().expect("key generation should succeed");
    let responder = KeyPair::generate().expect("key generation should succeed");
    let initiator_pub = initiator.public_encoded.clone();
    let responder_pub = responder.public_encoded.clone();

    let initiator_key =
        initiator_handshake_finish(initiator, &responder_pub).expect("handshake should succeed");
    let responder_key =
        responder_handshake_finish(responder, &initiator_pub).expect("handshake should succeed");

    assert_eq!(initiator_key, responder_key);
}

#[test]
fn test_get_handshake_result_symmetry() {
    // The same symmetry through the role-agnostic entry point: each side
    // passes its own private key and the peer's public encoding, with the
    // (server, client) binding order fixed on both sides.
    let server = KeyPair::generate().expect("key generation should succeed");
    let client = KeyPair::generate().expect("key generation should succeed");
    let server_pub = server.public_encoded.clone();
    let client_pub = client.public_encoded.clone();

    let server_key = get_handshake_result(server.private_key, &client_pub, &server_pub, &client_pub)
        .expect("handshake should succeed");
    let client_key = get_handshake_result(client.private_key, &server_pub, &server_pub, &client_pub)
        .expect("handshake should succeed");

    assert_eq!(server_key, client_key);
}

#[test]
fn test_handshake_refuses_malformed_peer_key() {
    let kp = KeyPair::generate().expect("key generation should succeed");
    let own_pub = kp.public_encoded.clone();
    // A peer "public key" of the wrong length cannot be agreed with.
    let bogus_peer = vec![1u8, 2, 3, 4, 5];
    let r = get_handshake_result(kp.private_key, &bogus_peer, &own_pub, &bogus_peer);
    assert_eq!(r, Err(netcode::crypto::CryptoError::AgreementFailed));
}

#[test]
fn test_derive_session_key_pure() {
    let secret = [0x11u8; 32];
    let responder_pub = [0x22u8; 32];
    let initiator_pub = [0x33u8; 32];
    let k1 = derive_session_key(&secret, &responder_pub, &initiator_pub);
    let k2 = derive_session_key(&secret, &responder_pub, &initiator_pub);
    assert_eq!(k1, k2);
}

#[test]
fn test_derive_session_key_differs_on_inputs() {
    let secret = [0x11u8; 32];
    let mut other_secret = secret;
    other_secret[0] ^= 1;
    let responder_pub = [0x22u8; 32];
    let initiator_pub = [0x33u8; 32];
    let k = derive_session_key(&secret, &responder_pub, &initiator_pub);
    assert_ne!(k, derive_session_key(&other_secret, &responder_pub, &initiator_pub));
    // The binding order matters: swapping the public encodings changes the key.
    assert_ne!(k, derive_session_key(&secret, &initiator_pub, &responder_pub));
}

#[test]
fn test_derive_session_key_is_not_its_input() {
    // The KDF must transform, not hand back, what it is fed.
    let secret = [0x11u8; 32];
    let responder_pub = [0x22u8; 32];
    let initiator_pub = [0x33u8; 32];
    let k = derive_session_key(&secret, &responder_pub, &initiator_pub);
    assert_ne!(k, secret);
    assert_ne!(k, responder_pub);
    assert_ne!(k, initiator_pub);
    assert_ne!(k, [0u8; 32]);
}
