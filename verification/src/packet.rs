//! The AEAD packet codec: sealing and opening messages under the session
//! key.
//!
//! Each message travels as one encrypted packet: a fresh random 96-bit nonce
//! in the clear, then one length-prefixed frame carrying the ciphertext with
//! its appended authentication tag. A nonce must never repeat under the same
//! key — both peers draw nonces from the same secure random source — and any
//! tampering with nonce or ciphertext makes opening fail rather than return
//! altered plaintext.
use vstd::prelude::*;

use crate::crypto::CryptoError;
use crate::crypto::NONCE_LEN;
use crate::crypto::aead_open;
use crate::crypto::aead_open_of;
use crate::crypto::aead_seal;
use crate::crypto::aead_seal_of;
use crate::crypto::new_system_random;
use crate::crypto::random_nonce;
use crate::frame::frame_of;
use crate::frame::encode_frame;
use crate::frame::push_all;
use crate::frame::read_frame_spec;
use crate::frame::slice_range_to_vec;

verus! {

broadcast use vstd::array::group_array_axioms;

/// One sealed message: the clear nonce and the ciphertext with its appended
/// authentication tag.
pub struct AESPacket {
    pub nonce: [u8; NONCE_LEN],
    pub encrypted_bytes: Vec<u8>,
}

impl AESPacket {
    /// Assemble a packet from a received nonce and ciphertext.
    pub fn from(nonce: [u8; NONCE_LEN], encrypted_bytes: Vec<u8>) -> (r: AESPacket)
        ensures
            r.nonce@ == nonce@,
            r.encrypted_bytes@ == encrypted_bytes@,
    {
        AESPacket { nonce, encrypted_bytes }
    }

    /// Seal a plaintext under the session key with a fresh random nonce. On
    /// success the packet's ciphertext is exactly the AEAD sealing of the
    /// plaintext under the key and that nonce, and opening it under the same
    /// key gives the plaintext back. Fails only when the random source or
    /// the cipher refuses.
    pub fn from_plaintext(key: &[u8; 32], plaintext: &[u8]) -> (r: Result<AESPacket, CryptoError>)
        ensures
            r matches Ok(p) ==> p.encrypted_bytes@ == aead_seal_of(key@, p.nonce@, plaintext@),
            r matches Ok(p) ==> p.encrypted_bytes@.len() == plaintext@.len() + 16,
            r matches Ok(p) ==> aead_open_of(key@, p.nonce@, p.encrypted_bytes@) == Some(
                plaintext@,
            ),
    {
        let rng = new_system_random();
        let nonce = match random_nonce(&rng) {
            Ok(n) => n,
            Err(e) => {
                return Err(e);
            },
        };
        let encrypted_bytes = match aead_seal(key, &nonce, plaintext) {
            Ok(c) => c,
            Err(e) => {
                return Err(e);
            },
        };
        Ok(AESPacket { nonce, encrypted_bytes })
    }

    /// Open the packet under the session key: returns the plaintext exactly
    /// when the tag authenticates the ciphertext under the key and the
    /// packet's nonce, and fails otherwise — tampered or mismatched packets
    /// never yield altered plaintext.
    pub fn to_plaintext(self, key: &[u8; 32]) -> (r: Result<Vec<u8>, CryptoError>)
        ensures
            r matches Ok(q) ==> aead_open_of(key@, self.nonce@, self.encrypted_bytes@) == Some(
                q@,
            ),
            r is Err <==> aead_open_of(key@, self.nonce@, self.encrypted_bytes@) is None,
    {
        aead_open(key, &self.nonce, self.encrypted_bytes.as_slice())
    }
}

/// Sealing then opening under one key returns the original plaintext: the
/// composition fails only when the random source or the cipher refused the
/// sealing, and whenever it succeeds the bytes are the ones sealed.
pub fn seal_open_round_trip(key: &[u8; 32], plaintext: &[u8]) -> (r: Result<Vec<u8>, CryptoError>)
    ensures
        r matches Ok(q) ==> q@ == plaintext@,
{
    let packet = match AESPacket::from_plaintext(key, plaintext) {
        Ok(p) => p,
        Err(e) => {
            return Err(e);
        },
    };
    packet.to_plaintext(key)
}

/// The wire bytes of one packet: the 12 nonce bytes in the clear, then one
/// frame carrying the ciphertext and tag.
pub open spec fn packet_wire_of(nonce: Seq<u8>, ciphertext: Seq<u8>) -> Seq<u8> {
    nonce + frame_of(ciphertext)
}

/// What reading one packet from the head of `wire` under the frame cap
/// `max_count` yields: the nonce, the ciphertext, and the count of bytes
/// consumed. An oversized frame yields an empty ciphertext (which no key
/// opens); a wire that ends short yields nothing.
pub open spec fn read_packet_spec(wire: Seq<u8>, max_count: u64) -> Option<(Seq<u8>, Seq<u8>, int)> {
    if wire.len() < 12 {
        None
    } else {
        match read_frame_spec(wire.subrange(12, wire.len() as int), max_count) {
            Some((ciphertext, consumed)) => Some(
                (wire.subrange(0, 12), ciphertext, 12 + consumed),
            ),
            None => None,
        }
    }
}

/// Build the wire bytes of one packet.
pub fn encode_packet(packet: &AESPacket) -> (r: Vec<u8>)
    ensures
        r@ == packet_wire_of(packet.nonce@, packet.encrypted_bytes@),
{
    let mut r: Vec<u8> = Vec::new();
    push_all(&mut r, packet.nonce.as_slice());
    let frame = encode_frame(packet.encrypted_bytes.as_slice());
    push_all(&mut r, frame.as_slice());
    proof {
        assert(r@ =~= packet_wire_of(packet.nonce@, packet.encrypted_bytes@));
    }
    r
}

/// Copy exactly 12 received bytes into a nonce.
pub fn nonce_from_bytes(bytes: &[u8]) -> (r: [u8; NONCE_LEN])
    requires
        bytes@.len() == NONCE_LEN,
    ensures
        r@ == bytes@,
{
    let mut r: [u8; NONCE_LEN] = [0; NONCE_LEN];
    let mut i: usize = 0;
    while i < NONCE_LEN
        invariant
            i <= NONCE_LEN,
            r@.len() == NONCE_LEN,
            bytes@.len() == NONCE_LEN,
            forall|j: int| 0 <= j < i ==> r@[j] == bytes@[j],
        decreases NONCE_LEN - i,
    {
        r[i] = bytes[i];
        i = i + 1;
    }
    proof {
        assert(r@ =~= bytes@);
    }
    r
}

/// Read one packet from the head of `wire`: 12 nonce bytes, then one frame
/// of ciphertext under the cap `max_count`. Returns the packet and the count
/// of bytes consumed, or `None` when the wire ends short.
pub fn decode_packet(wire: &[u8], max_count: u64) -> (r: Option<(AESPacket, usize)>)
    ensures
        match read_packet_spec(wire@, max_count) {
            Some((nonce, ciphertext, consumed)) => r matches Some(p) && p.0.nonce@ == nonce
                && p.0.encrypted_bytes@ == ciphertext && p.1 == consumed,
            None => r is None,
        },
{
    if wire.len() < 12 {
        return None;
    }
    let nonce_bytes = slice_range_to_vec(wire, 0, 12);
    let nonce = nonce_from_bytes(nonce_bytes.as_slice());
    let rest = slice_range_to_vec(wire, 12, wire.len());
    proof {
        assert(rest@ =~= wire@.subrange(12, wire@.len() as int));
    }
    match crate::frame::decode_frame(rest.as_slice(), max_count) {
        Some((ciphertext, consumed)) => Some((AESPacket { nonce, encrypted_bytes: ciphertext }, 12 + consumed)),
        None => None,
    }
}

/// The packet wire form reads back exactly: a wire that begins with the
/// encoding of a packet yields that packet's nonce and ciphertext, whatever
/// follows, whenever the ciphertext is within the receiver's cap.
pub proof fn lemma_packet_wire_round_trip(
    nonce: Seq<u8>,
    ciphertext: Seq<u8>,
    max_count: u64,
    rest: Seq<u8>,
)
    requires
        nonce.len() == 12,
        ciphertext.len() <= max_count,
    ensures
        read_packet_spec(packet_wire_of(nonce, ciphertext) + rest, max_count) == Some(
            (nonce, ciphertext, 20 + ciphertext.len() as int),
        ),
{
    let wire = packet_wire_of(nonce, ciphertext) + rest;
    assert(wire.subrange(0, 12) =~= nonce);
    assert(wire.subrange(12, wire.len() as int) =~= frame_of(ciphertext) + rest);
    crate::frame::lemma_frame_round_trip(ciphertext, max_count, rest);
}

} // verus!
