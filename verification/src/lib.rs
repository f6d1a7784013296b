//! A minimal secure point-to-point message channel over a reliable byte
//! stream: a length-prefixed framing codec with an anti-DoS size cap, and an
//! encrypted channel built on it from an ephemeral Diffie-Hellman handshake,
//! key derivation, and per-message authenticated encryption.
//!
//! The library holds the protocol logic: wire encodings, the handshake's key
//! binding, and the sealing and opening of packets. The transport itself (a
//! socket) lives outside; it hands byte buffers in and takes byte buffers out.
use vstd::prelude::*;

pub mod crypto;
pub mod frame;
pub mod handshake;
pub mod packet;
pub mod text;

verus! {

/// A duplex byte stream with blocking exact-length reads and write-all
/// writes. The transport outside the library implements it; `write_bytes`
/// and `read_bytes` move raw bytes, while the `_auto` pair carries one
/// length-prefixed frame per call, as `frame::encode_frame` and
/// `frame::decode_frame` lay it out.
pub trait Netcode {
    fn write_bytes(&mut self, bytes: &[u8]);

    fn write_bytes_auto(&mut self, bytes: &[u8]);

    fn read_bytes(&mut self, count: u64) -> Vec<u8>;

    fn read_bytes_auto(&mut self, max_count: u64) -> Vec<u8>;
}

} // verus!
