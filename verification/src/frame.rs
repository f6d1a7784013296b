//! Length-prefixed message framing with an anti-DoS size cap.
//!
//! A frame is a network-byte-order (big-endian) 8-byte length followed by
//! that many raw payload bytes. A receiver configures a maximum length; a
//! frame declaring more than that is rejected with an empty payload after
//! only the length bytes, bounding the memory a malicious sender can demand.
use vstd::prelude::*;

verus! {

/// Big-endian (network byte order) encoding of a 64-bit value.
pub open spec fn be64_of(v: u64) -> Seq<u8> {
    seq![
        ((v >> 56) & 0xff) as u8,
        ((v >> 48) & 0xff) as u8,
        ((v >> 40) & 0xff) as u8,
        ((v >> 32) & 0xff) as u8,
        ((v >> 24) & 0xff) as u8,
        ((v >> 16) & 0xff) as u8,
        ((v >> 8) & 0xff) as u8,
        (v & 0xff) as u8,
    ]
}

/// The 64-bit value read back from 8 big-endian bytes.
pub open spec fn be64_decode(s: Seq<u8>) -> u64
    recommends
        s.len() == 8,
{
    (((s[0] as u64) << 56) | ((s[1] as u64) << 48) | ((s[2] as u64) << 40) | ((s[3] as u64) << 32)
        | ((s[4] as u64) << 24) | ((s[5] as u64) << 16) | ((s[6] as u64) << 8) | (s[7] as u64))
}

/// Decoding inverts encoding: the 8 big-endian bytes of a value read back as
/// that value.
pub proof fn lemma_be64_round_trip(v: u64)
    ensures
        be64_decode(be64_of(v)) == v,
{
    let b0: u8 = ((v >> 56) & 0xff) as u8;
    let b1: u8 = ((v >> 48) & 0xff) as u8;
    let b2: u8 = ((v >> 40) & 0xff) as u8;
    let b3: u8 = ((v >> 32) & 0xff) as u8;
    let b4: u8 = ((v >> 24) & 0xff) as u8;
    let b5: u8 = ((v >> 16) & 0xff) as u8;
    let b6: u8 = ((v >> 8) & 0xff) as u8;
    let b7: u8 = (v & 0xff) as u8;
    assert((((b0 as u64) << 56) | ((b1 as u64) << 48) | ((b2 as u64) << 40) | ((b3 as u64) << 32)
        | ((b4 as u64) << 24) | ((b5 as u64) << 16) | ((b6 as u64) << 8) | (b7 as u64)) == v)
        by (bit_vector)
        requires
            b0 == ((v >> 56) & 0xff) as u8,
            b1 == ((v >> 48) & 0xff) as u8,
            b2 == ((v >> 40) & 0xff) as u8,
            b3 == ((v >> 32) & 0xff) as u8,
            b4 == ((v >> 24) & 0xff) as u8,
            b5 == ((v >> 16) & 0xff) as u8,
            b6 == ((v >> 8) & 0xff) as u8,
            b7 == (v & 0xff) as u8,
    ;
}

/// Encode a 64-bit length in network byte order, 8 bytes.
pub fn net_encode_u64(data: u64) -> (r: Vec<u8>)
    ensures
        r@ == be64_of(data),
        r@.len() == 8,
{
    proof {
        assert(((data >> 56) & 0xff) < 256 && ((data >> 48) & 0xff) < 256 && ((data >> 40) & 0xff)
            < 256 && ((data >> 32) & 0xff) < 256 && ((data >> 24) & 0xff) < 256 && ((data >> 16)
            & 0xff) < 256 && ((data >> 8) & 0xff) < 256 && (data & 0xff) < 256) by (bit_vector);
    }
    let mut result: Vec<u8> = Vec::with_capacity(8);
    result.push(((data >> 56) & 0xff) as u8);
    result.push(((data >> 48) & 0xff) as u8);
    result.push(((data >> 40) & 0xff) as u8);
    result.push(((data >> 32) & 0xff) as u8);
    result.push(((data >> 24) & 0xff) as u8);
    result.push(((data >> 16) & 0xff) as u8);
    result.push(((data >> 8) & 0xff) as u8);
    result.push((data & 0xff) as u8);
    proof {
        assert(result@ =~= be64_of(data));
    }
    result
}

/// Decode a 64-bit length from the first 8 bytes, network byte order.
pub fn net_decode_u64(encoded: &[u8]) -> (r: u64)
    requires
        encoded@.len() >= 8,
    ensures
        r == be64_decode(encoded@.subrange(0, 8)),
{
    let r: u64 = (((encoded[0] as u64) << 56) | ((encoded[1] as u64) << 48) | ((encoded[2] as u64)
        << 40) | ((encoded[3] as u64) << 32) | ((encoded[4] as u64) << 24) | ((encoded[5] as u64)
        << 16) | ((encoded[6] as u64) << 8) | (encoded[7] as u64));
    proof {
        let s = encoded@.subrange(0, 8);
        assert(s[0] == encoded@[0] && s[1] == encoded@[1] && s[2] == encoded@[2] && s[3]
            == encoded@[3] && s[4] == encoded@[4] && s[5] == encoded@[5] && s[6] == encoded@[6]
            && s[7] == encoded@[7]);
    }
    r
}

/// Append every byte of `src` to `dst`, in order.
pub(crate) fn push_all(dst: &mut Vec<u8>, src: &[u8])
    ensures
        final(dst)@ == old(dst)@ + src@,
{
    proof {
        assert(dst@ =~= old(dst)@ + src@.subrange(0, 0));
    }
    let mut i: usize = 0;
    while i < src.len()
        invariant
            i <= src@.len(),
            dst@ == old(dst)@ + src@.subrange(0, i as int),
        decreases src@.len() - i,
    {
        dst.push(src[i]);
        proof {
            assert(src@.subrange(0, i + 1) =~= src@.subrange(0, i as int).push(src@[i as int]));
            assert(dst@ =~= old(dst)@ + src@.subrange(0, i + 1));
        }
        i = i + 1;
    }
    proof {
        assert(src@.subrange(0, src@.len() as int) =~= src@);
    }
}

/// Copy the bytes of `s` from `start` (inclusive) to `end` (exclusive) into a
/// fresh vector.
pub(crate) fn slice_range_to_vec(s: &[u8], start: usize, end: usize) -> (r: Vec<u8>)
    requires
        start <= end <= s@.len(),
    ensures
        r@ == s@.subrange(start as int, end as int),
{
    let mut r: Vec<u8> = Vec::new();
    let mut i: usize = start;
    while i < end
        invariant
            start <= i <= end <= s@.len(),
            r@ == s@.subrange(start as int, i as int),
        decreases end - i,
    {
        r.push(s[i]);
        proof {
            assert(s@.subrange(start as int, i + 1) =~= s@.subrange(start as int, i as int).push(
                s@[i as int],
            ));
        }
        i = i + 1;
    }
    r
}

/// Decide whether a received 8-byte length prefix is acceptable under the
/// receiver's cap: the declared length when it is within `max_count`,
/// nothing when the frame must be rejected without reading its payload.
pub fn accepted_frame_len(len_bytes: &[u8], max_count: u64) -> (r: Option<u64>)
    requires
        len_bytes@.len() >= 8,
    ensures
        r matches Some(l) ==> l == be64_decode(len_bytes@.subrange(0, 8)) && l <= max_count,
        r is None ==> be64_decode(len_bytes@.subrange(0, 8)) > max_count,
{
    let l: u64 = net_decode_u64(len_bytes);
    if l > max_count {
        None
    } else {
        Some(l)
    }
}

/// The wire bytes of one frame: 8 big-endian length bytes, then the payload.
pub open spec fn frame_of(payload: Seq<u8>) -> Seq<u8>
    recommends
        payload.len() <= u64::MAX,
{
    be64_of(payload.len() as u64) + payload
}

/// What reading one frame from the head of `wire` under the cap `max_count`
/// yields: the payload and the count of bytes consumed. A frame declaring
/// more than `max_count` bytes yields an empty payload after only the 8
/// length bytes; a wire that ends before the frame does yields nothing.
pub open spec fn read_frame_spec(wire: Seq<u8>, max_count: u64) -> Option<(Seq<u8>, int)> {
    if wire.len() < 8 {
        None
    } else {
        let l = be64_decode(wire.subrange(0, 8));
        if l > max_count {
            Some((Seq::empty(), 8))
        } else if wire.len() - 8 < l {
            None
        } else {
            Some((wire.subrange(8, 8 + l as int), 8 + l as int))
        }
    }
}

/// Build the wire bytes of one frame carrying `bytes`.
pub fn encode_frame(bytes: &[u8]) -> (r: Vec<u8>)
    ensures
        r@ == frame_of(bytes@),
        r@.len() == 8 + bytes@.len(),
{
    let mut r = net_encode_u64(bytes.len() as u64);
    push_all(&mut r, bytes);
    r
}

/// Read one frame from the head of `wire`, rejecting a declared length above
/// `max_count` with an empty payload. Returns the payload and the count of
/// bytes consumed, or `None` when the wire ends short of the declared length.
pub fn decode_frame(wire: &[u8], max_count: u64) -> (r: Option<(Vec<u8>, usize)>)
    ensures
        match read_frame_spec(wire@, max_count) {
            Some((payload, consumed)) => r matches Some(p) && p.0@ == payload && p.1 == consumed,
            None => r is None,
        },
{
    if wire.len() < 8 {
        return None;
    }
    let l: u64 = net_decode_u64(wire);
    if l > max_count {
        return Some((Vec::new(), 8));
    }
    if ((wire.len() - 8) as u64) < l {
        return None;
    }
    let l_us: usize = l as usize;
    let payload = slice_range_to_vec(wire, 8, 8 + l_us);
    Some((payload, 8 + l_us))
}

/// Reading a frame from the head of a wire that begins with the encoding of
/// `payload` yields exactly `payload` back, whatever bytes follow the frame,
/// whenever the payload is within the receiver's cap.
pub proof fn lemma_frame_round_trip(payload: Seq<u8>, max_count: u64, rest: Seq<u8>)
    requires
        payload.len() <= max_count,
    ensures
        read_frame_spec(frame_of(payload) + rest, max_count) == Some(
            (payload, 8 + payload.len() as int),
        ),
{
    let wire = frame_of(payload) + rest;
    lemma_be64_round_trip(payload.len() as u64);
    assert(wire.subrange(0, 8) =~= be64_of(payload.len() as u64));
    assert(wire.subrange(8, 8 + payload.len() as int) =~= payload);
}

/// A frame declaring more than the receiver's cap is rejected: the read
/// yields an empty payload — never the oversized one — after consuming only
/// the 8 length bytes, and it yields it without failing.
pub proof fn lemma_frame_oversize_rejected(payload: Seq<u8>, max_count: u64, rest: Seq<u8>)
    requires
        payload.len() > max_count,
        payload.len() <= u64::MAX,
    ensures
        read_frame_spec(frame_of(payload) + rest, max_count) == Some((Seq::<u8>::empty(), 8int)),
        Seq::<u8>::empty() != payload,
{
    let wire = frame_of(payload) + rest;
    lemma_be64_round_trip(payload.len() as u64);
    assert(wire.subrange(0, 8) =~= be64_of(payload.len() as u64));
    assert(payload.len() > 0);
}

} // verus!
