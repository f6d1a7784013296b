//! UTF-8 text payloads and the reserved control strings.
//!
//! Messages on the channel are opaque byte sequences; text rides on them as
//! UTF-8. The literal `"endconn"` is the reserved shutdown convention: its
//! receipt terminates the receiver's read loop instead of being delivered as
//! ordinary payload.
use vstd::prelude::*;
use vstd::slice::slice_to_vec;
use vstd::string::StringSliceAdditionalSpecFns;
use vstd::utf8::decode_utf8;
use vstd::utf8::encode_utf8;
use vstd::utf8::valid_utf8;

verus! {

/// Relies on `String::from_utf8`: it returns the string whose UTF-8 encoding
/// is the given bytes exactly when the bytes are valid UTF-8, and refuses
/// them otherwise.
#[verifier::external_body]
fn string_from_utf8(bytes: Vec<u8>) -> (r: Option<String>)
    ensures
        r matches Some(s) ==> valid_utf8(bytes@) && s@ == decode_utf8(bytes@),
        valid_utf8(bytes@) ==> r is Some,
{
    match String::from_utf8(bytes) {
        Ok(s) => Some(s),
        Err(_) => None,
    }
}

/// Encode a text message as its UTF-8 bytes for transmission.
pub fn net_encode_string(data: &str) -> (r: Vec<u8>)
    ensures
        r@ == encode_utf8(data@),
{
    slice_to_vec(data.as_bytes())
}

/// Decode received bytes as UTF-8 text; bytes that are not valid UTF-8 are
/// refused.
pub fn net_decode_string(encoded: &[u8]) -> (r: Option<String>)
    ensures
        r matches Some(s) ==> valid_utf8(encoded@) && s@ == decode_utf8(encoded@),
        valid_utf8(encoded@) ==> r is Some,
{
    string_from_utf8(slice_to_vec(encoded))
}

/// Decoding inverts encoding: a message encoded with `net_encode_string` is
/// decoded back to the same text by `net_decode_string`.
pub proof fn lemma_string_round_trip(text: Seq<char>)
    ensures
        valid_utf8(encode_utf8(text)),
        decode_utf8(encode_utf8(text)) == text,
{
    broadcast use vstd::utf8::encode_utf8_valid_utf8;
    broadcast use vstd::utf8::encode_utf8_decode_utf8;

}

/// Whether a received message is the reserved `"endconn"` shutdown
/// notification, on whose receipt a read loop must stop instead of
/// delivering the message.
pub fn is_end_connection(message: &str) -> (r: bool)
    ensures
        r == (message@ == "endconn"@),
{
    let m: String = message.to_owned();
    let e: String = "endconn".to_owned();
    m == e
}

} // verus!
