//! The text exchanged with a browser that asks for a live stream: the offer
//! arrives, and the answer leaves, as base64 of a JSON session description.

use vstd::prelude::*;
use vstd::string::StringSliceAdditionalSpecFns;
use vstd::utf8::{decode_utf8, encode_utf8, encode_utf8_decode_utf8, encode_utf8_valid_utf8, valid_utf8};

verus! {

/// The bytes that the base64 crate's `decode` (standard alphabet, padded)
/// gives for `input`, or `None` when it refuses it.
pub uninterp spec fn base64_decoding(input: Seq<u8>) -> Option<Seq<u8>>;

/// The text that the base64 crate's `encode` (standard alphabet, padded)
/// gives for `input`.
pub uninterp spec fn base64_encoding(input: Seq<u8>) -> Seq<char>;

/// Decodes base64 text with `base64::decode`; its result, or its refusal, is
/// what `base64_decoding` names for the text's bytes.
#[verifier::external_body]
fn base64_decode(input: &str) -> (r: Option<Vec<u8>>)
    ensures
        match r {
            Some(v) => base64_decoding(input.spec_bytes()) == Some(v@),
            None => base64_decoding(input.spec_bytes()) is None,
        },
{
    base64::decode(input).ok()
}

/// Encodes bytes with `base64::encode`; the result is what `base64_encoding`
/// names for them, and, as the crate documents, `decode` of that text gives
/// the bytes back.
#[verifier::external_body]
fn base64_encode(input: &str) -> (s: String)
    ensures
        s@ == base64_encoding(input.spec_bytes()),
        base64_decoding(encode_utf8(s@)) == Some(input.spec_bytes()),
{
    base64::encode(input)
}

/// Reads bytes as UTF-8 with `String::from_utf8`: the text they encode, or
/// `None` when they are not valid UTF-8.
#[verifier::external_body]
fn string_from_utf8(bytes: Vec<u8>) -> (r: Option<String>)
    ensures
        r is Some <==> valid_utf8(bytes@),
        r matches Some(s) ==> s@ == decode_utf8(bytes@),
{
    String::from_utf8(bytes).ok()
}

/// The session description that a base64 offer carries: the UTF-8 text of
/// its decoded bytes; `None` when the offer is not base64 or its bytes are not UTF-8.
pub open spec fn offer_text(offer: Seq<char>) -> Option<Seq<char>> {
    match base64_decoding(encode_utf8(offer)) {
        Some(b) => if valid_utf8(b) {
            Some(decode_utf8(b))
        } else {
            None
        },
        None => None,
    }
}

/// Reads the session description that a base64 offer carries.
pub fn decode_offer(offer: &str) -> (r: Option<String>)
    ensures
        match offer_text(offer@) {
            Some(t) => r matches Some(s) && s@ == t,
            None => r is None,
        },
{
    match base64_decode(offer) {
        Some(bytes) => string_from_utf8(bytes),
        None => None,
    }
}

/// The answer sent back: the base64 of the session description's JSON text.
/// Read as an offer, the answer gives the same text back.
pub fn encode_answer(json: &str) -> (r: String)
    ensures
        r@ == base64_encoding(json.spec_bytes()),
        offer_text(r@) == Some(json@),
{
    let r = base64_encode(json);
    proof {
        encode_utf8_valid_utf8(json@);
        encode_utf8_decode_utf8(json@);
    }
    r
}

} // verus!
