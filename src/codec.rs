//! The payload of one frame: an ASCII digit naming the request kind, then
//! the UTF-8 JSON text of the record. Length-prefixed framing around it is
//! the transport's.

use crate::custom_error::Byte2JsonErr;
use crate::models::{kind_code, kind_of_digit, RpcKind};
use vstd::prelude::*;
use vstd::string::StringSliceAdditionalSpecFns;
use vstd::utf8::{decode_utf8, encode_utf8, valid_utf8};

verus! {

/// What a payload holds.
pub enum PayloadView {
    /// Empty, or not UTF-8: the connection cannot go on.
    Malformed,
    /// Text whose first byte names no kind: the message is dropped.
    UnknownKind,
    /// A kind and the JSON text after its digit.
    Message { kind: RpcKind, body: Seq<char> },
}

/// How a payload reads.
pub open spec fn parse_payload(p: Seq<u8>) -> PayloadView {
    if p.len() == 0 || !valid_utf8(p) {
        PayloadView::Malformed
    } else {
        match kind_of_digit(p[0]) {
            Some(kind) => PayloadView::Message { kind, body: decode_utf8(p).drop_first() },
            None => PayloadView::UnknownKind,
        }
    }
}

/// The payload that carries `body` under `kind`.
pub open spec fn payload_bytes(kind: RpcKind, body: Seq<char>) -> Seq<u8> {
    seq![(0x30 + kind_code(kind)) as u8] + encode_utf8(body)
}

/// Relies on `std::str::from_utf8`: it succeeds exactly on valid UTF-8, and
/// the text it returns is made of those bytes.
#[verifier::external_body]
fn utf8_text(bytes: &[u8]) -> (r: Option<&str>)
    ensures
        r is Some <==> valid_utf8(bytes@),
        r matches Some(s) ==> s.spec_bytes() == bytes@,
{
    std::str::from_utf8(bytes).ok()
}

/// After an ASCII first byte, the text of a payload is that of its remaining bytes.
proof fn lemma_ascii_head(p: Seq<u8>)
    requires
        p.len() > 0,
        p[0] < 0x80,
        valid_utf8(p),
    ensures
        valid_utf8(p.drop_first()),
        decode_utf8(p).drop_first() == decode_utf8(p.drop_first()),
        vstd::utf8::is_char_boundary(p, 1),
{
    assert(vstd::utf8::pop_first_scalar(p) =~= p.drop_first());
    assert(vstd::utf8::is_char_boundary(vstd::utf8::pop_first_scalar(p), 0));
}

/// An ASCII byte followed by valid UTF-8 is valid UTF-8.
proof fn lemma_ascii_prefix_valid(p: Seq<u8>)
    requires
        p.len() > 0,
        p[0] < 0x80,
        valid_utf8(p.drop_first()),
    ensures
        valid_utf8(p),
{
    let b = p[0];
    assert((b & 0x7f) <= 0x7f) by (bit_vector);
    assert(vstd::utf8::valid_first_scalar(p));
    assert(vstd::utf8::pop_first_scalar(p) =~= p.drop_first());
}

/// Splits a payload into its kind and JSON text. Empty or non-UTF-8 bytes
/// are an error; text whose first byte names no kind gives `Ok(None)`.
pub fn decode_payload(p: &[u8]) -> (r: Result<Option<(RpcKind, String)>, Byte2JsonErr>)
    ensures
        match r {
            Err(_) => parse_payload(p@) is Malformed,
            Ok(None) => parse_payload(p@) is UnknownKind,
            Ok(Some((kind, body))) => parse_payload(p@) == (PayloadView::Message { kind, body: body@ }),
        },
{
    if p.len() == 0 {
        return Err(Byte2JsonErr);
    }
    match utf8_text(p) {
        None => Err(Byte2JsonErr),
        Some(text) => match RpcKind::from_digit(p[0]) {
            None => Ok(None),
            Some(kind) => {
                proof {
                    lemma_ascii_head(p@);
                }
                let (_, rest) = text.split_at(1);
                proof {
                    assert(rest.spec_bytes() =~= p@.drop_first());
                    vstd::utf8::encode_utf8_decode_utf8(rest@);
                }
                let body = rest.to_owned();
                Ok(Some((kind, body)))
            },
        },
    }
}

/// The payload that carries the JSON text `json` under `kind`.
pub fn encode_payload(kind: RpcKind, json: &str) -> (r: Vec<u8>)
    ensures
        r@ == payload_bytes(kind, json@),
{
    let bytes = json.as_bytes();
    let mut r: Vec<u8> = Vec::new();
    r.push(kind.digit());
    let mut i: usize = 0;
    while i < bytes.len()
        invariant
            i <= bytes@.len(),
            bytes@ == encode_utf8(json@),
            r@ == seq![(0x30 + kind_code(kind)) as u8] + bytes@.take(i as int),
        decreases bytes.len() - i,
    {
        r.push(bytes[i]);
        assert(bytes@.take(i as int + 1) =~= bytes@.take(i as int).push(bytes@[i as int]));
        i += 1;
    }
    assert(bytes@.take(bytes@.len() as int) =~= bytes@);
    r
}

/// Decoding a payload written by `encode_payload` gives back its kind and text.
pub proof fn lemma_payload_round_trip(kind: RpcKind, body: Seq<char>)
    ensures
        parse_payload(payload_bytes(kind, body)) == (PayloadView::Message { kind, body }),
{
    let p = payload_bytes(kind, body);
    assert(p.drop_first() =~= encode_utf8(body));
    vstd::utf8::encode_utf8_valid_utf8(body);
    vstd::utf8::encode_utf8_decode_utf8(body);
    lemma_ascii_prefix_valid(p);
    lemma_ascii_head(p);
}

} // verus!
