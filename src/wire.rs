//! Framing of protocol messages inside the custom-message envelope: a two-byte
//! big-endian message type followed by the JSON payload, all of it hex encoded.
use vstd::prelude::*;
use crate::hexcodec::{hex_decode, hex_decoded, hex_encode, hex_of, lemma_hex_round_trip};

verus! {

/// The custom message type registered for this protocol.
pub const MESSAGE_TYPE: u16 = 37913;

/// The bytes of a frame: the tag, high byte first, then the payload.
pub open spec fn framed(tag: u16, payload: Seq<u8>) -> Seq<u8> {
    seq![(tag as int / 256) as u8, (tag as int % 256) as u8] + payload
}

/// The tag that two leading bytes hold, the first one high.
pub open spec fn tag_of(hi: u8, lo: u8) -> u16 {
    (hi as int * 256 + lo as int) as u16
}

/// What an inbound hex payload carries for this protocol: its bytes after the
/// tag, when it is hex, holds a tag, and the tag is this protocol's.
pub open spec fn inbound_payload(s: Seq<char>) -> Option<Seq<u8>> {
    match hex_decoded(s) {
        Some(b) => if b.len() >= 2 && tag_of(b[0], b[1]) == MESSAGE_TYPE {
            Some(b.subrange(2, b.len() as int))
        } else {
            None
        },
        None => None,
    }
}

/// Puts a tag in front of a payload.
pub fn frame(tag: u16, payload: &Vec<u8>) -> (r: Vec<u8>)
    ensures
        r@ == framed(tag, payload@),
{
    let mut r: Vec<u8> = Vec::with_capacity(payload.len().saturating_add(2));
    r.push((tag / 256) as u8);
    r.push((tag % 256) as u8);
    let mut i: usize = 0;
    while i < payload.len()
        invariant
            i <= payload.len(),
            r@ == framed(tag, payload@.subrange(0, i as int)),
        decreases payload.len() - i,
    {
        r.push(payload[i]);
        i = i + 1;
        assert(framed(tag, payload@.subrange(0, i as int)) =~= framed(tag, payload@.subrange(0, i - 1)).push(payload@[i - 1]));
    }
    assert(payload@.subrange(0, payload.len() as int) =~= payload@);
    r
}

/// Splits a frame into its tag and its payload; `None` when it is shorter than a tag.
pub fn unframe(bytes: &Vec<u8>) -> (r: Option<(u16, Vec<u8>)>)
    ensures
        bytes@.len() < 2 <==> r is None,
        match r {
            Some((tag, payload)) => tag == tag_of(bytes@[0], bytes@[1])
                && payload@ == bytes@.subrange(2, bytes@.len() as int),
            None => true,
        },
{
    if bytes.len() < 2 {
        return None;
    }
    let tag: u16 = (bytes[0] as u16) * 256 + bytes[1] as u16;
    let mut payload: Vec<u8> = Vec::new();
    let mut i: usize = 2;
    while i < bytes.len()
        invariant
            2 <= i <= bytes.len(),
            payload@ == bytes@.subrange(2, i as int),
        decreases bytes.len() - i,
    {
        payload.push(bytes[i]);
        i = i + 1;
        assert(payload@ =~= bytes@.subrange(2, i as int));
    }
    Some((tag, payload))
}

/// The hex text sent to a peer for a protocol message with the given JSON bytes.
pub fn encode_message(payload: &Vec<u8>) -> (r: String)
    ensures
        r@ == hex_of(framed(MESSAGE_TYPE, payload@)),
{
    let bytes = frame(MESSAGE_TYPE, payload);
    hex_encode(bytes.as_slice())
}

/// The JSON bytes of an inbound custom message, or `None` when the message is
/// not this protocol's: not hex, shorter than a tag, or under another tag.
pub fn decode_custom_message(payload_hex: &str) -> (r: Option<Vec<u8>>)
    ensures
        match r {
            Some(v) => inbound_payload(payload_hex@) == Some(v@),
            None => inbound_payload(payload_hex@) is None,
        },
{
    let bytes = match hex_decode(payload_hex) {
        Some(b) => b,
        None => return None,
    };
    match unframe(&bytes) {
        Some((tag, payload)) => if tag == MESSAGE_TYPE {
            Some(payload)
        } else {
            None
        },
        None => None,
    }
}

/// A message framed under this protocol's tag comes back out of the inbound
/// decoder as the very payload that went in.
pub proof fn lemma_message_round_trip(payload: Seq<u8>)
    ensures
        inbound_payload(hex_of(framed(MESSAGE_TYPE, payload))) == Some(payload),
{
    let b = framed(MESSAGE_TYPE, payload);
    lemma_hex_round_trip(b);
    assert(b.subrange(2, b.len() as int) =~= payload);
}

/// Bytes of any length from two on whose leading tag is not this protocol's are
/// ignored by the inbound decoder, whatever follows the tag.
pub proof fn lemma_foreign_tag_ignored(bytes: Seq<u8>)
    requires
        bytes.len() >= 2,
        tag_of(bytes[0], bytes[1]) != MESSAGE_TYPE,
    ensures
        inbound_payload(hex_of(bytes)) is None,
{
    lemma_hex_round_trip(bytes);
}

/// Bytes shorter than a tag, and text that is not hex, are ignored by the
/// inbound decoder.
pub proof fn lemma_malformed_ignored(bytes: Seq<u8>, text: Seq<char>)
    requires
        bytes.len() < 2,
        hex_decoded(text) is None,
    ensures
        inbound_payload(hex_of(bytes)) is None,
        inbound_payload(text) is None,
{
    lemma_hex_round_trip(bytes);
}

} // verus!
