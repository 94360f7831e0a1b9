//! The length-prefixed encoding, stated over sequences of bytes.

use vstd::prelude::*;
use vstd::utf8::{
    decode_utf8, decode_utf8_encode_utf8, encode_utf8, encode_utf8_decode_utf8,
    encode_utf8_valid_utf8, valid_utf8,
};

use crate::error::Error;
use crate::status::Status;

verus! {

/// Largest payload length that a two-byte prefix can announce.
pub const MAX_PAYLOAD_LEN: usize = 0xFFFF;

/// The number that two bytes stand for when the more significant comes first.
pub open spec fn be_u16(hi: u8, lo: u8) -> int {
    hi * 256 + lo
}

/// The payload length that the first two bytes of `bytes` announce.
pub open spec fn declared_len(bytes: Seq<u8>) -> int
    recommends
        bytes.len() >= 2,
{
    be_u16(bytes[0], bytes[1])
}

/// True when `bytes` stops before the end of the value it starts: the prefix
/// is not all there, or it announces more payload than follows it.
pub open spec fn is_partial(bytes: Seq<u8>) -> bool {
    bytes.len() < 2 || bytes.len() - 2 < declared_len(bytes)
}

/// The bytes that the prefix of `bytes` announces, without the prefix.
pub open spec fn payload(bytes: Seq<u8>) -> Seq<u8>
    recommends
        !is_partial(bytes),
{
    bytes.subrange(2, 2 + declared_len(bytes))
}

/// True when `payload` is a string that the protocol admits: well-formed
/// UTF-8 that decodes to text without the code point U+0000.
pub open spec fn is_protocol_string(payload: Seq<u8>) -> bool {
    valid_utf8(payload) && !decode_utf8(payload).contains('\0')
}

/// What decoding `bytes` as length-prefixed raw data gives.
pub open spec fn bytes_outcome(bytes: Seq<u8>) -> Status<Seq<u8>> {
    if is_partial(bytes) {
        Status::Partial
    } else {
        Status::Complete(payload(bytes))
    }
}

/// What decoding `bytes` as a length-prefixed string gives.
pub open spec fn string_outcome(bytes: Seq<u8>) -> Result<Status<Seq<char>>, Error> {
    if is_partial(bytes) {
        Ok(Status::Partial)
    } else if is_protocol_string(payload(bytes)) {
        Ok(Status::Complete(decode_utf8(payload(bytes))))
    } else {
        Err(Error::Utf8)
    }
}

/// The encoding of `data`: its length in two bytes, more significant byte
/// first, and then `data` itself.
pub open spec fn length_prefixed(data: Seq<u8>) -> Seq<u8>
    recommends
        data.len() <= MAX_PAYLOAD_LEN,
{
    seq![(data.len() / 256) as u8, (data.len() % 256) as u8] + data
}

/// The prefix of an encoding announces the length of the payload it was made
/// from, and the payload follows it unchanged.
pub proof fn lemma_length_prefixed_parts(data: Seq<u8>)
    requires
        data.len() <= MAX_PAYLOAD_LEN,
    ensures
        length_prefixed(data).len() == 2 + data.len(),
        declared_len(length_prefixed(data)) == data.len(),
        !is_partial(length_prefixed(data)),
        payload(length_prefixed(data)) == data,
{
    let encoded = length_prefixed(data);
    assert(encoded[0] == (data.len() / 256) as u8);
    assert(encoded[1] == (data.len() % 256) as u8);
    assert(payload(encoded) =~= data);
}

/// Where a value is all there, its payload is as long as the prefix says and
/// ends within the buffer: decoding consumes two bytes more than the payload
/// holds.
pub proof fn lemma_payload_len(bytes: Seq<u8>)
    requires
        !is_partial(bytes),
    ensures
        payload(bytes).len() == declared_len(bytes),
        0 <= declared_len(bytes) <= MAX_PAYLOAD_LEN,
        2 + payload(bytes).len() <= bytes.len(),
{
}

/// A buffer of fewer than two bytes is partial for both decoders.
pub proof fn lemma_short_buffer_is_partial(bytes: Seq<u8>)
    requires
        bytes.len() < 2,
    ensures
        bytes_outcome(bytes) == Status::<Seq<u8>>::Partial,
        string_outcome(bytes) == Ok::<Status<Seq<char>>, Error>(Status::Partial),
{
}

/// A buffer whose prefix announces more payload than follows it is partial
/// for both decoders, whatever the bytes that did arrive hold.
pub proof fn lemma_short_payload_is_partial(bytes: Seq<u8>)
    requires
        bytes.len() >= 2,
        bytes.len() < 2 + declared_len(bytes),
    ensures
        bytes_outcome(bytes) == Status::<Seq<u8>>::Partial,
        string_outcome(bytes) == Ok::<Status<Seq<char>>, Error>(Status::Partial),
{
}

/// Every proper prefix of an encoding is partial for both decoders.
pub proof fn lemma_truncated_encoding_is_partial(data: Seq<u8>, n: int)
    requires
        data.len() <= MAX_PAYLOAD_LEN,
        0 <= n < 2 + data.len(),
    ensures
        bytes_outcome(length_prefixed(data).take(n)) == Status::<Seq<u8>>::Partial,
        string_outcome(length_prefixed(data).take(n)) == Ok::<Status<Seq<char>>, Error>(
            Status::Partial,
        ),
{
    lemma_length_prefixed_parts(data);
    let cut = length_prefixed(data).take(n);
    if n >= 2 {
        assert(cut[0] == length_prefixed(data)[0]);
        assert(cut[1] == length_prefixed(data)[1]);
    }
}

/// The byte decoder gives back the payload of an encoding, byte for byte.
pub proof fn lemma_encoded_bytes_decode(data: Seq<u8>)
    requires
        data.len() <= MAX_PAYLOAD_LEN,
    ensures
        bytes_outcome(length_prefixed(data)) == Status::Complete(data),
{
    lemma_length_prefixed_parts(data);
}

/// The string decoder accepts the encoding of every payload that is a
/// protocol string, and the text it gives is laid out as that very payload.
pub proof fn lemma_encoded_string_decodes(data: Seq<u8>)
    requires
        data.len() <= MAX_PAYLOAD_LEN,
        is_protocol_string(data),
    ensures
        string_outcome(length_prefixed(data)) == Ok::<Status<Seq<char>>, Error>(
            Status::Complete(decode_utf8(data)),
        ),
        encode_utf8(decode_utf8(data)) == data,
{
    lemma_length_prefixed_parts(data);
    decode_utf8_encode_utf8(data);
}

/// Round trip: a text without U+0000, encoded as UTF-8 behind a length
/// prefix, decodes to the same text.
pub proof fn lemma_string_round_trip(text: Seq<char>)
    requires
        !text.contains('\0'),
        encode_utf8(text).len() <= MAX_PAYLOAD_LEN,
    ensures
        string_outcome(length_prefixed(encode_utf8(text))) == Ok::<Status<Seq<char>>, Error>(
            Status::Complete(text),
        ),
{
    encode_utf8_valid_utf8(text);
    encode_utf8_decode_utf8(text);
    lemma_length_prefixed_parts(encode_utf8(text));
}

/// A payload that is all there and is not well-formed UTF-8 is an error,
/// never partial and never a value.
pub proof fn lemma_invalid_utf8_is_error(bytes: Seq<u8>)
    requires
        !is_partial(bytes),
        !valid_utf8(payload(bytes)),
    ensures
        string_outcome(bytes) == Err::<Status<Seq<char>>, Error>(Error::Utf8),
{
}

/// A payload that is all there and decodes to text with U+0000 in it,
/// wherever it stands, is an error.
pub proof fn lemma_nul_is_error(bytes: Seq<u8>, at: int)
    requires
        !is_partial(bytes),
        valid_utf8(payload(bytes)),
        0 <= at < decode_utf8(payload(bytes)).len(),
        decode_utf8(payload(bytes))[at] == '\0',
    ensures
        string_outcome(bytes) == Err::<Status<Seq<char>>, Error>(Error::Utf8),
{
}

/// Once a buffer holds a whole value, bytes that arrive after it change
/// nothing: an outcome that is not partial stays what it is.
pub proof fn lemma_decided_outcome_is_stable(bytes: Seq<u8>, more: Seq<u8>)
    requires
        !is_partial(bytes),
    ensures
        bytes_outcome(bytes + more) == bytes_outcome(bytes),
        string_outcome(bytes + more) == string_outcome(bytes),
{
    let longer = bytes + more;
    assert(longer[0] == bytes[0]);
    assert(longer[1] == bytes[1]);
    assert(payload(longer) =~= payload(bytes));
}

} // verus!
