//! The two decoders.

use vstd::prelude::*;
use vstd::string::StringSliceAdditionalSpecFns;
use vstd::utf8::encode_utf8_decode_utf8;

use crate::error::Error;
use crate::status::Status;
use crate::trusted::read_u16_be;
use crate::wire::{bytes_outcome, payload, string_outcome};

verus! {

/// Tells whether the code point U+0000 occurs in `text`.
fn contains_nul(text: &str) -> (found: bool)
    ensures
        found == text@.contains('\0'),
{
    for ch in it: text.chars()
        invariant
            it.seq() == text@,
            forall|j: int| 0 <= j < it.index() ==> text@[j] != '\0',
    {
        if ch == '\0' {
            return true;
        }
    }
    false
}

/// Decodes a two-byte length and the string that it announces.
///
/// The payload must be well-formed UTF-8 and free of U+0000; it is then
/// handed out as a `str` over the same bytes of `bytes`, nothing stripped.
/// The value took up `2 + text.len()` bytes of the buffer.
pub fn parse_string(bytes: &[u8]) -> (res: Result<Status<&str>, Error>)
    ensures
        match res {
            Ok(status) => string_outcome(bytes@) == Ok::<Status<Seq<char>>, Error>(status@),
            Err(e) => string_outcome(bytes@) == Err::<Status<Seq<char>>, Error>(e),
        },
        res matches Ok(Status::Complete(text)) ==> text.spec_bytes() == payload(bytes@),
{
    if bytes.len() < 2 {
        return Ok(Status::Partial);
    }
    let len: usize = read_u16_be(bytes) as usize;
    if bytes.len() - 2 < len {
        return Ok(Status::Partial);
    }
    match core::str::from_utf8(&bytes[2..len + 2]) {
        Ok(text) => {
            proof {
                encode_utf8_decode_utf8(text@);
            }
            if contains_nul(text) {
                Err(Error::Utf8)
            } else {
                Ok(Status::Complete(text))
            }
        },
        Err(_) => Err(Error::Utf8),
    }
}

/// Decodes a two-byte length and the raw payload that it announces.
///
/// Never fails: the payload is handed out as it stands, as a sub-slice of
/// `bytes`. The value took up two bytes more than that slice holds.
pub fn parse_len_prefixed_bytes(bytes: &[u8]) -> (res: Result<Status<&[u8]>, Error>)
    ensures
        res matches Ok(status) && status@ == bytes_outcome(bytes@),
{
    if bytes.len() < 2 {
        return Ok(Status::Partial);
    }
    let len: usize = read_u16_be(bytes) as usize;
    if bytes.len() - 2 < len {
        return Ok(Status::Partial);
    }
    Ok(Status::Complete(&bytes[2..len + 2]))
}

} // verus!
