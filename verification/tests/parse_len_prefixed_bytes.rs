use std::io::{Cursor, Write};

use byteorder::{BigEndian, ByteOrder, WriteBytesExt};
use mqtt_wire::{parse_len_prefixed_bytes, parse_string, Error, Status};

fn encode(payload: &[u8]) -> Vec<u8> {
    let mut buf = Cursor::new(Vec::new());
    buf.write_u16::<BigEndian>(payload.len() as u16).unwrap();
    buf.write(payload).unwrap();
    buf.into_inner()
}

#[test]
fn lib_small_buffer() {
    assert_eq!(Status::Partial, parse_len_prefixed_bytes(&[]).unwrap());
    assert_eq!(Status::Partial, parse_len_prefixed_bytes(&[0]).unwrap());

    let mut buf = [0u8; 2];
    BigEndian::write_u16(&mut buf, 16);
    assert_eq!(Status::Partial, parse_len_prefixed_bytes(&buf).unwrap());
}

#[test]
fn empty_bytes() {
    let buf = [0u8; 2];
    assert_eq!(
        Status::Complete(&buf[0..0]),
        parse_len_prefixed_bytes(&buf).unwrap()
    );
}

#[test]
fn parse_bytes() {
    let inp = "don't panic!".as_bytes();
    let mut buf = Cursor::new(Vec::new());
    buf.write_u16::<BigEndian>(inp.len() as u16).unwrap();
    buf.write(inp).unwrap();
    assert_eq!(
        Status::Complete(inp),
        parse_len_prefixed_bytes(buf.get_ref().as_ref()).unwrap()
    );
}

#[test]
fn bytes_claims_sixteen_has_fourteen() {
    let mut buf = vec![0u8, 16];
    buf.extend_from_slice(b"fourteen bytes");
    assert_eq!(16, buf.len());
    assert_eq!(Ok(Status::Partial), parse_len_prefixed_bytes(&buf));
}

#[test]
fn bytes_that_are_no_text() {
    let inp = [0u8, 159, 146, 150];
    let buf = encode(&inp);
    assert_eq!(Ok(Status::Complete(&inp[..])), parse_len_prefixed_bytes(&buf));
    assert_eq!(Err(Error::Utf8), parse_string(&buf));
}

#[test]
fn bytes_one_byte_short_is_partial() {
    let inp = [9u8, 0, 255, 3, 0];
    let full = encode(&inp);
    for n in 0..full.len() {
        assert_eq!(
            Ok(Status::Partial),
            parse_len_prefixed_bytes(&full[..n]),
            "prefix of {} bytes",
            n
        );
    }
    assert_eq!(Ok(Status::Complete(&inp[..])), parse_len_prefixed_bytes(&full));
}

#[test]
fn bytes_prefix_is_read_high_byte_first() {
    let payload = vec![7u8; 258];
    let mut buf = vec![1u8, 2];
    buf.extend_from_slice(&payload);
    assert_eq!(Ok(Status::Complete(&payload[..])), parse_len_prefixed_bytes(&buf));

    let mut swapped = vec![2u8, 1];
    swapped.extend_from_slice(&payload);
    assert_eq!(Ok(Status::Partial), parse_len_prefixed_bytes(&swapped));

    // 0x0100 announces 256 bytes, 0x0001 one byte.
    let mut buf = vec![1u8, 0];
    buf.extend_from_slice(&payload);
    assert_eq!(Ok(Status::Complete(&payload[..256])), parse_len_prefixed_bytes(&buf));
    let mut buf = vec![0u8, 1];
    buf.extend_from_slice(&payload);
    assert_eq!(Ok(Status::Complete(&payload[..1])), parse_len_prefixed_bytes(&buf));
}

#[test]
fn bytes_ignores_what_follows_the_payload() {
    let mut buf = encode(&[1, 2, 3]);
    buf.extend_from_slice(&[4, 5]);
    assert_eq!(Ok(Status::Complete(&[1u8, 2, 3][..])), parse_len_prefixed_bytes(&buf));
}

#[test]
fn bytes_outcome_is_kept_when_more_bytes_arrive() {
    let whole = encode(&[1, 2, 3]);
    let mut longer = whole.clone();
    for extra in [0u8, 9, 255, 0] {
        longer.push(extra);
        assert_eq!(parse_len_prefixed_bytes(&whole), parse_len_prefixed_bytes(&longer));
    }
}

#[test]
fn bytes_are_borrowed_from_the_buffer() {
    let buf = encode(&[1, 2, 3]);
    match parse_len_prefixed_bytes(&buf) {
        Ok(Status::Complete(payload)) => {
            assert_eq!(buf[2..].as_ptr(), payload.as_ptr());
            assert_eq!(buf.len(), 2 + payload.len());
        }
        other => panic!("unexpected outcome {:?}", other),
    }
}

#[test]
fn bytes_longest_payload() {
    let payload = vec![0xa5u8; 65535];
    let mut buf = vec![0xffu8, 0xff];
    buf.extend_from_slice(&payload);
    assert_eq!(65537, buf.len());
    assert_eq!(Ok(Status::Complete(&payload[..])), parse_len_prefixed_bytes(&buf));
    assert_eq!(Ok(Status::Partial), parse_len_prefixed_bytes(&buf[..65536]));

    let payload = vec![0xa5u8; 65534];
    let mut buf = vec![0xffu8, 0xfe];
    buf.extend_from_slice(&payload);
    assert_eq!(Ok(Status::Complete(&payload[..])), parse_len_prefixed_bytes(&buf));
}

#[test]
fn bytes_never_fail() {
    for first in [0u8, 1, 127, 128, 255] {
        for second in [0u8, 1, 127, 128, 255] {
            let mut buf = vec![first, second];
            buf.extend_from_slice(&[0xffu8; 300]);
            assert!(parse_len_prefixed_bytes(&buf).is_ok());
            assert!(parse_len_prefixed_bytes(&buf[..2]).is_ok());
        }
    }
}
