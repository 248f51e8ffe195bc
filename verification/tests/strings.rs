use terralink::proto::text::MAX_STR_LEN;
use terralink::proto::{ByteCursor, Packet, ProtocolError};

fn read_string(bytes: Vec<u8>) -> (Result<String, ProtocolError>, usize) {
    let mut cursor = ByteCursor::new(bytes);
    let result = String::read(&mut cursor);
    (result, cursor.position())
}

#[test]
fn the_longest_string_has_32767_bytes() {
    assert_eq!(MAX_STR_LEN, 32767);
}

#[test]
fn string_is_length_then_utf8() {
    let mut buf = Vec::new();
    assert_eq!("abc".to_string().write(&mut buf), Ok(()));
    assert_eq!(buf, vec![0, 0, 0, 3, b'a', b'b', b'c']);
    assert_eq!(read_string(buf), (Ok("abc".to_string()), 7));
}

#[test]
fn empty_string_round_trips() {
    let mut buf = Vec::new();
    assert_eq!(String::new().write(&mut buf), Ok(()));
    assert_eq!(buf, vec![0, 0, 0, 0]);
    assert_eq!(read_string(buf), (Ok(String::new()), 4));
}

#[test]
fn string_length_counts_bytes_not_characters() {
    let text = "h\u{e9}llo \u{2713} \u{1f600}".to_string();
    let mut buf = Vec::new();
    assert_eq!(text.write(&mut buf), Ok(()));
    assert_eq!(&buf[..4], &[0, 0, 0, text.len() as u8]);
    assert_eq!(&buf[4..], text.as_bytes());
    assert_eq!(read_string(buf), (Ok(text.clone()), 4 + text.len()));
}

#[test]
fn longest_string_round_trips() {
    let text = "x".repeat(32767);
    let mut buf = Vec::new();
    assert_eq!(text.write(&mut buf), Ok(()));
    assert_eq!(buf.len(), 4 + 32767);
    assert_eq!(&buf[..4], &[0x00, 0x00, 0x7f, 0xff]);
    assert_eq!(read_string(buf), (Ok(text), 4 + 32767));
}

#[test]
fn longest_string_of_wide_characters_round_trips() {
    let mut text = "\u{20ac}".repeat(10922);
    text.push('!');
    assert_eq!(text.len(), 32767);
    let mut buf = Vec::new();
    assert_eq!(text.write(&mut buf), Ok(()));
    assert_eq!(read_string(buf), (Ok(text), 4 + 32767));
}

#[test]
fn too_long_string_is_not_written() {
    let text = "x".repeat(32768);
    let mut buf = vec![7];
    assert_eq!(text.write(&mut buf), Err(ProtocolError::OversizedString));
    assert_eq!(buf, vec![7]);
}

#[test]
fn declared_length_over_the_limit_is_oversized_and_only_the_length_is_consumed() {
    let mut bytes = vec![0x00, 0x00, 0x80, 0x00];
    bytes.extend(vec![b'x'; 40000]);
    assert_eq!(read_string(bytes), (Err(ProtocolError::OversizedString), 4));
    assert_eq!(
        read_string(vec![0x7f, 0xff, 0xff, 0xff, 1, 2, 3]),
        (Err(ProtocolError::OversizedString), 4)
    );
}

#[test]
fn negative_declared_length_is_oversized() {
    assert_eq!(
        read_string(vec![0xff, 0xff, 0xff, 0xff, b'a']),
        (Err(ProtocolError::OversizedString), 4)
    );
    assert_eq!(
        read_string(vec![0x80, 0x00, 0x00, 0x00]),
        (Err(ProtocolError::OversizedString), 4)
    );
}

#[test]
fn invalid_utf8_is_refused_after_the_text_is_consumed() {
    assert_eq!(
        read_string(vec![0, 0, 0, 2, 0xc3, 0x28, 0x55]),
        (Err(ProtocolError::InvalidUtf8), 6)
    );
    assert_eq!(read_string(vec![0, 0, 0, 1, 0xff]), (Err(ProtocolError::InvalidUtf8), 5));
    // An overlong encoding and a surrogate are no UTF-8 either.
    assert_eq!(read_string(vec![0, 0, 0, 2, 0xc0, 0x80]), (Err(ProtocolError::InvalidUtf8), 6));
    assert_eq!(
        read_string(vec![0, 0, 0, 3, 0xed, 0xa0, 0x80]),
        (Err(ProtocolError::InvalidUtf8), 7)
    );
}

#[test]
fn string_cut_short_is_malformed() {
    assert_eq!(read_string(vec![0, 0, 0, 5, b'a', b'b']), (Err(ProtocolError::MalformedField), 6));
    assert_eq!(read_string(vec![0, 0]), (Err(ProtocolError::MalformedField), 2));
    assert_eq!(read_string(vec![]), (Err(ProtocolError::MalformedField), 0));
}

#[test]
fn string_leaves_what_follows_it() {
    let mut cursor = ByteCursor::new(vec![0, 0, 0, 2, b'o', b'k', 0xaa, 0xbb]);
    assert_eq!(String::read(&mut cursor), Ok("ok".to_string()));
    assert_eq!(cursor.position(), 6);
    assert_eq!(cursor.remaining_len(), 2);
}

#[test]
fn protocol_errors_have_messages() {
    assert_eq!(ProtocolError::UnknownOpcode(9).message(), "Invalid packet ID!");
    assert_eq!(ProtocolError::OversizedString.message(), "String buffer overflow!");
    assert_eq!(ProtocolError::InvalidUtf8.message(), "Invalid UTF-8!");
    assert_eq!(ProtocolError::MalformedField.message(), "Unexpected end of packet!");
}
