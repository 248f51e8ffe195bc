use terralink::proto::{ByteCursor, Packet, ProtocolError};

fn written<T: Packet>(value: &T) -> Vec<u8> {
    let mut buf = Vec::new();
    assert_eq!(value.write(&mut buf), Ok(()));
    buf
}

fn read_back<T: Packet>(bytes: Vec<u8>) -> (Result<T, ProtocolError>, usize) {
    let mut cursor = ByteCursor::new(bytes);
    let result = T::read(&mut cursor);
    (result, cursor.position())
}

#[test]
fn u8_is_one_byte() {
    assert_eq!(written(&0u8), vec![0x00]);
    assert_eq!(written(&0xabu8), vec![0xab]);
    assert_eq!(read_back::<u8>(vec![0xff]), (Ok(u8::MAX), 1));
    assert_eq!(read_back::<u8>(vec![0x00, 0x07]), (Ok(u8::MIN), 1));
}

#[test]
fn u16_is_big_endian() {
    assert_eq!(written(&0x1234u16), vec![0x12, 0x34]);
    assert_eq!(read_back::<u16>(vec![0x12, 0x34]), (Ok(0x1234), 2));
    assert_eq!(read_back::<u16>(written(&u16::MAX)), (Ok(u16::MAX), 2));
    assert_eq!(read_back::<u16>(written(&u16::MIN)), (Ok(u16::MIN), 2));
}

#[test]
fn u32_is_big_endian() {
    assert_eq!(written(&0x0102_0304u32), vec![1, 2, 3, 4]);
    assert_eq!(read_back::<u32>(vec![0xde, 0xad, 0xbe, 0xef]), (Ok(0xdead_beef), 4));
    assert_eq!(read_back::<u32>(written(&u32::MAX)), (Ok(u32::MAX), 4));
    assert_eq!(read_back::<u32>(written(&0u32)), (Ok(0), 4));
}

#[test]
fn u64_is_big_endian() {
    assert_eq!(written(&0x0102_0304_0506_0708u64), vec![1, 2, 3, 4, 5, 6, 7, 8]);
    assert_eq!(written(&u64::MAX), vec![0xff; 8]);
    assert_eq!(read_back::<u64>(written(&u64::MAX)), (Ok(u64::MAX), 8));
    assert_eq!(read_back::<u64>(written(&0u64)), (Ok(0), 8));
    assert_eq!(read_back::<u64>(written(&0x8000_0000_0000_0000u64)), (Ok(1u64 << 63), 8));
}

#[test]
fn i8_is_twos_complement() {
    assert_eq!(written(&-1i8), vec![0xff]);
    assert_eq!(written(&i8::MIN), vec![0x80]);
    assert_eq!(written(&i8::MAX), vec![0x7f]);
    assert_eq!(read_back::<i8>(vec![0x80]), (Ok(i8::MIN), 1));
    assert_eq!(read_back::<i8>(vec![0x7f]), (Ok(i8::MAX), 1));
    assert_eq!(read_back::<i8>(vec![0xff]), (Ok(-1), 1));
}

#[test]
fn i16_is_twos_complement() {
    assert_eq!(written(&-2i16), vec![0xff, 0xfe]);
    assert_eq!(written(&i16::MIN), vec![0x80, 0x00]);
    assert_eq!(read_back::<i16>(written(&i16::MIN)), (Ok(i16::MIN), 2));
    assert_eq!(read_back::<i16>(written(&i16::MAX)), (Ok(i16::MAX), 2));
    assert_eq!(read_back::<i16>(written(&0i16)), (Ok(0), 2));
}

#[test]
fn i32_is_twos_complement() {
    assert_eq!(written(&1i32), vec![0, 0, 0, 1]);
    assert_eq!(written(&-1i32), vec![0xff, 0xff, 0xff, 0xff]);
    assert_eq!(written(&i32::MIN), vec![0x80, 0, 0, 0]);
    assert_eq!(written(&i32::MAX), vec![0x7f, 0xff, 0xff, 0xff]);
    assert_eq!(read_back::<i32>(written(&i32::MIN)), (Ok(i32::MIN), 4));
    assert_eq!(read_back::<i32>(written(&i32::MAX)), (Ok(i32::MAX), 4));
    assert_eq!(read_back::<i32>(vec![0xff, 0xff, 0xff, 0x85]), (Ok(-123), 4));
}

#[test]
fn i64_is_twos_complement() {
    assert_eq!(written(&-1i64), vec![0xff; 8]);
    assert_eq!(written(&i64::MIN), vec![0x80, 0, 0, 0, 0, 0, 0, 0]);
    assert_eq!(read_back::<i64>(written(&i64::MIN)), (Ok(i64::MIN), 8));
    assert_eq!(read_back::<i64>(written(&i64::MAX)), (Ok(i64::MAX), 8));
    assert_eq!(read_back::<i64>(written(&-9_000_000_000i64)), (Ok(-9_000_000_000), 8));
}

#[test]
fn bool_writes_one_and_zero() {
    assert_eq!(written(&true), vec![0x01]);
    assert_eq!(written(&false), vec![0x00]);
}

#[test]
fn bool_reads_only_one_as_true() {
    assert_eq!(read_back::<bool>(vec![0x01]), (Ok(true), 1));
    assert_eq!(read_back::<bool>(vec![0x00]), (Ok(false), 1));
    assert_eq!(read_back::<bool>(vec![0x02]), (Ok(false), 1));
    assert_eq!(read_back::<bool>(vec![0xff]), (Ok(false), 1));
}

#[test]
fn truncated_integer_is_malformed_and_consumes_the_rest() {
    assert_eq!(read_back::<u8>(vec![]), (Err(ProtocolError::MalformedField), 0));
    assert_eq!(read_back::<u16>(vec![0x01]), (Err(ProtocolError::MalformedField), 1));
    assert_eq!(read_back::<i32>(vec![1, 2, 3]), (Err(ProtocolError::MalformedField), 3));
    assert_eq!(read_back::<u64>(vec![1, 2, 3, 4, 5, 6, 7]), (Err(ProtocolError::MalformedField), 7));
    assert_eq!(read_back::<bool>(vec![]), (Err(ProtocolError::MalformedField), 0));
}

#[test]
fn values_are_read_one_after_the_other() {
    let mut buf = Vec::new();
    0x0102u16.write(&mut buf).unwrap();
    (-5i32).write(&mut buf).unwrap();
    true.write(&mut buf).unwrap();
    assert_eq!(buf, vec![0x01, 0x02, 0xff, 0xff, 0xff, 0xfb, 0x01]);
    let mut cursor = ByteCursor::new(buf);
    assert_eq!(u16::read(&mut cursor), Ok(0x0102));
    assert_eq!(cursor.position(), 2);
    assert_eq!(i32::read(&mut cursor), Ok(-5));
    assert_eq!(cursor.position(), 6);
    assert_eq!(bool::read(&mut cursor), Ok(true));
    assert_eq!(cursor.remaining_len(), 0);
    assert_eq!(u8::read(&mut cursor), Err(ProtocolError::MalformedField));
}

#[test]
fn write_appends_to_what_the_buffer_holds() {
    let mut buf = vec![0xaa, 0xbb];
    0x0304u16.write(&mut buf).unwrap();
    assert_eq!(buf, vec![0xaa, 0xbb, 0x03, 0x04]);
}

#[test]
fn cursor_gives_its_buffer_back() {
    let mut cursor = ByteCursor::new(vec![9, 8, 7]);
    assert_eq!(cursor.next_byte(), Some(9));
    assert_eq!(cursor.take(2), Some(vec![8, 7]));
    assert_eq!(cursor.next_byte(), None);
    assert_eq!(cursor.into_inner(), vec![9, 8, 7]);
}

#[test]
fn cursor_take_past_the_end_consumes_everything() {
    let mut cursor = ByteCursor::new(vec![1, 2, 3]);
    assert_eq!(cursor.take(4), None);
    assert_eq!(cursor.position(), 3);
    assert_eq!(cursor.remaining_len(), 0);
    let mut empty = ByteCursor::new(vec![1]);
    assert_eq!(empty.take(0), Some(vec![]));
    assert_eq!(empty.position(), 0);
}
