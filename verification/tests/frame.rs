use xim_protocol::frame::Frame;
use xim_protocol::protocol::byte_order;

#[test]
fn words_round_trip_through_bytes() {
    let bytes = 0xbeefu16.into_bytes();
    assert_eq!(bytes, 0xbeefu16.to_ne_bytes().to_vec());
    let mut input = bytes.clone();
    input.extend_from_slice(&[9, 8, 7]);
    let (v, rem) = u16::parse(&input).unwrap();
    assert_eq!(v, 0xbeef);
    assert_eq!(rem, &[9, 8, 7]);

    let bytes = 0x0102_0304u32.into_bytes();
    assert_eq!(bytes, 0x0102_0304u32.to_ne_bytes().to_vec());
    let (v, rem) = u32::parse(&bytes).unwrap();
    assert_eq!(v, 0x0102_0304);
    assert!(rem.is_empty());

    let (v, rem) = u8::parse(&[42, 1]).unwrap();
    assert_eq!(v, 42);
    assert_eq!(rem, &[1]);
    assert_eq!(42u8.into_bytes(), vec![42]);
}

#[test]
fn short_input_is_a_parse_error() {
    let e = u32::parse(&[1, 2, 3]).unwrap_err();
    assert_eq!(e.expected, 4);
    assert_eq!(e.got, 3);
    let e = u16::parse(&[]).unwrap_err();
    assert_eq!(e.expected, 2);
    assert_eq!(e.got, 0);
    let e = u8::parse(&[]).unwrap_err();
    assert_eq!(e.expected, 1);
    assert_eq!(e.got, 0);
}

#[test]
fn serialize_writes_only_the_front() {
    let mut target = [0xaau8; 6];
    assert_eq!(0x1122u16.size(), 2);
    assert_eq!(0x1122u16.serialize(&mut target), 2);
    assert_eq!(&target[..2], &0x1122u16.to_ne_bytes());
    assert_eq!(&target[2..], &[0xaa; 4]);
}

#[test]
fn byte_order_mark_matches_the_machine() {
    let little = u16::from_ne_bytes([1, 0]) == 1;
    assert_eq!(byte_order(), if little { b'l' } else { b'B' });
}
