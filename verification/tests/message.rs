use xim_protocol::message::{InvalidFormat, Message};
use xim_protocol::xproto::{ClientMessageData, ClientMessageEvent, GetPropertyReply};

/// A frame with the given major opcode and body: a four-byte header whose
/// length field, in this machine's byte order, counts the padded body in
/// four-byte units.
fn frame(major: u8, body: &[u8]) -> Vec<u8> {
    let padded = (body.len() + 3) / 4 * 4;
    let mut v = vec![major, 0];
    v.extend_from_slice(&((padded / 4) as u16).to_ne_bytes());
    v.extend_from_slice(body);
    v.resize(4 + padded, 0);
    v
}

fn with_frame(data: Vec<u8>) {
    let mut present_in_msg = None;

    // dummy values
    let protocol_atom = fastrand::u32(1..);
    let window = fastrand::u32(1..);
    let message_atom = fastrand::u32(1..);

    // create a new message
    let mut msg = Message::new(data.clone(), "atom_name".to_string(), protocol_atom, window);

    // pretend like we sent the configure requests if need be
    if msg.intern_atom().is_some() {
        let (gpr, cpr) = msg.use_atom(message_atom);

        // ensure properties re correct
        assert_eq!(gpr.property, message_atom);
        assert_eq!(cpr.property, message_atom);
        assert_eq!(cpr.format, 8);
        assert_eq!(cpr.data_len as usize, data.len());
        assert_eq!(cpr.data, data);

        // format as a GetPropertyReply for parsing later
        present_in_msg = Some(GetPropertyReply {
            format: 8,
            sequence: 0,
            length: cpr.data_len,
            type_: 31,
            bytes_after: 0,
            value_len: cpr.data_len,
            value: cpr.data,
        });
    }

    // convert to client message
    let msg = msg.into_client_message();

    assert_eq!(msg.type_, protocol_atom);
    assert_eq!(msg.window, window);
    if present_in_msg.is_none() {
        assert_eq!(msg.format, 8);
        assert_eq!(&msg.data.as_data8()[..data.len()], &data[..]);
    } else {
        assert_eq!(msg.format, 32);
        assert_eq!(msg.data.as_data32()[0], data.len() as u32);
        assert_eq!(msg.data.as_data32()[1], message_atom);
    }

    // convert back to message
    let (msg, gpr) = Message::from_client_message(msg).unwrap();
    let reply = gpr.and(present_in_msg);
    let parsed_data = msg.parse(reply);
    assert_eq!(data, parsed_data);
}

#[test]
fn message_ser_and_deser() {
    // large and small request
    let mut small = Vec::new();
    small.extend_from_slice(&fastrand::u16(1..).to_ne_bytes());
    small.extend_from_slice(&fastrand::u16(1..).to_ne_bytes());
    let small = frame(83, &small);

    let sarray = core::iter::repeat_with(|| fastrand::u8(1..))
        .take(100)
        .collect::<Vec<_>>();
    let mut open = vec![sarray.len() as u8];
    open.extend_from_slice(&sarray);
    let large = frame(30, &open);

    with_frame(small);
    with_frame(large);
}

fn event(format: u8, data: ClientMessageData) -> ClientMessageEvent {
    ClientMessageEvent {
        response_type: 33,
        format,
        sequence: 0,
        window: 7,
        type_: 9,
        data,
    }
}

#[test]
fn small_frame_travels_inline() {
    let data = frame(30, &[1, 2, 3, 4, 5, 6]);
    assert_eq!(data.len(), 12);
    let msg = Message::new(data.clone(), "name".to_string(), 5, 6);
    assert!(msg.intern_atom().is_none());
    let cme = msg.into_client_message();
    assert_eq!(cme.response_type, 33);
    assert_eq!(cme.format, 8);
    assert_eq!(cme.sequence, 0);
    let mut expected = [0u8; 20];
    expected[..12].copy_from_slice(&data);
    assert_eq!(cme.data.as_data8(), expected);
}

#[test]
fn large_frame_waits_for_atom() {
    let data = frame(30, &[7u8; 40]);
    let mut msg = Message::new(data.clone(), "my_property".to_string(), 5, 6);
    let req = msg.intern_atom().unwrap();
    assert!(!req.only_if_exists);
    assert_eq!(req.name, b"my_property".to_vec());
    let msg = match msg.try_into_client_message() {
        Ok(_) => panic!("a pending message cannot be sent"),
        Err(m) => m,
    };
    let mut msg = msg;
    let (gpr, cpr) = msg.use_atom(77);
    assert!(!gpr.delete);
    assert_eq!(gpr.window, 6);
    assert_eq!(gpr.type_, 31);
    assert_eq!(gpr.long_offset, 0);
    assert_eq!(gpr.long_length, 10000);
    assert_eq!(cpr.mode, 2);
    assert_eq!(cpr.window, 6);
    assert_eq!(cpr.type_, 31);
    assert_eq!(cpr.data_len, 44);
    assert!(msg.intern_atom().is_none());
    let cme = ClientMessageEvent::try_from(msg).unwrap();
    assert_eq!(cme.format, 32);
    assert_eq!(cme.data.as_data32(), [44, 77, 0, 0, 0]);
}

#[test]
fn invalid_format_is_rejected() {
    let cme = event(16, ClientMessageData::from_data8([0; 20]));
    match Message::from_client_message(cme) {
        Err(e) => assert_eq!(e, InvalidFormat(16)),
        Ok(_) => panic!("format 16 is not a message"),
    }
}

#[test]
fn format_32_asks_for_the_property() {
    let cme = event(32, ClientMessageData::from_data32([120, 99, 0, 0, 0]));
    let (_, gpr) = Message::from_client_message(cme).unwrap();
    let gpr = gpr.unwrap();
    assert!(gpr.delete);
    assert_eq!(gpr.window, 7);
    assert_eq!(gpr.property, 99);
    assert_eq!(gpr.type_, 0);
    assert_eq!(gpr.long_offset, 0);
    assert_eq!(gpr.long_length, 120);
}

#[test]
fn property_reply_is_cut_to_the_declared_length() {
    let data = frame(30, &[5u8; 24]);
    let mut value = data.clone();
    value.extend_from_slice(&[0xee; 12]);
    let cme = event(32, ClientMessageData::from_data32([data.len() as u32, 99, 0, 0, 0]));
    let (msg, _) = Message::from_client_message(cme).unwrap();
    let reply = GetPropertyReply {
        format: 8,
        sequence: 0,
        length: 0,
        type_: 31,
        bytes_after: 0,
        value_len: value.len() as u32,
        value,
    };
    assert_eq!(msg.parse(Some(reply)), data);
}

#[test]
fn property_reply_is_cut_to_its_own_length() {
    let data = frame(30, &[5u8; 24]);
    let cme = event(32, ClientMessageData::from_data32([data.len() as u32, 99, 0, 0, 0]));
    let (msg, _) = Message::from_client_message(cme).unwrap();
    // format 16 with value_len 5: ten bytes of the value count
    let reply = GetPropertyReply {
        format: 16,
        sequence: 0,
        length: 0,
        type_: 31,
        bytes_after: 0,
        value_len: 5,
        value: data.clone(),
    };
    assert_eq!(msg.parse(Some(reply)), data[..10].to_vec());
}

#[test]
fn client_message_data_words_round_trip() {
    let words = [1, 0xdead_beef, 3, 0x0102_0304, u32::MAX];
    let data = ClientMessageData::from_data32(words);
    assert_eq!(data.as_data32(), words);
    let bytes = data.as_data8();
    assert_eq!(&bytes[4..8], &0xdead_beefu32.to_ne_bytes());
}

#[test]
fn can_parse_checks_the_declared_length() {
    // an inline frame that declares 24 bytes cannot fit in the event
    let mut data = [0u8; 20];
    data[2..4].copy_from_slice(&5u16.to_ne_bytes());
    let (msg, _) = Message::from_client_message(event(8, ClientMessageData::from_data8(data))).unwrap();
    assert!(!msg.can_parse(None));
    data[2..4].copy_from_slice(&4u16.to_ne_bytes());
    let (msg, _) = Message::from_client_message(event(8, ClientMessageData::from_data8(data))).unwrap();
    assert!(msg.can_parse(None));
    assert_eq!(msg.parse(None), data.to_vec());

    let short = GetPropertyReply {
        format: 8,
        sequence: 0,
        length: 0,
        type_: 31,
        bytes_after: 0,
        value_len: 3,
        value: vec![1, 2, 3],
    };
    let (msg, _) = Message::from_client_message(event(32, ClientMessageData::from_data32([3, 1, 0, 0, 0]))).unwrap();
    assert!(!msg.can_parse(Some(&short)));
}
