use xim_protocol::connection::{
    Address, BadProtocol, Completion, ConnectError, Event, Protocol, ServerCheckDirective,
    StageCheckServers, XimBuilder,
};
use xim_protocol::protocol::{ConnectReplyFr, OpenReplyFr, XimFrame};
use xim_protocol::xproto::{
    ClientMessageData, ClientMessageEvent, GetAtomNameReply, GetPropertyReply,
    GetSelectionOwnerReply, Screen, SelectionNotifyEvent, Setup,
};

#[test]
fn protocol_names_ignore_ascii_case() {
    assert_eq!("x".parse::<Protocol>().unwrap(), Protocol::X11);
    assert_eq!("X".parse::<Protocol>().unwrap(), Protocol::X11);
    assert_eq!("tCp".parse::<Protocol>().unwrap(), Protocol::Tcp);
    assert_eq!("local".parse::<Protocol>().unwrap(), Protocol::Local);
    assert_eq!("DECnet".parse::<Protocol>().unwrap(), Protocol::Decnet);
    assert!("tcp ".parse::<Protocol>().is_err());
    assert!("".parse::<Protocol>().is_err());
    assert!("unix".parse::<Protocol>().is_err());
    assert_eq!(Protocol::from_name(b"LoCaL"), Ok(Protocol::Local));
    assert_eq!(Protocol::from_name(b"DECNE"), Err(BadProtocol));
}

#[test]
fn address_new_keeps_its_parts() {
    let a = Address::new(Protocol::Tcp, b"localhost:9".to_vec());
    let b = Address::new(Protocol::Tcp, b"localhost:9".to_vec());
    assert_eq!(a, b);
    assert_eq!(a.duplicate(), a);
    assert_ne!(a, Address::new(Protocol::Local, b"localhost:9".to_vec()));
}

fn setup() -> Setup {
    Setup {
        roots: vec![
            Screen { root: 100, root_visual: 200 },
            Screen { root: 101, root_visual: 201 },
        ],
    }
}

/// The atoms of the handshake: servers 10, locales 11, transport 12,
/// protocol 13, xconnect 14.
fn builder() -> XimBuilder {
    let mut b = XimBuilder::new(1, &setup(), "@server=ibus".to_string());
    let reqs = b.intern_atom_requests();
    let names: Vec<Vec<u8>> = reqs.iter().map(|(_, r)| r.name.clone()).collect();
    assert_eq!(
        names,
        vec![
            b"XIM_SERVERS".to_vec(),
            b"LOCALES".to_vec(),
            b"TRANSPORT".to_vec(),
            b"_XIM_PROTOCOL".to_vec(),
            b"_XIM_XCONNECT".to_vec(),
        ]
    );
    for (i, (k, r)) in reqs.iter().enumerate() {
        assert_eq!(i, *k);
        assert!(!r.only_if_exists);
    }
    for i in 0..5 {
        b.use_atom(i, 10 + i as u32);
    }
    assert!(b.intern_atom_requests().is_empty());
    assert_eq!(b.change_event_mask(), 1 << 22);
    b
}

fn servers_reply(servers: &[u32]) -> GetPropertyReply {
    let mut value = Vec::new();
    for s in servers {
        value.extend_from_slice(&s.to_ne_bytes());
    }
    GetPropertyReply {
        format: 32,
        sequence: 0,
        length: servers.len() as u32,
        type_: 4,
        bytes_after: 0,
        value_len: servers.len() as u32,
        value,
    }
}

fn check(servers: &[u32]) -> StageCheckServers {
    let (stage, req) = builder().next_stage();
    assert!(!req.delete);
    assert_eq!(req.window, 101);
    assert_eq!(req.property, 10);
    assert_eq!(req.type_, 4);
    assert_eq!(req.long_offset, 0);
    assert_eq!(req.long_length, 10000);
    match stage.retrieved_servers(servers_reply(servers)) {
        Ok(s) => s,
        Err(_) => panic!("the servers are atoms"),
    }
}

fn atom_check(s: &mut StageCheckServers, owner: u32, name: &[u8]) {
    let r = s.complete(Completion::AtomCheck(
        GetSelectionOwnerReply { sequence: 0, length: 0, owner },
        GetAtomNameReply { sequence: 0, length: 0, name: name.to_vec() },
    ));
    assert!(r.is_ok());
}

fn transport_reply(value: &[u8]) -> GetPropertyReply {
    GetPropertyReply {
        format: 8,
        sequence: 0,
        length: 0,
        type_: 12,
        bytes_after: 0,
        value_len: value.len() as u32,
        value: value.to_vec(),
    }
}

fn notify(requestor: u32, selection: u32) -> SelectionNotifyEvent {
    SelectionNotifyEvent {
        response_type: 31,
        sequence: 0,
        time: 0,
        requestor,
        selection,
        target: 12,
        property: 12,
    }
}

/// Drive the check of server `500` up to the request for its transport.
fn up_to_transport() -> StageCheckServers {
    let mut s = check(&[500]);
    match s.next_directive() {
        Some(ServerCheckDirective::FetchAtomInfo(gso, gan)) => {
            assert_eq!(gso.selection, 500);
            assert_eq!(gan.atom, 500);
        }
        _ => panic!("expected FetchAtomInfo"),
    }
    atom_check(&mut s, 300, b"@server=ibus");
    assert!(matches!(s.next_directive(), Some(ServerCheckDirective::GenerateXid)));
    assert!(s.complete(Completion::XidGenerated(400)).is_ok());
    match s.next_directive() {
        Some(ServerCheckDirective::CreateWindow(cw)) => {
            assert_eq!(cw.wid, 400);
            assert_eq!(cw.parent, 101);
            assert_eq!(cw.visual, 201);
            assert_eq!((cw.depth, cw.x, cw.y, cw.width, cw.height, cw.border_width), (0, 0, 0, 1, 1, 1));
            assert_eq!(cw.class, 1);
        }
        _ => panic!("expected CreateWindow"),
    }
    assert!(s.complete(Completion::RequestCompleted).is_ok());
    match s.next_directive() {
        Some(ServerCheckDirective::ConvertSelection(cs)) => {
            assert_eq!(cs.requestor, 400);
            assert_eq!(cs.selection, 500);
            assert_eq!(cs.target, 12);
            assert_eq!(cs.property, 12);
            assert_eq!(cs.time, 0);
        }
        _ => panic!("expected ConvertSelection"),
    }
    assert!(s.complete(Completion::RequestCompleted).is_ok());
    assert!(matches!(s.next_directive(), Some(ServerCheckDirective::GetSelectionNotify)));
    // a notification for another window comes back
    match s.complete(Completion::SelectionNotifyEvent(notify(401, 500))) {
        Err(Event::SelectionNotify(n)) => assert_eq!(n.requestor, 401),
        _ => panic!("the notification is not ours"),
    }
    assert!(s.complete(Completion::SelectionNotifyEvent(notify(400, 500))).is_ok());
    match s.next_directive() {
        Some(ServerCheckDirective::GetProperty(gp)) => {
            assert!(gp.delete);
            assert_eq!(gp.window, 400);
            assert_eq!(gp.property, 12);
            assert_eq!(gp.type_, 12);
            assert_eq!(gp.long_length, 10000);
        }
        _ => panic!("expected GetProperty"),
    }
    s
}

#[test]
fn handshake_builds_a_connection() {
    let mut s = up_to_transport();
    assert!(s.complete(Completion::Property(transport_reply(b"tcp/localhost:9,rest"))).is_ok());
    match s.next_directive() {
        Some(ServerCheckDirective::DeleteWindow(dw)) => assert_eq!(dw.window, 400),
        _ => panic!("expected DeleteWindow"),
    }
    assert!(s.complete(Completion::RequestCompleted).is_ok());
    assert!(matches!(s.next_directive(), Some(ServerCheckDirective::GenerateXid)));
    // the directive stays the same until it is completed
    assert!(matches!(s.next_directive(), Some(ServerCheckDirective::GenerateXid)));
    assert!(s.complete(Completion::XidGenerated(600)).is_ok());
    match s.next_directive() {
        Some(ServerCheckDirective::CreateWindow(cw)) => {
            assert_eq!(cw.wid, 600);
            assert_eq!(cw.parent, 101);
            assert_eq!(cw.visual, 201);
        }
        _ => panic!("expected CreateWindow for the client window"),
    }
    assert!(s.complete(Completion::RequestCompleted).is_ok());
    match s.next_directive() {
        Some(ServerCheckDirective::SendEvent(se)) => {
            assert!(!se.propagate);
            assert_eq!(se.destination, 300);
            assert_eq!(se.event_mask, 0);
            assert_eq!(se.event.response_type, 33);
            assert_eq!(se.event.format, 32);
            assert_eq!(se.event.sequence, 0);
            assert_eq!(se.event.type_, 14);
            assert_eq!(se.event.window, 300);
            assert_eq!(se.event.data.as_data32(), [600, 0, 0, 0, 0]);
        }
        _ => panic!("expected SendEvent"),
    }
    assert!(s.complete(Completion::RequestCompleted).is_ok());
    assert!(matches!(s.next_directive(), Some(ServerCheckDirective::GetClientMessage)));
    // a client message of another type comes back
    let other = ClientMessageEvent {
        response_type: 33,
        format: 32,
        sequence: 0,
        window: 600,
        type_: 13,
        data: ClientMessageData::from_data32([700, 0, 0, 0, 0]),
    };
    assert!(matches!(s.complete(Completion::ClientMessageEvent(other)), Err(Event::ClientMessage(_))));
    let ours = ClientMessageEvent { type_: 14, ..other };
    assert!(s.complete(Completion::ClientMessageEvent(ours)).is_ok());
    match s.next_directive() {
        Some(ServerCheckDirective::Connect(a)) => {
            assert_eq!(a, Address::new(Protocol::Tcp, b"localhost:9".to_vec()))
        }
        _ => panic!("expected Connect"),
    }
    s.complete_establish();
    let little = u16::from_ne_bytes([1, 0]) == 1;
    match s.next_directive() {
        Some(ServerCheckDirective::SendFrame { frame: XimFrame::ConnectFr(f), window, protocol_atom, sequence }) => {
            assert_eq!(f.byte_order, if little { b'l' } else { b'B' });
            assert_eq!(f.client_major_protocol_version, 0);
            assert_eq!(f.client_minor_protocol_version, 0);
            assert!(f.client_auth_protocol_names.is_empty());
            assert_eq!(window, 700);
            assert_eq!(protocol_atom, 13);
            assert_eq!(sequence, 0);
        }
        _ => panic!("expected the connect frame"),
    }
    assert!(s.complete(Completion::RequestCompleted).is_ok());
    assert!(matches!(s.next_directive(), Some(ServerCheckDirective::RecvFrame)));
    assert!(s
        .complete(Completion::ConnectReply(ConnectReplyFr {
            server_major_protocol_version: 1,
            server_minor_protocol_version: 0,
        }))
        .is_ok());
    match s.next_directive() {
        Some(ServerCheckDirective::SendFrame { frame: XimFrame::OpenFr(f), window, protocol_atom, sequence }) => {
            assert!(f.field1.string.is_empty());
            assert_eq!(window, 700);
            assert_eq!(protocol_atom, 13);
            assert_eq!(sequence, 1);
        }
        _ => panic!("expected the open frame"),
    }
    assert!(s.complete(Completion::RequestCompleted).is_ok());
    assert!(matches!(s.next_directive(), Some(ServerCheckDirective::RecvFrame)));
    assert!(s.complete(Completion::OpenReply(OpenReplyFr { input_method_id: 3 })).is_ok());
    assert!(s.next_directive().is_none());
    assert!(s.build().is_ok());
}

#[test]
fn connection_is_built_after_an_earlier_server_failed() {
    let mut s = check(&[499, 500]);
    assert!(s.next_directive().is_some());
    atom_check(&mut s, 300, b"@server=other");
    assert!(s.next_directive().is_some());
    atom_check(&mut s, 300, b"@server=ibus");
    let steps: Vec<Completion> = vec![
        Completion::XidGenerated(400),
        Completion::RequestCompleted,
        Completion::RequestCompleted,
        Completion::SelectionNotifyEvent(notify(400, 500)),
        Completion::Property(transport_reply(b"X/")),
        Completion::RequestCompleted,
        Completion::XidGenerated(600),
        Completion::RequestCompleted,
        Completion::RequestCompleted,
        Completion::ClientMessageEvent(ClientMessageEvent {
            response_type: 33,
            format: 32,
            sequence: 0,
            window: 600,
            type_: 14,
            data: ClientMessageData::from_data32([700, 0, 0, 0, 0]),
        }),
    ];
    for c in steps {
        assert!(s.next_directive().is_some());
        assert!(s.complete(c).is_ok());
    }
    match s.next_directive() {
        Some(ServerCheckDirective::Connect(a)) => assert_eq!(a, Address::new(Protocol::X11, Vec::new())),
        _ => panic!("expected Connect"),
    }
    s.complete_establish();
    let steps: Vec<Completion> = vec![
        Completion::RequestCompleted,
        Completion::ConnectReply(ConnectReplyFr {
            server_major_protocol_version: 1,
            server_minor_protocol_version: 0,
        }),
        Completion::RequestCompleted,
        Completion::OpenReply(OpenReplyFr { input_method_id: 9 }),
    ];
    for c in steps {
        assert!(s.next_directive().is_some());
        assert!(s.complete(c).is_ok());
    }
    assert!(s.next_directive().is_none());
    assert!(s.build().is_ok());
}

#[test]
fn bad_transport_deletes_the_requestor_window() {
    let mut s = up_to_transport();
    assert!(s.complete(Completion::Property(transport_reply(b"unix/tmp"))).is_ok());
    match s.next_directive() {
        Some(ServerCheckDirective::DeleteWindow(dw)) => assert_eq!(dw.window, 400),
        _ => panic!("expected DeleteWindow"),
    }
    assert!(s.complete(Completion::RequestCompleted).is_ok());
    // no server left
    assert!(s.next_directive().is_none());
    match s.build() {
        Err(ConnectError::BadProtocol(BadProtocol)) => {}
        _ => panic!("the last error is the bad protocol"),
    }
}

#[test]
fn transport_without_separator_is_a_bad_protocol() {
    let mut s = up_to_transport();
    // format 8, three bytes count: "tcp" alone has no separator
    let mut reply = transport_reply(b"tcp/host");
    reply.value_len = 3;
    assert!(s.complete(Completion::Property(reply)).is_ok());
    assert!(matches!(s.next_directive(), Some(ServerCheckDirective::DeleteWindow(_))));
    assert!(s.complete(Completion::RequestCompleted).is_ok());
    match s.build() {
        Err(ConnectError::BadProtocol(BadProtocol)) => {}
        _ => panic!("the transport names no host"),
    }
}

#[test]
fn name_mismatch_moves_to_the_next_server() {
    let mut s = check(&[500, 501]);
    assert!(s.next_directive().is_some());
    atom_check(&mut s, 300, b"@server=other");
    match s.next_directive() {
        Some(ServerCheckDirective::FetchAtomInfo(gso, _)) => assert_eq!(gso.selection, 501),
        _ => panic!("expected the next server"),
    }
    atom_check(&mut s, 300, b"@server=other");
    assert!(s.next_directive().is_none());
    match s.build() {
        Err(ConnectError::AtomNameMismatch) => {}
        _ => panic!("expected the name mismatch"),
    }
}

#[test]
fn missing_server_atom_deletes_the_requestor_window() {
    let mut s = check(&[500]);
    assert!(s.next_directive().is_some());
    atom_check(&mut s, 300, b"@server=ibus");
    assert!(s.complete(Completion::XidGenerated(400)).is_ok());
    assert!(s.complete(Completion::RequestCompleted).is_ok());
    assert!(s.complete(Completion::RequestCompleted).is_ok());
    assert!(s.complete(Completion::SelectionNotifyEvent(notify(400, 0))).is_ok());
    match s.next_directive() {
        Some(ServerCheckDirective::DeleteWindow(dw)) => assert_eq!(dw.window, 400),
        _ => panic!("expected DeleteWindow"),
    }
    assert!(s.complete(Completion::RequestCompleted).is_ok());
    assert!(s.next_directive().is_none());
    match s.build() {
        Err(ConnectError::NoServerAtom) => {}
        _ => panic!("expected NoServerAtom"),
    }
}

#[test]
fn early_out_before_the_window_exists_starts_over() {
    let mut s = check(&[500, 501]);
    assert!(s.next_directive().is_some());
    atom_check(&mut s, 300, b"@server=ibus");
    assert!(s.complete(Completion::XidGenerated(400)).is_ok());
    // the window is being created: nothing to delete yet
    s.early_out();
    match s.next_directive() {
        Some(ServerCheckDirective::FetchAtomInfo(gso, _)) => assert_eq!(gso.selection, 501),
        _ => panic!("expected the next server"),
    }
}

#[test]
fn early_out_after_the_window_exists_deletes_it() {
    let mut s = check(&[500]);
    assert!(s.next_directive().is_some());
    atom_check(&mut s, 300, b"@server=ibus");
    assert!(s.complete(Completion::XidGenerated(400)).is_ok());
    assert!(s.complete(Completion::RequestCompleted).is_ok());
    s.early_out();
    match s.next_directive() {
        Some(ServerCheckDirective::DeleteWindow(dw)) => assert_eq!(dw.window, 400),
        _ => panic!("expected DeleteWindow"),
    }
    match s.build() {
        Err(ConnectError::Incomplete) => {}
        _ => panic!("nothing has failed"),
    }
}

#[test]
fn servers_must_be_atoms() {
    let (stage, _) = builder().next_stage();
    let mut reply = servers_reply(&[500]);
    reply.format = 8;
    assert!(matches!(stage.retrieved_servers(reply), Err(ConnectError::RetrievedServersNotAtoms)));
    let (stage, _) = builder().next_stage();
    let mut reply = servers_reply(&[500]);
    reply.type_ = 31;
    assert!(matches!(stage.retrieved_servers(reply), Err(ConnectError::RetrievedServersNotAtoms)));
}

#[test]
fn no_servers_means_no_directive() {
    let mut s = check(&[]);
    assert!(s.next_directive().is_none());
    match s.build() {
        Err(ConnectError::Incomplete) => {}
        _ => panic!("no server was tried"),
    }
}

#[test]
fn unrelated_client_message_comes_back() {
    let mut s = check(&[500]);
    let cme = ClientMessageEvent {
        response_type: 33,
        format: 32,
        sequence: 0,
        window: 1,
        type_: 14,
        data: ClientMessageData::from_data32([5, 0, 0, 0, 0]),
    };
    match s.complete(Completion::ClientMessageEvent(cme)) {
        Err(Event::ClientMessage(m)) => assert_eq!(m.type_, 14),
        _ => panic!("the check is not waiting for a client message"),
    }
}
