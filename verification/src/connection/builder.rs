//! Building a connection to an XIM server, one directive at a time: the
//! caller performs each directive against the X server and reports back.
use super::{Address, BadProtocol, Protocol, Xim, XimView};
use crate::frame::native_u32_of;
use crate::message::ClientMessageView;
use crate::protocol::{
    byte_order, spec_byte_order, ConnectFr, ConnectReplyFr, OpenFr, OpenReplyFr, StrFr, XimFrame,
};
use crate::xproto::{
    atom_atom, atom_none, client_message_event, event_mask_no_event, event_mask_property_change,
    native_words_bytes, native_words_of, spec_atom_atom, spec_atom_none,
    spec_client_message_event, spec_event_mask_no_event, spec_event_mask_property_change,
    spec_window_class_input_output, window_class_input_output, Atom, ClientMessageData,
    ClientMessageEvent, ConvertSelectionRequest, CreateWindowRequest, DestroyWindowRequest,
    GetAtomNameReply, GetAtomNameRequest, GetPropertyReply, GetPropertyRequest,
    GetSelectionOwnerReply, GetSelectionOwnerRequest, InternAtomRequest, Screen,
    SelectionNotifyEvent, SendEventRequest, Setup, Window,
};
use vstd::prelude::*;
use vstd::utf8::encode_utf8;

verus! {

const NUM_NECESSARY_ATOMS: usize = 5;

const SERVERS_INDEX: usize = 0;

const TRANSPORT_INDEX: usize = 2;

const PROTOCOL_INDEX: usize = 3;

const CONNECT_INDEX: usize = 4;

/// The names of the atoms that the handshake needs, in the order in which
/// the builder keeps them.
pub open spec fn necessary_atom_names() -> Seq<Seq<char>> {
    seq!["XIM_SERVERS"@, "LOCALES"@, "TRANSPORT"@, "_XIM_PROTOCOL"@, "_XIM_XCONNECT"@]
}

struct Core {
    screen: usize,
    root: Screen,
    name: String,
    atoms: [Atom; NUM_NECESSARY_ATOMS],
}

/// What a stage keeps of the setup: the screen, the name of the input
/// method server, and the interned atoms.
pub struct CoreView {
    pub screen: usize,
    pub root: Screen,
    pub name: Seq<char>,
    pub atoms: Seq<Atom>,
}

impl View for Core {
    type V = CoreView;

    closed spec fn view(&self) -> CoreView {
        CoreView { screen: self.screen, root: self.root, name: self.name@, atoms: self.atoms@ }
    }
}

/// A struct to be used to build an XIM connection.
pub struct XimBuilder {
    // the screen to use
    screen: usize,
    // the root to use
    root: Screen,
    // the name of the IM server
    name: String,
    // the atoms we need to load
    atoms: [AtomSlot; NUM_NECESSARY_ATOMS],
    // change out the event mask
    changed_evmask: bool,
}

#[derive(Copy, Clone)]
enum AtomSlot {
    /// Not yet retrieved.
    Unset(&'static str),
    /// Retrieved
    Retrieved(Atom),
}

/// A builder: the screen and its root, the server name, the atoms
/// retrieved so far (`None` where not yet), and whether the event mask of
/// the root window has been changed.
pub struct BuilderView {
    pub screen: usize,
    pub root: Screen,
    pub name: Seq<char>,
    pub atoms: Seq<Option<Atom>>,
    pub changed_evmask: bool,
}

spec fn slot_view(s: AtomSlot) -> Option<Atom> {
    match s {
        AtomSlot::Unset(_) => None,
        AtomSlot::Retrieved(a) => Some(a),
    }
}

impl View for XimBuilder {
    type V = BuilderView;

    closed spec fn view(&self) -> BuilderView {
        BuilderView {
            screen: self.screen,
            root: self.root,
            name: self.name@,
            atoms: self.atoms@.map_values(|s: AtomSlot| slot_view(s)),
            changed_evmask: self.changed_evmask,
        }
    }
}

/// The names of the atoms not yet retrieved among the first `atoms.len()`
/// slots, in slot order.
pub open spec fn unset_names(atoms: Seq<Option<Atom>>) -> Seq<Seq<char>>
    decreases atoms.len(),
{
    if atoms.len() == 0 {
        seq![]
    } else {
        let rest = unset_names(atoms.drop_last());
        if atoms.last() is None {
            rest.push(necessary_atom_names()[atoms.len() - 1])
        } else {
            rest
        }
    }
}

impl XimBuilder {
    /// Every slot that is not yet retrieved holds the name of its atom.
    pub closed spec fn wf(&self) -> bool {
        forall|i: int|
            0 <= i < 5 ==> (#[trigger] self.atoms@[i] matches AtomSlot::Unset(n) ==> n@
                == necessary_atom_names()[i])
    }

    /// What a well-formed builder guarantees: it keeps one slot for each of
    /// the five atoms that the handshake needs.
    pub proof fn lemma_wf(&self)
        requires
            self.wf(),
        ensures
            self@.atoms.len() == 5,
    {
    }

    /// Start building a connection on screen `screen` of `setup` to the input
    /// method server named `name`.
    pub fn new(screen: usize, setup: &Setup, name: String) -> (r: XimBuilder)
        requires
            screen < setup.roots@.len(),
        ensures
            r.wf(),
            r@ == (BuilderView {
                screen,
                root: setup.roots@[screen as int],
                name: name@,
                atoms: seq![None, None, None, None, None],
                changed_evmask: false,
            }),
    {
        let r = XimBuilder {
            screen,
            root: setup.roots[screen],
            name,
            atoms: [
                AtomSlot::Unset("XIM_SERVERS"),
                AtomSlot::Unset("LOCALES"),
                AtomSlot::Unset("TRANSPORT"),
                AtomSlot::Unset("_XIM_PROTOCOL"),
                AtomSlot::Unset("_XIM_XCONNECT"),
            ],
            changed_evmask: false,
        };
        assert(r@.atoms =~= seq![None, None, None, None, None]);
        r
    }

    /// The atom requests that still need to be sent, numbered in order.
    pub fn intern_atom_requests(&self) -> (r: Vec<(usize, InternAtomRequest)>)
        requires
            self.wf(),
        ensures
            r@.len() == unset_names(self@.atoms).len(),
            forall|i: int|
                0 <= i < r@.len() ==> {
                    &&& (#[trigger] r@[i]).0 == i
                    &&& !r@[i].1.only_if_exists
                    &&& r@[i].1.name@ == encode_utf8(unset_names(self@.atoms)[i])
                },
    {
        let mut r: Vec<(usize, InternAtomRequest)> = Vec::new();
        let mut k: usize = 0;
        while k < NUM_NECESSARY_ATOMS
            invariant
                self.wf(),
                k <= 5,
                self@.atoms.len() == 5,
                r@.len() == unset_names(self@.atoms.take(k as int)).len(),
                forall|i: int|
                    0 <= i < r@.len() ==> {
                        &&& (#[trigger] r@[i]).0 == i
                        &&& !r@[i].1.only_if_exists
                        &&& r@[i].1.name@ == encode_utf8(unset_names(self@.atoms.take(k as int))[i])
                    },
            decreases 5 - k,
        {
            let ghost before = self@.atoms.take(k as int);
            assert(self@.atoms.take(k + 1).drop_last() =~= before);
            match self.atoms[k] {
                AtomSlot::Unset(name) => {
                    let bytes = vstd::slice::slice_to_vec(name.as_bytes());
                    let idx = r.len();
                    r.push((idx, InternAtomRequest { only_if_exists: false, name: bytes }));
                },
                AtomSlot::Retrieved(_) => {},
            }
            k = k + 1;
        }
        assert(self@.atoms.take(5) =~= self@.atoms);
        r
    }

    /// Set an atom that has been interned.
    pub fn use_atom(&mut self, index: usize, atom: Atom)
        requires
            old(self).wf(),
            index < 5,
        ensures
            final(self).wf(),
            final(self)@ == (BuilderView {
                atoms: old(self)@.atoms.update(index as int, Some(atom)),
                ..old(self)@
            }),
    {
        self.atoms[index] = AtomSlot::Retrieved(atom);
        assert(self@.atoms =~= old(self)@.atoms.update(index as int, Some(atom)));
    }

    /// Get the event mask that needs to be applied to the root window.
    pub fn change_event_mask(&mut self) -> (r: u32)
        requires
            old(self).wf(),
        ensures
            final(self).wf(),
            r == spec_event_mask_property_change(),
            final(self)@ == (BuilderView { changed_evmask: true, ..old(self)@ }),
    {
        self.changed_evmask = true;
        event_mask_property_change()
    }

    /// Once every atom is retrieved and the event mask changed, move onto
    /// the next stage, along with the request for the list of servers.
    pub fn next_stage(self) -> (r: (StageGetServers, GetPropertyRequest))
        requires
            self.wf(),
            forall|i: int| 0 <= i < 5 ==> #[trigger] self@.atoms[i] is Some,
            self@.changed_evmask,
        ensures
            r.0@ == (CoreView {
                screen: self@.screen,
                root: self@.root,
                name: self@.name,
                atoms: self@.atoms.map_values(|a: Option<Atom>| a.unwrap()),
            }),
            r.1 == (GetPropertyRequest {
                delete: false,
                window: self@.root.root,
                property: self@.atoms[0].unwrap(),
                type_: spec_atom_atom(),
                long_offset: 0,
                long_length: 10000,
            }),
    {
        let ghost view = self@.atoms;
        let XimBuilder { screen, root, name, atoms: slots, changed_evmask } = self;
        assert forall|k: int| 0 <= k < 5 implies #[trigger] slot_view(slots@[k]) is Some by {
            assert(view[k] == slot_view(slots@[k]));
        }
        let mut atoms: [Atom; NUM_NECESSARY_ATOMS] = [0u32; NUM_NECESSARY_ATOMS];
        let mut i: usize = 0;
        while i < NUM_NECESSARY_ATOMS
            invariant
                i <= 5,
                slots@.len() == 5,
                atoms@.len() == 5,
                forall|k: int| 0 <= k < 5 ==> #[trigger] slot_view(slots@[k]) is Some,
                forall|k: int| 0 <= k < i ==> atoms@[k] == slot_view(#[trigger] slots@[k]).unwrap(),
            decreases 5 - i,
        {
            assert(slot_view(slots@[i as int]) is Some);
            match slots[i] {
                AtomSlot::Retrieved(atom) => {
                    atoms[i] = atom;
                },
                AtomSlot::Unset(_) => vstd::pervasive::unreached(),
            }
            i = i + 1;
        }
        let core = Core { screen, root, name, atoms };
        let req = GetPropertyRequest {
            delete: false,
            window: core.root.root,
            property: atoms[SERVERS_INDEX],
            type_: atom_atom(),
            long_offset: 0,
            long_length: 10000,
        };
        let r = (StageGetServers { core }, req);
        assert(r.0@.atoms =~= self@.atoms.map_values(|a: Option<Atom>| a.unwrap()));
        r
    }
}

/// The stage where we get servers.
pub struct StageGetServers {
    core: Core,
}

impl View for StageGetServers {
    type V = CoreView;

    closed spec fn view(&self) -> CoreView {
        self.core@
    }
}

/// The words that bytes hold, four bytes to a word, in this machine's byte order.
pub open spec fn native_words(bytes: Seq<u8>) -> Seq<u32> {
    Seq::new(bytes.len() / 4, |i: int| native_u32_of(bytes.subrange(4 * i, 4 * i + 4)))
}

/// `bytemuck::allocation::pod_collect_to_vec::<u8, u32>`: the words that the
/// bytes hold in this machine's byte order.
#[verifier::external_body]
fn pod_collect_words(bytes: &[u8]) -> (r: Vec<u32>)
    requires
        bytes@.len() % 4 == 0,
    ensures
        r@ == native_words(bytes@),
{
    bytemuck::allocation::pod_collect_to_vec::<u8, u32>(bytes)
}

impl StageGetServers {
    /// Indicate that we have retrieved the list of servers: the value of the
    /// property, as a list of atoms.
    pub fn retrieved_servers(self, reply: GetPropertyReply) -> (r: Result<
        StageCheckServers,
        ConnectError,
    >)
        requires
            reply.format == 32 && reply.type_ == spec_atom_atom() ==> reply.length * 4
                <= reply.value@.len(),
        ensures
            reply.format != 32 || reply.type_ != spec_atom_atom() ==> r == Err::<
                StageCheckServers,
                ConnectError,
            >(ConnectError::RetrievedServersNotAtoms),
            reply.format == 32 && reply.type_ == spec_atom_atom() ==> (r matches Ok(s) && s.wf()
                && s@ == (CheckView {
                core: self@,
                servers: native_words(reply.value@.take(reply.length * 4)),
                next: 0,
                state: CheckState::Initial,
                current: None,
                last_err: None,
            })),
    {
        if reply.format != 32 || reply.type_ != atom_atom() {
            return Err(ConnectError::RetrievedServersNotAtoms);
        }
        assert(self.core.atoms@.len() == 5);
        // collect all of the atoms into an array
        let vlen = reply.value.len();
        assert(reply.length * 4 <= vlen);
        let n = reply.length as usize * 4;
        let bytes = vstd::slice::slice_subrange(reply.value.as_slice(), 0, n);
        let atoms = pod_collect_words(bytes);
        assert(bytes@ =~= reply.value@.take(reply.length * 4));
        Ok(
            StageCheckServers {
                core: self.core,
                servers: atoms,
                next: 0,
                check_state: CheckState::Initial,
                current_server: None,
                last_err: None,
            },
        )
    }
}

/// The stage where we check servers.
pub struct StageCheckServers {
    core: Core,
    servers: Vec<u32>,
    next: usize,
    check_state: CheckState,
    current_server: Option<CurrentServer>,
    last_err: Option<ConnectError>,
}

struct CurrentServer {
    server: Atom,
    owner_window: Option<Window>,
    requestor_window: Option<Window>,
    client_window: Option<Window>,
    accept_window: Option<Window>,
    address: Option<Address>,
    connect_id: Option<u16>,
}

/// The server under check: its atom, and what has been learned of it.
pub struct ServerView {
    pub server: Atom,
    pub owner_window: Option<Window>,
    pub requestor_window: Option<Window>,
    pub client_window: Option<Window>,
    pub accept_window: Option<Window>,
    pub address: Option<(Protocol, Seq<u8>)>,
    pub connect_id: Option<u16>,
}

impl View for CurrentServer {
    type V = ServerView;

    closed spec fn view(&self) -> ServerView {
        ServerView {
            server: self.server,
            owner_window: self.owner_window,
            requestor_window: self.requestor_window,
            client_window: self.client_window,
            accept_window: self.accept_window,
            address: match self.address {
                Some(a) => Some(a@),
                None => None,
            },
            connect_id: self.connect_id,
        }
    }
}

/// The step of the handshake with the server under check.
#[derive(Debug, PartialEq, Eq, Structural)]
pub enum CheckState {
    /// The starting state, where we're not processing a server.
    Initial,
    /// Just sent out querying for this server atom.
    Querying,
    /// Generating an XID for the requestor window.
    GeneratingXidForRequestor,
    /// Running the CreateWindow request.
    CreatingWindow,
    /// Deleting the requestor window.
    DeletingWindow,
    /// Convert the window selection.
    ConvertSelection,
    /// Wait for a SelectionNotify event.
    WaitForSelNotify,
    /// The user gets the "transport" property.
    GetTransport,
    /// Delete the window, but this time just because we don't
    /// really need it anymore.
    WindowNotNeeded,
    /// Generate an XID for the client window.
    GeneratingXidForClient,
    /// Running the CreateWindow request.
    CreatingClientWindow,
    /// Sending an event the the root window involving the client window.
    InvolvingClientWindow,
    /// Waiting for the server to confirm.
    WaitForClientNotify,
    /// Connect to the server.
    EstablishingConnection,
    /// Send a connect frame.
    SendConnectFrame,
    /// Wait for the connect_reply frame.
    WaitForConnectReply,
    /// Send the open frame.
    SendOpenFrame,
    /// Wait for the open_reply frame.
    WaitForOpenReply,
    /// Connection is complete.
    Complete,
}

/// The position of a step in the handshake.
pub open spec fn rank(s: CheckState) -> int {
    match s {
        CheckState::Initial => 0,
        CheckState::Querying => 1,
        CheckState::GeneratingXidForRequestor => 2,
        CheckState::CreatingWindow => 3,
        CheckState::DeletingWindow => 4,
        CheckState::ConvertSelection => 5,
        CheckState::WaitForSelNotify => 6,
        CheckState::GetTransport => 7,
        CheckState::WindowNotNeeded => 8,
        CheckState::GeneratingXidForClient => 9,
        CheckState::CreatingClientWindow => 10,
        CheckState::InvolvingClientWindow => 11,
        CheckState::WaitForClientNotify => 12,
        CheckState::EstablishingConnection => 13,
        CheckState::SendConnectFrame => 14,
        CheckState::WaitForConnectReply => 15,
        CheckState::SendOpenFrame => 16,
        CheckState::WaitForOpenReply => 17,
        CheckState::Complete => 18,
    }
}

impl CheckState {
    fn rank(&self) -> (r: u8)
        ensures
            r == rank(*self),
    {
        match self {
            CheckState::Initial => 0,
            CheckState::Querying => 1,
            CheckState::GeneratingXidForRequestor => 2,
            CheckState::CreatingWindow => 3,
            CheckState::DeletingWindow => 4,
            CheckState::ConvertSelection => 5,
            CheckState::WaitForSelNotify => 6,
            CheckState::GetTransport => 7,
            CheckState::WindowNotNeeded => 8,
            CheckState::GeneratingXidForClient => 9,
            CheckState::CreatingClientWindow => 10,
            CheckState::InvolvingClientWindow => 11,
            CheckState::WaitForClientNotify => 12,
            CheckState::EstablishingConnection => 13,
            CheckState::SendConnectFrame => 14,
            CheckState::WaitForConnectReply => 15,
            CheckState::SendOpenFrame => 16,
            CheckState::WaitForOpenReply => 17,
            CheckState::Complete => 18,
        }
    }
}

/// The check of servers: the setup it keeps, the list of servers and how many
/// of them have been taken up, the step, the server under check, and the
/// last error met.
pub struct CheckView {
    pub core: CoreView,
    pub servers: Seq<u32>,
    pub next: int,
    pub state: CheckState,
    pub current: Option<ServerView>,
    pub last_err: Option<ConnectError>,
}

impl View for StageCheckServers {
    type V = CheckView;

    closed spec fn view(&self) -> CheckView {
        CheckView {
            core: self.core@,
            servers: self.servers@,
            next: self.next as int,
            state: self.check_state,
            current: match self.current_server {
                Some(c) => Some(c@),
                None => None,
            },
            last_err: self.last_err,
        }
    }
}

/// What is known of the server under check at each step: the windows and
/// the address that the steps before it have established.
pub open spec fn state_wf(state: CheckState, current: Option<ServerView>) -> bool {
    let c = current.unwrap();
    let owner = c.owner_window is Some;
    let requestor = c.requestor_window is Some;
    let address = c.address is Some;
    let client = c.client_window is Some;
    let accept = c.accept_window is Some;
    match state {
        CheckState::Initial => true,
        CheckState::Querying => current is Some,
        CheckState::GeneratingXidForRequestor => current is Some && owner,
        CheckState::CreatingWindow | CheckState::DeletingWindow | CheckState::ConvertSelection
        | CheckState::WaitForSelNotify | CheckState::GetTransport => current is Some && owner
            && requestor,
        CheckState::WindowNotNeeded => current is Some && owner && requestor && address,
        CheckState::GeneratingXidForClient => current is Some && owner && address,
        CheckState::CreatingClientWindow | CheckState::InvolvingClientWindow
        | CheckState::WaitForClientNotify => current is Some && owner && address && client,
        CheckState::Complete => current is Some && owner && address && client && accept
            && c.connect_id is Some,
        _ => current is Some && owner && address && client && accept,
    }
}

/// A well-formed check: the servers taken up are among the list, the setup
/// keeps its five atoms, and the server under check is as far along as the step.
pub open spec fn check_wf(v: CheckView) -> bool {
    &&& 0 <= v.next <= v.servers.len()
    &&& v.core.atoms.len() == 5
    &&& state_wf(v.state, v.current)
}

/// A directive that the user needs to fulfill while using the builder.
pub enum ServerCheckDirective {
    /// The user needs to provide a server.
    FetchAtomInfo(GetSelectionOwnerRequest, GetAtomNameRequest),
    /// The user needs to generate an XID.
    GenerateXid,
    /// The user needs to create a window.
    CreateWindow(CreateWindowRequest),
    /// The user needs to delete a window.
    DeleteWindow(DestroyWindowRequest),
    /// The user needs to convert a selection.
    ConvertSelection(ConvertSelectionRequest),
    /// Feed us a `SelectionNotifyEvent`.
    GetSelectionNotify,
    /// Feed us a `ClientMessageEvent`.
    GetClientMessage,
    /// The user needs to get a property.
    GetProperty(GetPropertyRequest),
    /// The user needs to send an event.
    SendEvent(SendEventRequest),
    /// The user needs to send a frame.
    SendFrame { frame: XimFrame, window: Window, protocol_atom: Atom, sequence: u32 },
    /// The user needs to receive a frame.
    RecvFrame,
    /// The user needs to connect to the XIM server over the
    /// given address.
    Connect(Address),
}

/// The result of completing a `ServerCheckDirective`.
pub enum Completion {
    AtomCheck(GetSelectionOwnerReply, GetAtomNameReply),
    XidGenerated(Window),
    RequestCompleted,
    SelectionNotifyEvent(SelectionNotifyEvent),
    ClientMessageEvent(ClientMessageEvent),
    Property(GetPropertyReply),
    ConnectReply(ConnectReplyFr),
    OpenReply(OpenReplyFr),
}

/// An event that the builder was handed but was not waiting for.
pub enum Event {
    ClientMessage(ClientMessageEvent),
    SelectionNotify(SelectionNotifyEvent),
}

/// Why no connection could be built.
#[derive(Debug, PartialEq, Eq, Structural)]
pub enum ConnectError {
    RetrievedServersNotAtoms,
    OutOfServers,
    BadProtocol(BadProtocol),
    NoServerAtom,
    AtomNameMismatch,
    Incomplete,
}

/// A server taken up for checking, with nothing learned of it yet.
pub open spec fn fresh_server(server: Atom) -> ServerView {
    ServerView {
        server,
        owner_window: None,
        requestor_window: None,
        client_window: None,
        accept_window: None,
        address: None,
        connect_id: None,
    }
}

/// The check once the next server, if the step is `Initial` and one is
/// left, has been taken up.
pub open spec fn spec_advance(v: CheckView) -> CheckView {
    if v.state == CheckState::Initial && v.next < v.servers.len() {
        CheckView {
            next: v.next + 1,
            current: Some(fresh_server(v.servers[v.next])),
            state: CheckState::Querying,
            ..v
        }
    } else {
        v
    }
}

/// A window request that creates the 1x1 input-output window `wid` on the root.
pub open spec fn small_window(v: CheckView, wid: Window) -> CreateWindowRequest {
    CreateWindowRequest {
        depth: 0,
        wid,
        parent: v.core.root.root,
        x: 0,
        y: 0,
        width: 1,
        height: 1,
        border_width: 1,
        class: spec_window_class_input_output(),
        visual: v.core.root.root_visual,
    }
}

/// A frame to send, as plain values.
pub enum FrameView {
    Connect {
        byte_order: u8,
        client_major_protocol_version: u16,
        client_minor_protocol_version: u16,
        client_auth_protocol_names: Seq<Seq<u8>>,
    },
    Open { locale: Seq<u8> },
}

/// The frame as plain values.
pub open spec fn frame_view(f: XimFrame) -> FrameView {
    match f {
        XimFrame::ConnectFr(c) => FrameView::Connect {
            byte_order: c.byte_order,
            client_major_protocol_version: c.client_major_protocol_version,
            client_minor_protocol_version: c.client_minor_protocol_version,
            client_auth_protocol_names: c.client_auth_protocol_names@.map_values(|n: Vec<u8>| n@),
        },
        XimFrame::OpenFr(o) => FrameView::Open { locale: o.field1.string@ },
    }
}

/// A `SendEvent` request, as plain values.
pub struct SendEventView {
    pub propagate: bool,
    pub destination: Window,
    pub event_mask: u32,
    pub event: ClientMessageView,
}

/// A directive, as plain values.
pub enum DirectiveView {
    FetchAtomInfo(GetSelectionOwnerRequest, GetAtomNameRequest),
    GenerateXid,
    CreateWindow(CreateWindowRequest),
    DeleteWindow(DestroyWindowRequest),
    ConvertSelection(ConvertSelectionRequest),
    GetSelectionNotify,
    GetClientMessage,
    GetProperty(GetPropertyRequest),
    SendEvent(SendEventView),
    SendFrame { frame: FrameView, window: Window, protocol_atom: Atom, sequence: u32 },
    RecvFrame,
    Connect((Protocol, Seq<u8>)),
}

impl View for ServerCheckDirective {
    type V = DirectiveView;

    open spec fn view(&self) -> DirectiveView {
        match *self {
            ServerCheckDirective::FetchAtomInfo(a, b) => DirectiveView::FetchAtomInfo(a, b),
            ServerCheckDirective::GenerateXid => DirectiveView::GenerateXid,
            ServerCheckDirective::CreateWindow(c) => DirectiveView::CreateWindow(c),
            ServerCheckDirective::DeleteWindow(d) => DirectiveView::DeleteWindow(d),
            ServerCheckDirective::ConvertSelection(c) => DirectiveView::ConvertSelection(c),
            ServerCheckDirective::GetSelectionNotify => DirectiveView::GetSelectionNotify,
            ServerCheckDirective::GetClientMessage => DirectiveView::GetClientMessage,
            ServerCheckDirective::GetProperty(g) => DirectiveView::GetProperty(g),
            ServerCheckDirective::SendEvent(e) => DirectiveView::SendEvent(
                SendEventView {
                    propagate: e.propagate,
                    destination: e.destination,
                    event_mask: e.event_mask,
                    event: e.event@,
                },
            ),
            ServerCheckDirective::SendFrame { frame, window, protocol_atom, sequence } =>
                DirectiveView::SendFrame { frame: frame_view(frame), window, protocol_atom, sequence },
            ServerCheckDirective::RecvFrame => DirectiveView::RecvFrame,
            ServerCheckDirective::Connect(a) => DirectiveView::Connect(a@),
        }
    }
}

/// An optional directive, as plain values.
pub open spec fn directive_view(r: Option<ServerCheckDirective>) -> Option<DirectiveView> {
    match r {
        Some(d) => Some(d@),
        None => None,
    }
}

/// The directive that a (well-formed) check hands out at its step.
pub open spec fn spec_directive(v: CheckView) -> Option<DirectiveView> {
    let c = v.current.unwrap();
    match v.state {
        CheckState::Initial | CheckState::Complete => None,
        CheckState::Querying => Some(
            DirectiveView::FetchAtomInfo(
                GetSelectionOwnerRequest { selection: c.server },
                GetAtomNameRequest { atom: c.server },
            ),
        ),
        CheckState::GeneratingXidForRequestor | CheckState::GeneratingXidForClient => Some(
            DirectiveView::GenerateXid,
        ),
        CheckState::CreatingWindow => Some(
            DirectiveView::CreateWindow(small_window(v, c.requestor_window.unwrap())),
        ),
        CheckState::DeletingWindow | CheckState::WindowNotNeeded => Some(
            DirectiveView::DeleteWindow(DestroyWindowRequest { window: c.requestor_window.unwrap() }),
        ),
        CheckState::ConvertSelection => Some(
            DirectiveView::ConvertSelection(
                ConvertSelectionRequest {
                    requestor: c.requestor_window.unwrap(),
                    selection: c.server,
                    target: v.core.atoms[2],
                    property: v.core.atoms[2],
                    time: 0,
                },
            ),
        ),
        CheckState::WaitForSelNotify => Some(DirectiveView::GetSelectionNotify),
        CheckState::GetTransport => Some(
            DirectiveView::GetProperty(
                GetPropertyRequest {
                    delete: true,
                    window: c.requestor_window.unwrap(),
                    property: v.core.atoms[2],
                    type_: v.core.atoms[2],
                    long_offset: 0,
                    long_length: 10000,
                },
            ),
        ),
        CheckState::CreatingClientWindow => Some(
            DirectiveView::CreateWindow(small_window(v, c.client_window.unwrap())),
        ),
        CheckState::InvolvingClientWindow => Some(
            DirectiveView::SendEvent(
                SendEventView {
                    propagate: false,
                    destination: c.owner_window.unwrap(),
                    event_mask: spec_event_mask_no_event(),
                    event: ClientMessageView {
                        response_type: spec_client_message_event(),
                        format: 32,
                        sequence: 0,
                        window: c.owner_window.unwrap(),
                        type_: v.core.atoms[4],
                        data: native_words_bytes(
                            seq![c.client_window.unwrap(), 0u32, 0u32, 0u32, 0u32],
                        ),
                    },
                },
            ),
        ),
        CheckState::WaitForClientNotify => Some(DirectiveView::GetClientMessage),
        CheckState::EstablishingConnection => Some(DirectiveView::Connect(c.address.unwrap())),
        CheckState::SendConnectFrame => Some(
            DirectiveView::SendFrame {
                frame: FrameView::Connect {
                    byte_order: spec_byte_order(),
                    client_major_protocol_version: 0,
                    client_minor_protocol_version: 0,
                    client_auth_protocol_names: seq![],
                },
                window: c.accept_window.unwrap(),
                protocol_atom: v.core.atoms[3],
                sequence: 0,
            },
        ),
        CheckState::WaitForConnectReply | CheckState::WaitForOpenReply => Some(
            DirectiveView::RecvFrame,
        ),
        CheckState::SendOpenFrame => Some(
            DirectiveView::SendFrame {
                frame: FrameView::Open { locale: seq![] },
                window: c.accept_window.unwrap(),
                protocol_atom: v.core.atoms[3],
                sequence: 1,
            },
        ),
    }
}

/// `r` is the directive that the check hands out at its step.
pub open spec fn directive_for(v: CheckView, r: Option<ServerCheckDirective>) -> bool {
    directive_view(r) == spec_directive(v)
}

/// Asking for the directive again, with nothing completed in between, gives
/// the same directive: taking up a server happens once, and a directive
/// depends on nothing but the check.
pub proof fn lemma_directive_repeats(v: CheckView, r1: Option<ServerCheckDirective>, r2: Option<
    ServerCheckDirective,
>)
    requires
        check_wf(v),
        directive_for(spec_advance(v), r1),
        directive_for(spec_advance(spec_advance(v)), r2),
    ensures
        spec_advance(spec_advance(v)) == spec_advance(v),
        directive_view(r1) == directive_view(r2),
{
}

/// The check after an error with the server under check: the requestor window,
/// if it may have been created, is deleted first; otherwise the check starts
/// over with the next server.
pub open spec fn spec_early_out(v: CheckView) -> CheckView {
    if rank(CheckState::CreatingWindow) < rank(v.state) < rank(CheckState::WindowNotNeeded) {
        CheckView { state: CheckState::DeletingWindow, ..v }
    } else {
        CheckView { current: None, state: CheckState::Initial, ..v }
    }
}

/// An error never leaves a requestor window behind: once the window may
/// exist, giving up on the server first hands out the request that deletes
/// it, and completing that request starts over with no server under check;
/// before that, giving up starts over at once. Either way the check stays
/// well formed.
pub proof fn lemma_early_out_cleans_up(v: CheckView)
    requires
        check_wf(v),
    ensures
        check_wf(spec_early_out(v)),
        rank(CheckState::CreatingWindow) < rank(v.state) < rank(CheckState::WindowNotNeeded) ==> {
            let w = spec_early_out(v);
            &&& w.current == v.current
            &&& directive_for(
                w,
                Some(
                    ServerCheckDirective::DeleteWindow(
                        DestroyWindowRequest { window: v.current.unwrap().requestor_window.unwrap() },
                    ),
                ),
            )
            &&& spec_advance(w) == w
            &&& awaits_request(w.state)
            &&& spec_complete_request(w).state == CheckState::Initial
            &&& spec_complete_request(w).current is None
            &&& check_wf(spec_complete_request(w))
        },
        !(rank(CheckState::CreatingWindow) < rank(v.state) < rank(CheckState::WindowNotNeeded))
            ==> spec_early_out(v).state == CheckState::Initial && spec_early_out(v).current is None,
{
}

/// The check after an error, recorded as the last one met.
pub open spec fn spec_fail(v: CheckView, e: ConnectError) -> CheckView {
    spec_early_out(CheckView { last_err: Some(e), ..v })
}

/// The check with the server under check changed.
pub open spec fn with_server(v: CheckView, c: ServerView, state: CheckState) -> CheckView {
    CheckView { current: Some(c), state, ..v }
}

/// The check after the owner of the selection and the name of the server's
/// atom have been fetched.
pub open spec fn spec_complete_atom_check(v: CheckView, owner: Window, name: Seq<u8>) -> CheckView {
    if name != encode_utf8(v.core.name) {
        spec_fail(v, ConnectError::AtomNameMismatch)
    } else {
        with_server(
            v,
            ServerView { owner_window: Some(owner), ..v.current.unwrap() },
            CheckState::GeneratingXidForRequestor,
        )
    }
}

/// The steps at which an XID is awaited.
pub open spec fn awaits_xid(s: CheckState) -> bool {
    s == CheckState::GeneratingXidForRequestor || s == CheckState::GeneratingXidForClient
}

/// The check after an XID has been generated: for the requestor window,
/// which is then created, or for the client window, which is then created.
pub open spec fn spec_complete_xid(v: CheckView, id: u32) -> CheckView {
    if v.state == CheckState::GeneratingXidForRequestor {
        with_server(
            v,
            ServerView { requestor_window: Some(id), ..v.current.unwrap() },
            CheckState::CreatingWindow,
        )
    } else {
        with_server(
            v,
            ServerView { client_window: Some(id), ..v.current.unwrap() },
            CheckState::CreatingClientWindow,
        )
    }
}

/// The steps at which a request or frame without an answer is awaited.
pub open spec fn awaits_request(s: CheckState) -> bool {
    s == CheckState::CreatingWindow || s == CheckState::DeletingWindow || s
        == CheckState::ConvertSelection || s == CheckState::WindowNotNeeded || s
        == CheckState::CreatingClientWindow || s == CheckState::InvolvingClientWindow || s
        == CheckState::SendConnectFrame || s == CheckState::SendOpenFrame
}

/// The check after a request or frame without an answer has been completed.
pub open spec fn spec_complete_request(v: CheckView) -> CheckView {
    match v.state {
        CheckState::CreatingWindow => CheckView { state: CheckState::ConvertSelection, ..v },
        CheckState::DeletingWindow => CheckView { current: None, state: CheckState::Initial, ..v },
        CheckState::ConvertSelection => CheckView { state: CheckState::WaitForSelNotify, ..v },
        CheckState::WindowNotNeeded => with_server(
            v,
            ServerView { requestor_window: None, ..v.current.unwrap() },
            CheckState::GeneratingXidForClient,
        ),
        CheckState::CreatingClientWindow => CheckView {
            state: CheckState::InvolvingClientWindow,
            ..v
        },
        CheckState::InvolvingClientWindow => CheckView {
            state: CheckState::WaitForClientNotify,
            ..v
        },
        CheckState::SendConnectFrame => CheckView { state: CheckState::WaitForConnectReply, ..v },
        CheckState::SendOpenFrame => CheckView { state: CheckState::WaitForOpenReply, ..v },
        _ => v,
    }
}

/// The check once the connection to the server's address is established:
/// the connect frame is next.
pub open spec fn spec_complete_establish(v: CheckView) -> CheckView {
    CheckView { state: CheckState::SendConnectFrame, ..v }
}

/// The check after the server's `XIM_CONNECT_REPLY`: the open frame is next.
pub open spec fn spec_complete_connect_reply(v: CheckView) -> CheckView {
    CheckView { state: CheckState::SendOpenFrame, ..v }
}

/// Whether a selection notification is the one the check waits for.
pub open spec fn takes_selection_notify(v: CheckView, n: SelectionNotifyEvent) -> bool {
    v.state == CheckState::WaitForSelNotify && n.requestor == v.current.unwrap().requestor_window.unwrap()
}

/// The check after the selection notification it waits for.
pub open spec fn spec_complete_selection_notify(v: CheckView, n: SelectionNotifyEvent) -> CheckView {
    if n.selection == spec_atom_none() {
        spec_fail(v, ConnectError::NoServerAtom)
    } else {
        CheckView { state: CheckState::GetTransport, ..v }
    }
}

/// Whether a client message is the one the check waits for.
pub open spec fn takes_client_message(v: CheckView, m: ClientMessageEvent) -> bool {
    v.state == CheckState::WaitForClientNotify && m.type_ == v.core.atoms[4]
}

/// The check after the client message it waits for: the message names the
/// accept window.
pub open spec fn spec_complete_client_message(v: CheckView, m: ClientMessageEvent) -> CheckView {
    with_server(
        v,
        ServerView { accept_window: Some(native_words_of(m.data@)[0]), ..v.current.unwrap() },
        CheckState::EstablishingConnection,
    )
}

/// The index of the first `/` or `,` in `s` at or after `start`, or the
/// length of `s` when there is none.
pub open spec fn first_sep_from(s: Seq<u8>, start: int) -> int
    decreases s.len() - start,
{
    if start < 0 || start >= s.len() {
        s.len() as int
    } else if s[start] == 47u8 || s[start] == 44u8 {
        start
    } else {
        first_sep_from(s, start + 1)
    }
}

/// The address that a transport names: the protocol before the first `/` or
/// `,`, and the host between it and the next one.
pub open spec fn spec_parse_address(s: Seq<u8>) -> Result<(Protocol, Seq<u8>), ConnectError> {
    let i = first_sep_from(s, 0);
    if i == s.len() {
        Err(ConnectError::BadProtocol(BadProtocol))
    } else {
        let j = first_sep_from(s, i + 1);
        match super::spec_protocol_from_name(s.subrange(0, i)) {
            Ok(p) => Ok((p, s.subrange(i + 1, j))),
            Err(e) => Err(ConnectError::BadProtocol(e)),
        }
    }
}

/// The length in bytes of the value of a property reply.
pub open spec fn property_len(reply: GetPropertyReply) -> int {
    reply.value_len * (reply.format / 8)
}

/// The transport that a property reply holds: its value, cut to the length
/// that the reply gives.
pub open spec fn transport_of(reply: GetPropertyReply) -> Seq<u8> {
    let n = property_len(reply);
    if n < reply.value@.len() {
        reply.value@.take(n)
    } else {
        reply.value@
    }
}

/// The check after the transport property has been fetched.
pub open spec fn spec_complete_property_reply(v: CheckView, reply: GetPropertyReply) -> CheckView {
    match spec_parse_address(transport_of(reply)) {
        Ok(a) => with_server(
            v,
            ServerView { address: Some(a), ..v.current.unwrap() },
            CheckState::WindowNotNeeded,
        ),
        Err(e) => spec_fail(v, e),
    }
}

/// The check after the server's `XIM_OPEN_REPLY`.
pub open spec fn spec_complete_open_reply(v: CheckView, input_method_id: u16) -> CheckView {
    with_server(
        v,
        ServerView { connect_id: Some(input_method_id), ..v.current.unwrap() },
        CheckState::Complete,
    )
}

/// Whether `complete` can take `c` at the check's step.
pub open spec fn accepts_completion(v: CheckView, c: Completion) -> bool {
    match c {
        Completion::AtomCheck(..) => v.state == CheckState::Querying,
        Completion::XidGenerated(_) => awaits_xid(v.state),
        Completion::RequestCompleted => awaits_request(v.state),
        Completion::SelectionNotifyEvent(_) => true,
        Completion::ClientMessageEvent(_) => true,
        Completion::Property(p) => v.state == CheckState::GetTransport && property_len(p)
            <= usize::MAX,
        Completion::ConnectReply(_) => v.state == CheckState::WaitForConnectReply,
        Completion::OpenReply(_) => v.state == CheckState::WaitForOpenReply,
    }
}

/// The check after `complete` took `c`, and whether it handed back an event
/// that it was not waiting for.
pub open spec fn spec_complete(v: CheckView, c: Completion) -> (CheckView, bool) {
    match c {
        Completion::AtomCheck(sel, atom) => (
            spec_complete_atom_check(v, sel.owner, atom.name@),
            false,
        ),
        Completion::XidGenerated(id) => (spec_complete_xid(v, id), false),
        Completion::RequestCompleted => (spec_complete_request(v), false),
        Completion::SelectionNotifyEvent(n) => if takes_selection_notify(v, n) {
            (spec_complete_selection_notify(v, n), false)
        } else {
            (v, true)
        },
        Completion::ClientMessageEvent(m) => if takes_client_message(v, m) {
            (spec_complete_client_message(v, m), false)
        } else {
            (v, true)
        },
        Completion::Property(p) => (spec_complete_property_reply(v, p), false),
        Completion::ConnectReply(_) => (spec_complete_connect_reply(v), false),
        Completion::OpenReply(o) => (spec_complete_open_reply(v, o.input_method_id), false),
    }
}

/// The handshake with a server that answers as it should ends in a
/// connection: from the query of a server's atom, each directive completed
/// successfully (the atom's name matches, the selection is owned, the
/// transport names a known protocol, the server's client message arrives,
/// the connection is established and both frames are answered) leads through
/// every step in turn, each handing out its directive, to a complete check
/// from which `build` makes the connection.
#[verifier::rlimit(50)]
pub proof fn lemma_handshake_completes(
    v0: CheckView,
    owner: Window,
    name: Seq<u8>,
    requestor: Window,
    notify: SelectionNotifyEvent,
    reply: GetPropertyReply,
    client: Window,
    message: ClientMessageEvent,
    input_method_id: u16,
)
    requires
        check_wf(v0),
        v0.state == CheckState::Querying,
        name == encode_utf8(v0.core.name),
        notify.requestor == requestor,
        notify.selection != spec_atom_none(),
        spec_parse_address(transport_of(reply)) is Ok,
        property_len(reply) <= usize::MAX,
        message.type_ == v0.core.atoms[4],
    ensures
        ({
            let v1 = spec_complete_atom_check(v0, owner, name);
            let v2 = spec_complete_xid(v1, requestor);
            let v3 = spec_complete_request(v2);
            let v4 = spec_complete_request(v3);
            let v5 = spec_complete_selection_notify(v4, notify);
            let v6 = spec_complete_property_reply(v5, reply);
            let v7 = spec_complete_request(v6);
            let v8 = spec_complete_xid(v7, client);
            let v9 = spec_complete_request(v8);
            let v10 = spec_complete_request(v9);
            let v11 = spec_complete_client_message(v10, message);
            let v12 = spec_complete_establish(v11);
            let v13 = spec_complete_request(v12);
            let v14 = spec_complete_connect_reply(v13);
            let v15 = spec_complete_request(v14);
            let v16 = spec_complete_open_reply(v15, input_method_id);
            let address = spec_parse_address(transport_of(reply)).unwrap();
            let accept = native_words_of(message.data@)[0];
            &&& v1.state == CheckState::GeneratingXidForRequestor
            &&& spec_directive(v1) == Some(DirectiveView::GenerateXid)
            &&& v2.state == CheckState::CreatingWindow
            &&& spec_directive(v2) == Some(DirectiveView::CreateWindow(small_window(v2, requestor)))
            &&& v3.state == CheckState::ConvertSelection && awaits_request(v2.state)
            &&& v4.state == CheckState::WaitForSelNotify && awaits_request(v3.state)
            &&& spec_directive(v4) == Some(DirectiveView::GetSelectionNotify)
            &&& takes_selection_notify(v4, notify)
            &&& v5.state == CheckState::GetTransport
            &&& spec_directive(v5) == Some(
                DirectiveView::GetProperty(
                    GetPropertyRequest {
                        delete: true,
                        window: requestor,
                        property: v0.core.atoms[2],
                        type_: v0.core.atoms[2],
                        long_offset: 0,
                        long_length: 10000,
                    },
                ),
            )
            &&& accepts_completion(v5, Completion::Property(reply))
            &&& v6.state == CheckState::WindowNotNeeded
            &&& spec_directive(v6) == Some(
                DirectiveView::DeleteWindow(DestroyWindowRequest { window: requestor }),
            )
            &&& v7.state == CheckState::GeneratingXidForClient && awaits_request(v6.state)
            &&& spec_directive(v7) == Some(DirectiveView::GenerateXid)
            &&& awaits_xid(v7.state)
            &&& v8.state == CheckState::CreatingClientWindow
            &&& spec_directive(v8) == Some(DirectiveView::CreateWindow(small_window(v8, client)))
            &&& v9.state == CheckState::InvolvingClientWindow && awaits_request(v8.state)
            &&& spec_directive(v9) matches Some(DirectiveView::SendEvent(e)) && e.destination
                == owner && e.event.window == owner && e.event.type_ == v0.core.atoms[4]
                && e.event.data == native_words_bytes(seq![client, 0u32, 0u32, 0u32, 0u32])
            &&& v10.state == CheckState::WaitForClientNotify && awaits_request(v9.state)
            &&& spec_directive(v10) == Some(DirectiveView::GetClientMessage)
            &&& takes_client_message(v10, message)
            &&& v11.state == CheckState::EstablishingConnection
            &&& spec_directive(v11) == Some(DirectiveView::Connect(address))
            &&& v12.state == CheckState::SendConnectFrame
            &&& spec_directive(v12) matches Some(
                DirectiveView::SendFrame { frame: FrameView::Connect { .. }, window, sequence, .. },
            ) && window == accept && sequence == 0
            &&& v13.state == CheckState::WaitForConnectReply && awaits_request(v12.state)
            &&& spec_directive(v13) == Some(DirectiveView::RecvFrame)
            &&& v14.state == CheckState::SendOpenFrame
            &&& spec_directive(v14) matches Some(
                DirectiveView::SendFrame { frame: FrameView::Open { .. }, window, sequence, .. },
            ) && window == accept && sequence == 1
            &&& v15.state == CheckState::WaitForOpenReply && awaits_request(v14.state)
            &&& spec_directive(v15) == Some(DirectiveView::RecvFrame)
            &&& v16.state == CheckState::Complete
            &&& spec_directive(v16) is None
            &&& check_wf(v16)
            &&& builds(v16)
            &&& v16.current.unwrap().client_window == Some(client)
            &&& v16.current.unwrap().accept_window == Some(accept)
            &&& v16.current.unwrap().connect_id == Some(input_method_id)
            &&& v16.core.atoms[3] == v0.core.atoms[3]
        }),
{
}

/// `complete` does what the method for its kind of completion does, and
/// takes a completion exactly where that method can be called: an atom
/// check while querying, an XID while one is awaited, a completed request
/// while a request without an answer is awaited, the transport's property
/// while it is fetched, each reply frame while it is awaited. Events are
/// taken at any step; one the check does not wait for comes back, and the
/// check does not move.
pub proof fn lemma_complete_dispatches(v: CheckView, c: Completion)
    ensures
        match c {
            Completion::AtomCheck(sel, atom) => {
                &&& accepts_completion(v, c) == (v.state == CheckState::Querying)
                &&& spec_complete(v, c) == (spec_complete_atom_check(v, sel.owner, atom.name@), false)
            },
            Completion::XidGenerated(id) => {
                &&& accepts_completion(v, c) == awaits_xid(v.state)
                &&& spec_complete(v, c) == (spec_complete_xid(v, id), false)
            },
            Completion::RequestCompleted => {
                &&& accepts_completion(v, c) == awaits_request(v.state)
                &&& spec_complete(v, c) == (spec_complete_request(v), false)
            },
            Completion::SelectionNotifyEvent(n) => {
                &&& accepts_completion(v, c)
                &&& takes_selection_notify(v, n) ==> spec_complete(v, c) == (
                    spec_complete_selection_notify(v, n),
                    false,
                )
                &&& !takes_selection_notify(v, n) ==> spec_complete(v, c) == (v, true)
            },
            Completion::ClientMessageEvent(m) => {
                &&& accepts_completion(v, c)
                &&& takes_client_message(v, m) ==> spec_complete(v, c) == (
                    spec_complete_client_message(v, m),
                    false,
                )
                &&& !takes_client_message(v, m) ==> spec_complete(v, c) == (v, true)
            },
            Completion::Property(p) => {
                &&& accepts_completion(v, c) == (v.state == CheckState::GetTransport && property_len(
                    p,
                ) <= usize::MAX)
                &&& spec_complete(v, c) == (spec_complete_property_reply(v, p), false)
            },
            Completion::ConnectReply(_) => {
                &&& accepts_completion(v, c) == (v.state == CheckState::WaitForConnectReply)
                &&& spec_complete(v, c) == (spec_complete_connect_reply(v), false)
            },
            Completion::OpenReply(o) => {
                &&& accepts_completion(v, c) == (v.state == CheckState::WaitForOpenReply)
                &&& spec_complete(v, c) == (spec_complete_open_reply(v, o.input_method_id), false)
            },
        },
{
}

/// A `/` or a `,`: what separates the pieces of a transport.
pub open spec fn is_transport_sep(b: u8) -> bool {
    b == 47u8 || b == 44u8
}

/// `first_sep_from` finds the first separator at or after `start`: none
/// stands before it, and it is one unless it is the end.
proof fn lemma_first_sep_from(s: Seq<u8>, start: int)
    requires
        0 <= start <= s.len(),
    ensures
        start <= first_sep_from(s, start) <= s.len(),
        forall|k: int| start <= k < first_sep_from(s, start) ==> !is_transport_sep(#[trigger] s[k]),
        first_sep_from(s, start) < s.len() ==> is_transport_sep(s[first_sep_from(s, start)]),
    decreases s.len() - start,
{
    if start < s.len() && !(s[start] == 47u8 || s[start] == 44u8) {
        lemma_first_sep_from(s, start + 1);
    }
}

/// How a transport is read, given the position `i` of its first `/` or `,`
/// (or its end, when it has none). A transport without a separator is
/// refused. Otherwise the protocol is named by the bytes before `i`, and
/// the host is the bytes after `i` up to the next `/` or `,`, or up to the
/// end: it holds no separator, and what follows it is a separator or
/// nothing. An unknown protocol name is refused.
pub proof fn lemma_parse_address_pieces(s: Seq<u8>, i: int)
    requires
        0 <= i <= s.len(),
        i < s.len() ==> is_transport_sep(s[i]),
        forall|k: int| 0 <= k < i ==> !is_transport_sep(#[trigger] s[k]),
    ensures
        i == s.len() ==> spec_parse_address(s) == Err::<(Protocol, Seq<u8>), ConnectError>(
            ConnectError::BadProtocol(BadProtocol),
        ),
        i < s.len() ==> match spec_parse_address(s) {
            Ok((p, host)) => {
                &&& super::spec_protocol_from_name(s.take(i)) == Ok::<Protocol, BadProtocol>(p)
                &&& i + 1 + host.len() <= s.len()
                &&& s.subrange(i + 1, i + 1 + host.len()) == host
                &&& forall|k: int| 0 <= k < host.len() ==> !is_transport_sep(#[trigger] host[k])
                &&& (i + 1 + host.len() == s.len() || is_transport_sep(s[i + 1 + host.len()]))
            },
            Err(e) => {
                &&& super::spec_protocol_from_name(s.take(i)) is Err
                &&& e == ConnectError::BadProtocol(BadProtocol)
            },
        },
{
    lemma_first_sep_from(s, 0);
    let r = first_sep_from(s, 0);
    if r < i {
        assert(!is_transport_sep(s[r]));
    }
    if i < r {
        assert(!is_transport_sep(s[i]));
    }
    assert(r == i);
    if i < s.len() {
        lemma_first_sep_from(s, i + 1);
        let j = first_sep_from(s, i + 1);
        let host = s.subrange(i + 1, j);
        assert forall|k: int| 0 <= k < host.len() implies !is_transport_sep(#[trigger] host[k]) by {
            assert(host[k] == s[i + 1 + k]);
        }
    }
}

/// The atom check goes on with the server only when the name of the
/// server's atom is the builder's name, byte for byte: then the owner of the
/// selection is kept and an XID for the requestor window is asked for next.
/// Any other name is met with `AtomNameMismatch`, recorded as the last
/// error, and the check starts over: with no server under check, the next
/// directive fetches the next server's atom, if one is left.
pub proof fn lemma_atom_check_needs_name(v: CheckView, owner: Window, name: Seq<u8>)
    requires
        check_wf(v),
        v.state == CheckState::Querying,
    ensures
        ({
            let w = spec_complete_atom_check(v, owner, name);
            &&& w.next == v.next
            &&& w.servers == v.servers
            &&& name == encode_utf8(v.core.name) ==> {
                &&& w.state == CheckState::GeneratingXidForRequestor
                &&& w.current == Some(ServerView { owner_window: Some(owner), ..v.current.unwrap() })
                &&& w.last_err == v.last_err
                &&& spec_directive(w) == Some(DirectiveView::GenerateXid)
            }
            &&& name != encode_utf8(v.core.name) ==> {
                &&& w.state == CheckState::Initial
                &&& w.current is None
                &&& w.last_err == Some(ConnectError::AtomNameMismatch)
                &&& v.next < v.servers.len() ==> spec_directive(spec_advance(w)) == Some(
                    DirectiveView::FetchAtomInfo(
                        GetSelectionOwnerRequest { selection: v.servers[v.next] },
                        GetAtomNameRequest { atom: v.servers[v.next] },
                    ),
                )
                &&& v.next == v.servers.len() ==> spec_advance(w) == w && spec_directive(w) is None
            }
        }),
{
}

/// A step that fails records its error as the last one met, whatever error
/// was recorded before, and leaves the check incomplete, so that `build`
/// then reports that error.
pub proof fn lemma_fail_records_error(v: CheckView, e: ConnectError)
    requires
        check_wf(v),
    ensures
        spec_fail(v, e).last_err == Some(e),
        !builds(spec_fail(v, e)),
        spec_build_error(spec_fail(v, e)) == e,
{
}

/// Steps that meet no error leave the last error as it was: taking up the
/// next server, an XID, a completed request (the deletion of a window among
/// them), an establishment, a reply frame, an accepted event. So `build`
/// reports the error of the most recent step that failed.
pub proof fn lemma_steps_keep_last_error(
    v: CheckView,
    id: u32,
    n: SelectionNotifyEvent,
    m: ClientMessageEvent,
    input_method_id: u16,
)
    ensures
        spec_advance(v).last_err == v.last_err,
        spec_complete_xid(v, id).last_err == v.last_err,
        spec_complete_request(v).last_err == v.last_err,
        spec_complete_establish(v).last_err == v.last_err,
        spec_complete_connect_reply(v).last_err == v.last_err,
        spec_complete_open_reply(v, input_method_id).last_err == v.last_err,
        n.selection != spec_atom_none() ==> spec_complete_selection_notify(v, n).last_err
            == v.last_err,
        n.selection == spec_atom_none() ==> spec_complete_selection_notify(v, n).last_err == Some(
            ConnectError::NoServerAtom,
        ),
        spec_complete_client_message(v, m).last_err == v.last_err,
{
}

/// The transport's reply: a transport that parses becomes the server's
/// address and the requestor window is deleted next, as no longer needed;
/// one that does not is refused with its error, recorded as the last one
/// met, and the requestor window is deleted before the check starts over.
pub proof fn lemma_property_reply_outcome(v: CheckView, reply: GetPropertyReply)
    requires
        check_wf(v),
        v.state == CheckState::GetTransport,
    ensures
        ({
            let w = spec_complete_property_reply(v, reply);
            &&& spec_parse_address(transport_of(reply)) matches Ok(a) ==> {
                &&& w.state == CheckState::WindowNotNeeded
                &&& w.current == Some(ServerView { address: Some(a), ..v.current.unwrap() })
                &&& w.last_err == v.last_err
            }
            &&& spec_parse_address(transport_of(reply)) matches Err(e) ==> {
                &&& w.state == CheckState::DeletingWindow
                &&& w.current == v.current
                &&& w.last_err == Some(e)
            }
        }),
{
}

/// At the step that fetches the transport, the directive reads the server's
/// `TRANSPORT` property, as its own type, from the requestor window, from
/// the property's start (offset 0), up to 10000 units, deleting it once read.
pub proof fn lemma_transport_request(v: CheckView)
    requires
        check_wf(v),
        v.state == CheckState::GetTransport,
    ensures
        spec_directive(v) matches Some(DirectiveView::GetProperty(req)) && {
            &&& req.delete
            &&& req.window == v.current.unwrap().requestor_window.unwrap()
            &&& req.property == v.core.atoms[2]
            &&& req.type_ == v.core.atoms[2]
            &&& req.long_offset == 0
            &&& req.long_length == 10000
        },
{
}

/// The error `build` reports when the check is not complete.
pub open spec fn spec_build_error(v: CheckView) -> ConnectError {
    match v.last_err {
        Some(e) => e,
        None => ConnectError::Incomplete,
    }
}

/// Whether the check has everything that a connection needs.
pub open spec fn builds(v: CheckView) -> bool {
    &&& v.state == CheckState::Complete
    &&& v.current is Some
    &&& v.current.unwrap().accept_window is Some
    &&& v.current.unwrap().connect_id is Some
    &&& v.current.unwrap().client_window is Some
}

/// Compare two byte strings.
fn bytes_eq(a: &[u8], b: &[u8]) -> (r: bool)
    ensures
        r == (a@ == b@),
{
    if a.len() != b.len() {
        return false;
    }
    let n = a.len();
    let mut i: usize = 0;
    while i < n
        invariant
            n == a@.len(),
            n == b@.len(),
            i <= n,
            forall|k: int| 0 <= k < i ==> a@[k] == b@[k],
        decreases n - i,
    {
        if a[i] != b[i] {
            return false;
        }
        i = i + 1;
    }
    assert(a@ =~= b@);
    true
}

/// The index of the first `/` or `,` in `s` at or after `start`, or the
/// length of `s` when there is none.
fn find_sep(s: &[u8], start: usize) -> (r: usize)
    requires
        start <= s@.len(),
    ensures
        r == first_sep_from(s@, start as int),
        start <= r <= s@.len(),
{
    let mut i = start;
    while i < s.len()
        invariant
            start <= i <= s@.len(),
            first_sep_from(s@, start as int) == first_sep_from(s@, i as int),
        decreases s@.len() - i,
    {
        if s[i] == 47u8 || s[i] == 44u8 {
            return i;
        }
        i = i + 1;
    }
    i
}

/// The address that a transport names.
pub(crate) fn parse_address(address: &[u8]) -> (r: Result<Address, ConnectError>)
    ensures
        match (r, spec_parse_address(address@)) {
            (Ok(a), Ok(sa)) => a@ == sa,
            (Err(e), Err(se)) => e == se,
            _ => false,
        },
{
    // split by comma or slash
    let i = find_sep(address, 0);
    if i == address.len() {
        return Err(ConnectError::BadProtocol(BadProtocol));
    }
    let j = find_sep(address, i + 1);
    let protocol = vstd::slice::slice_subrange(address, 0, i);
    let host = vstd::slice::slice_subrange(address, i + 1, j);

    // parse the protocol
    match Protocol::from_name(protocol) {
        Ok(p) => Ok(Address::new(p, vstd::slice::slice_to_vec(host))),
        Err(e) => Err(ConnectError::BadProtocol(e)),
    }
}

impl StageCheckServers {
    /// The check's bookkeeping holds together.
    pub closed spec fn wf(&self) -> bool {
        &&& check_wf(self@)
        &&& self.next <= self.servers@.len()
    }

    /// What a well-formed check guarantees: `check_wf` of its view, so the
    /// server under check is as far along as the step, and the laws stated
    /// over `check_wf` apply to it.
    pub proof fn lemma_wf(&self)
        requires
            self.wf(),
        ensures
            check_wf(self@),
    {
    }

    /// Take the server under check out, leaving none.
    fn take_server(&mut self) -> (r: CurrentServer)
        requires
            old(self).current_server is Some,
        ensures
            r == old(self).current_server.unwrap(),
            final(self).current_server is None,
            final(self).core == old(self).core,
            final(self).servers == old(self).servers,
            final(self).next == old(self).next,
            final(self).check_state == old(self).check_state,
            final(self).last_err == old(self).last_err,
    {
        let mut cur: Option<CurrentServer> = None;
        core::mem::swap(&mut cur, &mut self.current_server);
        match cur {
            Some(c) => c,
            None => vstd::pervasive::unreached(),
        }
    }

    /// Indicate that an error has occurred and that we should ignore this server.
    pub fn early_out(&mut self)
        requires
            old(self).wf(),
        ensures
            final(self).wf(),
            final(self)@ == spec_early_out(old(self)@),
    {
        let r = self.check_state.rank();
        if r > 3 && r < 8 {
            // we need to safely delete the requestor window
            self.check_state = CheckState::DeletingWindow;
        } else {
            // empty out server and reset
            self.current_server = None;
            self.check_state = CheckState::Initial;
        }
    }

    fn fail(&mut self, e: ConnectError)
        requires
            old(self).wf(),
        ensures
            final(self).wf(),
            final(self)@ == spec_fail(old(self)@, e),
    {
        self.last_err = Some(e);
        self.early_out();
    }

    /// Get the next directive: what the user has to do, at this step, with
    /// the server under check, after taking up the next server if none is
    /// under check. `None` once the servers are used up or the check is complete.
    pub fn next_directive(&mut self) -> (r: Option<ServerCheckDirective>)
        requires
            old(self).wf(),
        ensures
            final(self).wf(),
            final(self)@ == spec_advance(old(self)@),
            directive_for(final(self)@, r),
    {
        if self.check_state == CheckState::Initial {
            if self.next >= self.servers.len() {
                return None;
            }
            let next_server = self.servers[self.next];
            self.next = self.next + 1;
            self.current_server = Some(
                CurrentServer {
                    server: next_server,
                    owner_window: None,
                    requestor_window: None,
                    client_window: None,
                    accept_window: None,
                    address: None,
                    connect_id: None,
                },
            );
            self.check_state = CheckState::Querying;
        }
        let cur = match &self.current_server {
            Some(c) => c,
            None => vstd::pervasive::unreached(),
        };
        match self.check_state {
            CheckState::Initial | CheckState::Complete => None,
            CheckState::Querying => {
                // return the requests we need
                let atom = cur.server;
                Some(
                    ServerCheckDirective::FetchAtomInfo(
                        GetSelectionOwnerRequest { selection: atom },
                        GetAtomNameRequest { atom },
                    ),
                )
            },
            CheckState::GeneratingXidForRequestor | CheckState::GeneratingXidForClient => {
                Some(ServerCheckDirective::GenerateXid)
            },
            CheckState::CreatingWindow => {
                let wid = match cur.requestor_window {
                    Some(w) => w,
                    None => vstd::pervasive::unreached(),
                };
                Some(ServerCheckDirective::CreateWindow(self.small_window(wid)))
            },
            CheckState::DeletingWindow | CheckState::WindowNotNeeded => {
                let window = match cur.requestor_window {
                    Some(w) => w,
                    None => vstd::pervasive::unreached(),
                };
                Some(ServerCheckDirective::DeleteWindow(DestroyWindowRequest { window }))
            },
            CheckState::ConvertSelection => {
                let requestor = match cur.requestor_window {
                    Some(w) => w,
                    None => vstd::pervasive::unreached(),
                };
                Some(
                    ServerCheckDirective::ConvertSelection(
                        ConvertSelectionRequest {
                            requestor,
                            selection: cur.server,
                            target: self.core.atoms[TRANSPORT_INDEX],
                            property: self.core.atoms[TRANSPORT_INDEX],
                            time: 0,  // current time
                        },
                    ),
                )
            },
            CheckState::WaitForSelNotify => Some(ServerCheckDirective::GetSelectionNotify),
            CheckState::GetTransport => {
                let window = match cur.requestor_window {
                    Some(w) => w,
                    None => vstd::pervasive::unreached(),
                };
                Some(
                    ServerCheckDirective::GetProperty(
                        GetPropertyRequest {
                            delete: true,
                            window,
                            property: self.core.atoms[TRANSPORT_INDEX],
                            type_: self.core.atoms[TRANSPORT_INDEX],
                            long_offset: 0,
                            long_length: 10000,
                        },
                    ),
                )
            },
            CheckState::CreatingClientWindow => {
                let wid = match cur.client_window {
                    Some(w) => w,
                    None => vstd::pervasive::unreached(),
                };
                Some(ServerCheckDirective::CreateWindow(self.small_window(wid)))
            },
            CheckState::InvolvingClientWindow => {
                // we need to send a message
                let client = match cur.client_window {
                    Some(w) => w,
                    None => vstd::pervasive::unreached(),
                };
                let owner = match cur.owner_window {
                    Some(w) => w,
                    None => vstd::pervasive::unreached(),
                };
                let data: [u32; 5] = [client, 0, 0, 0, 0];
                assert(data@ =~= seq![client, 0u32, 0u32, 0u32, 0u32]);
                let message = ClientMessageEvent {
                    response_type: client_message_event(),
                    format: 32,
                    sequence: 0,
                    type_: self.core.atoms[CONNECT_INDEX],
                    window: owner,
                    data: ClientMessageData::from_data32(data),
                };
                Some(
                    ServerCheckDirective::SendEvent(
                        SendEventRequest {
                            propagate: false,
                            destination: owner,
                            event_mask: event_mask_no_event(),
                            event: message,
                        },
                    ),
                )
            },
            CheckState::WaitForClientNotify => Some(ServerCheckDirective::GetClientMessage),
            CheckState::EstablishingConnection => {
                let address = match &cur.address {
                    Some(a) => a.duplicate(),
                    None => vstd::pervasive::unreached(),
                };
                Some(ServerCheckDirective::Connect(address))
            },
            CheckState::SendConnectFrame => {
                let window = match cur.accept_window {
                    Some(w) => w,
                    None => vstd::pervasive::unreached(),
                };
                let names: Vec<Vec<u8>> = Vec::new();
                assert(names@.map_values(|n: Vec<u8>| n@) =~= seq![]);
                Some(
                    ServerCheckDirective::SendFrame {
                        frame: XimFrame::ConnectFr(
                            ConnectFr {
                                byte_order: byte_order(),
                                client_major_protocol_version: 0,
                                client_minor_protocol_version: 0,
                                client_auth_protocol_names: names,
                            },
                        ),
                        window,
                        protocol_atom: self.core.atoms[PROTOCOL_INDEX],
                        sequence: 0,
                    },
                )
            },
            CheckState::WaitForConnectReply | CheckState::WaitForOpenReply => {
                Some(ServerCheckDirective::RecvFrame)
            },
            CheckState::SendOpenFrame => {
                let window = match cur.accept_window {
                    Some(w) => w,
                    None => vstd::pervasive::unreached(),
                };
                Some(
                    ServerCheckDirective::SendFrame {
                        frame: XimFrame::OpenFr(OpenFr { field1: StrFr { string: Vec::new() } }),
                        window,
                        protocol_atom: self.core.atoms[PROTOCOL_INDEX],
                        sequence: 1,
                    },
                )
            },
        }
    }

    fn small_window(&self, wid: Window) -> (r: CreateWindowRequest)
        ensures
            r == small_window(self@, wid),
    {
        CreateWindowRequest {
            depth: 0,
            wid,
            parent: self.core.root.root,
            x: 0,
            y: 0,
            width: 1,
            height: 1,
            border_width: 1,
            class: window_class_input_output(),
            visual: self.core.root.root_visual,
        }
    }

    /// Indicate that we've completed the atom check: the owner of the
    /// server's selection and the name of the server's atom.
    pub fn complete_atom_check(
        &mut self,
        sel_reply: GetSelectionOwnerReply,
        atom_reply: GetAtomNameReply,
    )
        requires
            old(self).wf(),
            old(self)@.state == CheckState::Querying,
        ensures
            final(self).wf(),
            final(self)@ == spec_complete_atom_check(old(self)@, sel_reply.owner, atom_reply.name@),
    {
        // short-circuit out if the atom's name doesn't match our target name
        if !bytes_eq(atom_reply.name.as_slice(), self.core.name.as_str().as_bytes()) {
            self.fail(ConnectError::AtomNameMismatch);
            return;
        }
        // begin creating the requestor window
        let mut cur = self.take_server();
        cur.owner_window = Some(sel_reply.owner);
        self.current_server = Some(cur);
        self.check_state = CheckState::GeneratingXidForRequestor;
    }

    /// Indicate that we've generated an XID: for the requestor window, or,
    /// once the transport is known, for the client window.
    pub fn complete_xid(&mut self, id: u32)
        requires
            old(self).wf(),
            awaits_xid(old(self)@.state),
        ensures
            final(self).wf(),
            final(self)@ == spec_complete_xid(old(self)@, id),
    {
        let mut cur = self.take_server();
        if self.check_state == CheckState::GeneratingXidForRequestor {
            // begin creating the requestor window
            cur.requestor_window = Some(id);
            self.current_server = Some(cur);
            self.check_state = CheckState::CreatingWindow;
        } else {
            // begin creating the client window
            cur.client_window = Some(id);
            self.current_server = Some(cur);
            self.check_state = CheckState::CreatingClientWindow;
        }
    }

    /// Indicate that we've completed a request or frame that doesn't have an output.
    pub fn complete_request(&mut self)
        requires
            old(self).wf(),
            awaits_request(old(self)@.state),
        ensures
            final(self).wf(),
            final(self)@ == spec_complete_request(old(self)@),
    {
        match self.check_state {
            CheckState::CreatingWindow => {
                // move on to the next stage now that requestor_window is complete
                self.check_state = CheckState::ConvertSelection;
            },
            CheckState::DeletingWindow => {
                // start over again
                self.current_server = None;
                self.check_state = CheckState::Initial;
            },
            CheckState::ConvertSelection => {
                // now we wait for a selection notify event
                self.check_state = CheckState::WaitForSelNotify;
            },
            CheckState::WindowNotNeeded => {
                // request window is now deleted
                let mut cur = self.take_server();
                cur.requestor_window = None;
                self.current_server = Some(cur);
                // move onto opening the connection
                self.check_state = CheckState::GeneratingXidForClient;
            },
            CheckState::CreatingClientWindow => {
                // tell the server about the client window
                self.check_state = CheckState::InvolvingClientWindow;
            },
            CheckState::InvolvingClientWindow => {
                // now we wait for the server to answer
                self.check_state = CheckState::WaitForClientNotify;
            },
            CheckState::SendConnectFrame => {
                self.check_state = CheckState::WaitForConnectReply;
            },
            CheckState::SendOpenFrame => {
                self.check_state = CheckState::WaitForOpenReply;
            },
            _ => vstd::pervasive::unreached(),
        }
    }

    /// Indicate that we found a selection notify event; it comes back when it
    /// is not the one the check waits for.
    pub fn complete_selection_notify(&mut self, notify: SelectionNotifyEvent) -> (r: Result<
        (),
        SelectionNotifyEvent,
    >)
        requires
            old(self).wf(),
        ensures
            final(self).wf(),
            takes_selection_notify(old(self)@, notify) ==> r is Ok && final(self)@
                == spec_complete_selection_notify(old(self)@, notify),
            !takes_selection_notify(old(self)@, notify) ==> r == Err::<(), SelectionNotifyEvent>(
                notify,
            ) && final(self)@ == old(self)@,
    {
        if self.check_state != CheckState::WaitForSelNotify {
            return Err(notify);
        }
        let requestor = match &self.current_server {
            Some(c) => match c.requestor_window {
                Some(w) => w,
                None => vstd::pervasive::unreached(),
            },
            None => vstd::pervasive::unreached(),
        };
        // check to see if we want this selection
        if notify.requestor != requestor {
            return Err(notify);
        }
        if notify.selection == atom_none() {
            // this is an error.
            self.fail(ConnectError::NoServerAtom);
            return Ok(());
        }
        // we want this selection
        self.check_state = CheckState::GetTransport;
        Ok(())
    }

    /// Indicate that we've gotten a new client notification; it comes back
    /// when it is not the one the check waits for.
    pub fn complete_client_message(&mut self, message: ClientMessageEvent) -> (r: Result<
        (),
        ClientMessageEvent,
    >)
        requires
            old(self).wf(),
        ensures
            final(self).wf(),
            takes_client_message(old(self)@, message) ==> r is Ok && final(self)@
                == spec_complete_client_message(old(self)@, message),
            !takes_client_message(old(self)@, message) ==> (r matches Err(m) && m == message)
                && final(self)@ == old(self)@,
    {
        if self.check_state != CheckState::WaitForClientNotify {
            return Err(message);
        }
        // check to ensure it's ours
        if message.type_ != self.core.atoms[CONNECT_INDEX] {
            return Err(message);
        }
        let words = message.data.as_data32();
        let mut cur = self.take_server();
        cur.accept_window = Some(words[0]);
        self.current_server = Some(cur);
        self.check_state = CheckState::EstablishingConnection;
        Ok(())
    }

    /// Indicate that we've established a connection.
    pub fn complete_establish(&mut self)
        requires
            old(self).wf(),
            old(self)@.state == CheckState::EstablishingConnection,
        ensures
            final(self).wf(),
            final(self)@ == spec_complete_establish(old(self)@),
    {
        self.check_state = CheckState::SendConnectFrame;
    }

    /// Indicate that we got the reply with the transport property.
    pub fn complete_property_reply(&mut self, reply: GetPropertyReply)
        requires
            old(self).wf(),
            old(self)@.state == CheckState::GetTransport,
            property_len(reply) <= usize::MAX,
        ensures
            final(self).wf(),
            final(self)@ == spec_complete_property_reply(old(self)@, reply),
    {
        // parse the name of the transport into an address
        let ghost original = reply.value@;
        let transport_len = reply.value_len as usize * (reply.format as usize / 8);
        let mut transport_name = reply.value;
        transport_name.truncate(transport_len);
        assert(transport_name@ =~= (if transport_len < original.len() {
            original.take(transport_len as int)
        } else {
            original
        }));

        match parse_address(transport_name.as_slice()) {
            Err(err) => {
                self.fail(err);
            },
            Ok(address) => {
                let mut cur = self.take_server();
                cur.address = Some(address);
                self.current_server = Some(cur);
                // move on to the next stage
                self.check_state = CheckState::WindowNotNeeded;
            },
        }
    }

    /// Indicate that we've received a ConnectReply frame.
    pub fn complete_connect_reply_frame(&mut self, _fr: ConnectReplyFr)
        requires
            old(self).wf(),
            old(self)@.state == CheckState::WaitForConnectReply,
        ensures
            final(self).wf(),
            final(self)@ == spec_complete_connect_reply(old(self)@),
    {
        self.check_state = CheckState::SendOpenFrame;
    }

    /// Indicate that we've received an OpenReply frame.
    pub fn complete_open_reply_frame(&mut self, fr: OpenReplyFr)
        requires
            old(self).wf(),
            old(self)@.state == CheckState::WaitForOpenReply,
        ensures
            final(self).wf(),
            final(self)@ == spec_complete_open_reply(old(self)@, fr.input_method_id),
    {
        let mut cur = self.take_server();
        cur.connect_id = Some(fr.input_method_id);
        self.current_server = Some(cur);
        self.check_state = CheckState::Complete;
    }

    /// Call the specified completion event; an event that the check is not
    /// waiting for comes back.
    pub fn complete(&mut self, completion: Completion) -> (r: Result<(), Event>)
        requires
            old(self).wf(),
            accepts_completion(old(self)@, completion),
        ensures
            final(self).wf(),
            final(self)@ == spec_complete(old(self)@, completion).0,
            r is Err <==> spec_complete(old(self)@, completion).1,
            completion matches Completion::ClientMessageEvent(m) ==> (r is Err ==> r
                == Err::<(), Event>(Event::ClientMessage(m))),
            completion matches Completion::SelectionNotifyEvent(n) ==> (r is Err ==> r
                == Err::<(), Event>(Event::SelectionNotify(n))),
    {
        match completion {
            Completion::AtomCheck(gsor, iar) => {
                self.complete_atom_check(gsor, iar);
            },
            Completion::ClientMessageEvent(cme) => {
                if let Err(cme) = self.complete_client_message(cme) {
                    return Err(Event::ClientMessage(cme));
                }
            },
            Completion::ConnectReply(cfr) => {
                self.complete_connect_reply_frame(cfr);
            },
            Completion::OpenReply(ofr) => {
                self.complete_open_reply_frame(ofr);
            },
            Completion::Property(prop) => {
                self.complete_property_reply(prop);
            },
            Completion::RequestCompleted => {
                self.complete_request();
            },
            Completion::SelectionNotifyEvent(sne) => {
                if let Err(sne) = self.complete_selection_notify(sne) {
                    return Err(Event::SelectionNotify(sne));
                }
            },
            Completion::XidGenerated(xid) => {
                self.complete_xid(xid);
            },
        }
        Ok(())
    }

    /// Convert to the final stage of being a full instance: the connection
    /// when the check is complete, else the last error met.
    pub fn build(self) -> (r: Result<Xim, ConnectError>)
        requires
            self.wf(),
        ensures
            builds(self@) ==> (r matches Ok(x) && x@ == (XimView {
                sequence: 2,
                connect_id: self@.current.unwrap().connect_id.unwrap(),
                client: self@.current.unwrap().client_window.unwrap(),
                accept: self@.current.unwrap().accept_window.unwrap(),
                protocol: self@.core.atoms[3],
            })),
            !builds(self@) ==> r == Err::<Xim, ConnectError>(spec_build_error(self@)),
    {
        let StageCheckServers { core, check_state, current_server, last_err, .. } = self;
        let error = match last_err {
            Some(e) => e,
            None => ConnectError::Incomplete,
        };
        let current_server = match current_server {
            Some(c) => c,
            None => {
                return Err(error);
            },
        };
        if check_state != CheckState::Complete {
            return Err(error);
        }
        match (current_server.accept_window, current_server.connect_id, current_server.client_window) {
            (Some(accept), Some(connect_id), Some(client)) => Ok(
                Xim::from_parts(2, connect_id, client, accept, core.atoms[PROTOCOL_INDEX]),
            ),
            _ => Err(error),
        }
    }
}

} // verus!
