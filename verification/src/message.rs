//! Carrying a serialized XIM frame in a `ClientMessage` event: inline when it
//! fits in the event's twenty bytes, through a window property otherwise.
use crate::frame::native_u16_of;
use crate::frame::pod_read_u16;
use crate::xproto::{
    atom_any, atom_string, client_message_event, native_words_bytes, native_words_of,
    prop_mode_append, spec_atom_any, spec_atom_string, spec_client_message_event,
    spec_prop_mode_append, Atom, ChangePropertyRequest, ClientMessageData, ClientMessageEvent,
    GetPropertyReply, GetPropertyRequest, InternAtomRequest, Window,
};
use vstd::prelude::*;
use vstd::utf8::encode_utf8;

verus! {

/// The largest frame that is carried inside the event itself.
const INLINE_THRESHOLD: usize = 20;

/// A client message event as plain values.
pub struct ClientMessageView {
    pub response_type: u8,
    pub format: u8,
    pub sequence: u16,
    pub window: Window,
    pub type_: Atom,
    pub data: Seq<u8>,
}

impl View for ClientMessageEvent {
    type V = ClientMessageView;

    open spec fn view(&self) -> ClientMessageView {
        ClientMessageView {
            response_type: self.response_type,
            format: self.format,
            sequence: self.sequence,
            window: self.window,
            type_: self.type_,
            data: self.data@,
        }
    }
}

/// A property reply as plain values.
pub struct PropertyReplyView {
    pub format: u8,
    pub sequence: u16,
    pub length: u32,
    pub type_: Atom,
    pub bytes_after: u32,
    pub value_len: u32,
    pub value: Seq<u8>,
}

impl View for GetPropertyReply {
    type V = PropertyReplyView;

    open spec fn view(&self) -> PropertyReplyView {
        PropertyReplyView {
            format: self.format,
            sequence: self.sequence,
            length: self.length,
            type_: self.type_,
            bytes_after: self.bytes_after,
            value_len: self.value_len,
            value: self.value@,
        }
    }
}

/// A message: the event, and, while the frame does not fit in it, the name
/// of the property atom to intern and the frame that waits to be stored there.
pub struct MessageView {
    pub event: ClientMessageView,
    pub pending: Option<(Seq<char>, Seq<u8>)>,
}

/// The serialized form of an XIM frame.
///
/// This is intended to be either sent or received from the client using
/// the `ClientMessageEvent` type of transport.
#[derive(Debug)]
pub struct Message {
    // the client message event
    message: ClientMessageEvent,
    // any other information that needs to be sent
    head: Head,
}

#[derive(Debug)]
enum Head {
    Nothing,
    AwaitingAtom { atom_name: String, data: Vec<u8> },
}

impl View for Message {
    type V = MessageView;

    closed spec fn view(&self) -> MessageView {
        MessageView {
            event: self.message@,
            pending: match self.head {
                Head::Nothing => None,
                Head::AwaitingAtom { atom_name, data } => Some((atom_name@, data@)),
            },
        }
    }
}

/// The client message format was neither 8 nor 32.
#[derive(Debug, PartialEq, Eq, Structural)]
pub struct InvalidFormat(pub u8);

/// `s` followed by zeros up to twenty bytes.
pub open spec fn padded20(s: Seq<u8>) -> Seq<u8> {
    s + Seq::new((20 - s.len()) as nat, |i: int| 0u8)
}

/// The message that carries `frame` to `window`, tagged with `protocol_atom`.
pub open spec fn spec_new(frame: Seq<u8>, name: Seq<char>, protocol_atom: Atom, window: Window) -> MessageView {
    if frame.len() <= 20 {
        MessageView {
            event: ClientMessageView {
                response_type: spec_client_message_event(),
                format: 8,
                sequence: 0,
                window,
                type_: protocol_atom,
                data: padded20(frame),
            },
            pending: None,
        }
    } else {
        MessageView {
            event: ClientMessageView {
                response_type: spec_client_message_event(),
                format: 32,
                sequence: 0,
                window,
                type_: protocol_atom,
                data: padded20(seq![]),
            },
            pending: Some((name, frame)),
        }
    }
}

/// A pending message once its frame has been stored under `atom`: the event
/// now names the frame's length and the atom.
pub open spec fn spec_use_atom(m: MessageView, atom: Atom) -> MessageView {
    let data = m.pending.unwrap().1;
    MessageView {
        event: ClientMessageView {
            data: native_words_bytes(seq![data.len() as u32, atom, 0u32, 0u32, 0u32]),
            ..m.event
        },
        pending: None,
    }
}

/// The request for the property named in a format-32 event.
pub open spec fn spec_property_request(e: ClientMessageView) -> GetPropertyRequest {
    let words = native_words_of(e.data);
    GetPropertyRequest {
        delete: true,
        window: e.window,
        property: words[1],
        type_: spec_atom_any(),
        long_offset: 0,
        long_length: words[0],
    }
}

/// The message that an incoming event carries, and the property request that
/// fetches its frame when the frame is not inline.
pub open spec fn spec_from_client_message(e: ClientMessageView) -> Result<
    (MessageView, Option<GetPropertyRequest>),
    InvalidFormat,
> {
    let m = MessageView { event: e, pending: None };
    if e.format == 8 {
        Ok((m, None))
    } else if e.format == 32 {
        Ok((m, Some(spec_property_request(e))))
    } else {
        Err(InvalidFormat(e.format))
    }
}

/// The length in bytes that the header at the front of `data` declares for its frame.
pub open spec fn declared_len(data: Seq<u8>) -> int {
    (native_u16_of(data.subrange(2, 4)) + 1) * 4
}

/// The length in bytes of the value of a property reply.
pub open spec fn reply_len(r: PropertyReplyView) -> int {
    r.value_len * (r.format / 8)
}

/// `s` cut down to at most `n` bytes.
pub open spec fn truncated(s: Seq<u8>, n: int) -> Seq<u8> {
    if n < s.len() {
        s.take(n)
    } else {
        s
    }
}

/// The frame that a message carries: inline, as long as its header declares;
/// or in the property reply, as long as its header declares and the reply holds.
pub open spec fn spec_parse(m: MessageView, reply: Option<PropertyReplyView>) -> Seq<u8> {
    match reply {
        None => m.event.data.take(declared_len(m.event.data)),
        Some(r) => {
            let n = if declared_len(r.value) <= reply_len(r) {
                declared_len(r.value)
            } else {
                reply_len(r)
            };
            truncated(r.value, n)
        },
    }
}

/// On which inputs `Message::parse` can work: an inline frame fits in the
/// event, and a property value holds at least a header.
pub open spec fn parse_accepts(m: MessageView, reply: Option<PropertyReplyView>) -> bool {
    match reply {
        None => declared_len(m.event.data) <= 20,
        Some(r) => r.value.len() >= 4 && reply_len(r) <= usize::MAX,
    }
}

impl Message {
    /// Create a new `Message` that carries the serialized `frame` to
    /// `window`; `name` names the property used when the frame is too large
    /// to travel inside the event.
    pub fn new(frame: Vec<u8>, name: String, protocol_atom: Atom, window: Window) -> (r: Message)
        ensures
            r@ == spec_new(frame@, name@, protocol_atom, window),
    {
        let len = frame.len();
        // if we can inline it into a client message, do that
        let (format, data, head) = if len <= INLINE_THRESHOLD {
            let mut client_data = [0u8; 20];
            let mut i: usize = 0;
            while i < len
                invariant
                    len == frame@.len(),
                    len <= 20,
                    i <= len,
                    client_data@.len() == 20,
                    forall|k: int| 0 <= k < i ==> client_data@[k] == frame@[k],
                    forall|k: int| i <= k < 20 ==> client_data@[k] == 0u8,
                decreases len - i,
            {
                client_data[i] = frame[i];
                i = i + 1;
            }
            assert(client_data@ =~= padded20(frame@));
            (8u8, ClientMessageData::from_data8(client_data), Head::Nothing)
        } else {
            // set us up so we can attach the data to the window as a property
            let client_data = [0u8; 20];
            assert(client_data@ =~= padded20(seq![]));
            (32u8, ClientMessageData::from_data8(client_data), Head::AwaitingAtom { atom_name: name, data: frame })
        };

        let message = ClientMessageEvent {
            response_type: client_message_event(),
            format,
            sequence: 0,
            window,
            type_: protocol_atom,
            data,
        };

        Message { message, head }
    }

    /// Initialize this `Message` from an existing `ClientMessageEvent`.
    ///
    /// A format-32 event names a property that holds the frame; the request
    /// that fetches it comes back too.
    ///
    /// # Errors
    ///
    /// Returns an error if the client message is in an invalid format.
    pub fn from_client_message(cme: ClientMessageEvent) -> (r: Result<
        (Message, Option<GetPropertyRequest>),
        InvalidFormat,
    >)
        ensures
            match (r, spec_from_client_message(cme@)) {
                (Ok((m, g)), Ok((sm, sg))) => m@ == sm && g == sg,
                (Err(e), Err(se)) => e == se,
                _ => false,
            },
    {
        let message = Message { message: cme, head: Head::Nothing };

        // also determine whether we need the property
        match message.message.format {
            8 => {
                // we don't need it
                Ok((message, None))
            },
            32 => {
                // we do need it
                let data = message.message.data.as_data32();
                let len = data[0];
                let atom = data[1];

                let gpr = GetPropertyRequest {
                    delete: true,
                    window: message.message.window,
                    property: atom,
                    type_: atom_any(),
                    long_offset: 0,
                    long_length: len,
                };
                Ok((message, Some(gpr)))
            },
            format => Err(InvalidFormat(format)),
        }
    }

    /// Get the `InternAtomRequest` that we later expect to feed back into
    /// here, when the frame waits for a property atom.
    ///
    /// Take the atom reply and feed it to the `use_atom` function.
    pub fn intern_atom(&self) -> (r: Option<InternAtomRequest>)
        ensures
            match self@.pending {
                Some((name, _)) => (r matches Some(req) && !req.only_if_exists && req.name@
                    == encode_utf8(name)),
                None => r is None,
            },
    {
        match &self.head {
            Head::AwaitingAtom { atom_name, .. } => {
                let name = vstd::slice::slice_to_vec(atom_name.as_str().as_bytes());
                Some(InternAtomRequest { only_if_exists: false, name })
            },
            Head::Nothing => None,
        }
    }

    /// Use the given atom to create the requests that store the waiting frame
    /// in a property of the window: first get the property, which creates or
    /// clears it, then change it.
    pub fn use_atom(&mut self, message_atom: Atom) -> (r: (GetPropertyRequest, ChangePropertyRequest))
        requires
            old(self)@.pending is Some,
        ensures
            final(self)@ == spec_use_atom(old(self)@, message_atom),
            r.0 == (GetPropertyRequest {
                delete: false,
                window: old(self)@.event.window,
                property: message_atom,
                type_: spec_atom_string(),
                long_offset: 0,
                long_length: 10000,
            }),
            r.1.mode == spec_prop_mode_append(),
            r.1.window == old(self)@.event.window,
            r.1.property == message_atom,
            r.1.type_ == spec_atom_string(),
            r.1.format == 8,
            r.1.data_len == old(self)@.pending.unwrap().1.len() as u32,
            r.1.data@ == old(self)@.pending.unwrap().1,
    {
        let mut head = Head::Nothing;
        core::mem::swap(&mut head, &mut self.head);
        match head {
            Head::AwaitingAtom { data, .. } => {
                let data_len = data.len();
                let window = self.message.window;

                // create a request to get the property
                // this ensures it's created or cleared
                let gpr = GetPropertyRequest {
                    delete: false,
                    window,
                    property: message_atom,
                    type_: atom_string(),
                    long_offset: 0,
                    long_length: 10000,
                };

                let cpr = ChangePropertyRequest {
                    mode: prop_mode_append(),
                    window,
                    property: message_atom,
                    type_: atom_string(),
                    format: 8,
                    data_len: data_len as u32,
                    data,
                };

                let msg_data: [u32; 5] = [data_len as u32, message_atom, 0, 0, 0];
                assert(msg_data@ =~= seq![data_len as u32, message_atom, 0u32, 0u32, 0u32]);
                self.message.data = ClientMessageData::from_data32(msg_data);

                (gpr, cpr)
            },
            Head::Nothing => vstd::pervasive::unreached(),
        }
    }

    /// Give back the event to send, or the message itself while its frame
    /// still waits for a property atom.
    pub fn try_into_client_message(self) -> (r: Result<ClientMessageEvent, Message>)
        ensures
            r == spec_try_into_event(self),
            self@.pending is None ==> (r matches Ok(e) && e@ == self@.event),
            self@.pending is Some ==> (r matches Err(m) && m@ == self@),
    {
        let Message { message, head } = self;
        match head {
            Head::Nothing => Ok(message),
            head => Err(Message { message, head }),
        }
    }

    /// Convert this message into the `ClientMessageEvent` to be sent, once
    /// nothing waits for a property atom.
    pub fn into_client_message(self) -> (r: ClientMessageEvent)
        requires
            self@.pending is None,
        ensures
            r@ == self@.event,
    {
        match self.try_into_client_message() {
            Ok(e) => e,
            Err(_) => vstd::pervasive::unreached(),
        }
    }

    /// Whether `parse` can take this message with `gpr`: an inline frame
    /// must fit in the event, and a property value must hold a frame header.
    pub fn can_parse(&self, gpr: Option<&GetPropertyReply>) -> (r: bool)
        ensures
            r == parse_accepts(self@, match gpr {
                Some(g) => Some(g@),
                None => None,
            }),
    {
        match gpr {
            None => {
                let msg_data = self.message.data.as_data8();
                proof {
                    self.message.data.lemma_len();
                }
                let header = vstd::slice::slice_subrange(msg_data.as_slice(), 2, 4);
                let declared = pod_read_u16(header) as usize;
                declared <= 4
            },
            Some(g) => {
                if g.value.len() < 4 {
                    return false;
                }
                (g.value_len as usize).checked_mul(g.format as usize / 8).is_some()
            },
        }
    }

    /// The frame that this message carries, read from the event or from the
    /// reply that fetched its property.
    pub fn parse(self, gpr: Option<GetPropertyReply>) -> (r: Vec<u8>)
        requires
            parse_accepts(self@, match gpr {
                Some(g) => Some(g@),
                None => None,
            }),
        ensures
            r@ == spec_parse(self@, match gpr {
                Some(g) => Some(g@),
                None => None,
            }),
    {
        match gpr {
            None => {
                // all data is contained entirely within the message
                let msg_data = self.message.data.as_data8();
                proof {
                    self.message.data.lemma_len();
                }
                let header = vstd::slice::slice_subrange(msg_data.as_slice(), 2, 4);
                let len = (pod_read_u16(header) as usize + 1) * 4;
                vstd::slice::slice_to_vec(vstd::slice::slice_subrange(msg_data.as_slice(), 0, len))
            },
            Some(gpr) => {
                let reply_len = (gpr.value_len as usize) * (gpr.format as usize / 8);
                let mut reply_data = gpr.value;

                let header = vstd::slice::slice_subrange(reply_data.as_slice(), 2, 4);
                let len = (pod_read_u16(header) as usize + 1) * 4;
                let real_len = if len <= reply_len {
                    len
                } else {
                    reply_len
                };
                reply_data.truncate(real_len);
                reply_data
            },
        }
    }
}

/// What is sent is what is read back: a frame whose header declares its own
/// length survives being put in a message (and, when it is too large to travel
/// inline, stored in a property under `message_atom`), sent as a client
/// message event, and taken apart again on the other side.
pub proof fn lemma_message_round_trip(
    frame: Seq<u8>,
    name: Seq<char>,
    protocol_atom: Atom,
    window: Window,
    message_atom: Atom,
)
    requires
        4 <= frame.len() <= u32::MAX,
        declared_len(frame) == frame.len(),
    ensures
        ({
            let m = spec_new(frame, name, protocol_atom, window);
            frame.len() <= 20 ==> {
                &&& m.pending is None
                &&& m.event.format == 8
                &&& m.event.window == window
                &&& m.event.type_ == protocol_atom
                &&& m.event.data.take(frame.len() as int) == frame
                &&& spec_from_client_message(m.event) == Ok::<_, InvalidFormat>((m, None::<GetPropertyRequest>))
                &&& parse_accepts(m, None)
                &&& spec_parse(m, None) == frame
            }
        }),
        ({
            let m = spec_new(frame, name, protocol_atom, window);
            let sent = spec_use_atom(m, message_atom);
            let reply = PropertyReplyView {
                format: 8,
                sequence: 0,
                length: frame.len() as u32,
                type_: spec_atom_string(),
                bytes_after: 0,
                value_len: frame.len() as u32,
                value: frame,
            };
            frame.len() > 20 ==> {
                &&& m.pending == Some((name, frame))
                &&& sent.pending is None
                &&& sent.event.format == 32
                &&& sent.event.window == window
                &&& sent.event.type_ == protocol_atom
                &&& native_words_of(sent.event.data)[0] == frame.len()
                &&& native_words_of(sent.event.data)[1] == message_atom
                &&& spec_from_client_message(sent.event) == Ok::<_, InvalidFormat>(
                    (
                        sent,
                        Some(
                            GetPropertyRequest {
                                delete: true,
                                window,
                                property: message_atom,
                                type_: spec_atom_any(),
                                long_offset: 0,
                                long_length: frame.len() as u32,
                            },
                        ),
                    ),
                )
                &&& parse_accepts(sent, Some(reply))
                &&& spec_parse(sent, Some(reply)) == frame
            }
        }),
{
    let m = spec_new(frame, name, protocol_atom, window);
    if frame.len() <= 20 {
        let data = m.event.data;
        assert(data.subrange(2, 4) =~= frame.subrange(2, 4));
        assert(data.take(frame.len() as int) =~= frame);
    } else {
        let words = seq![frame.len() as u32, message_atom, 0u32, 0u32, 0u32];
        crate::xproto::lemma_native_words(words);
        let sent = spec_use_atom(m, message_atom);
        assert(sent.event.data == native_words_bytes(words));
        assert(native_words_of(sent.event.data) == words);
        assert(spec_property_request(sent.event) == GetPropertyRequest {
            delete: true,
            window,
            property: message_atom,
            type_: spec_atom_any(),
            long_offset: 0,
            long_length: frame.len() as u32,
        });
        assert(MessageView { event: sent.event, pending: None } == sent);
    }
}

/// The event of a message whose frame no longer waits for a property atom,
/// or else the message itself.
pub closed spec fn spec_try_into_event(m: Message) -> Result<ClientMessageEvent, Message> {
    match m.head {
        Head::Nothing => Ok(m.message),
        _ => Err(m),
    }
}

impl TryFrom<Message> for ClientMessageEvent {
    type Error = Message;

    fn try_from(value: Message) -> Result<Self, Self::Error> {
        value.try_into_client_message()
    }
}

impl vstd::std_specs::convert::TryFromSpecImpl<Message> for ClientMessageEvent {
    open spec fn obeys_try_from_spec() -> bool {
        true
    }

    open spec fn try_from_spec(v: Message) -> Result<ClientMessageEvent, Message> {
        spec_try_into_event(v)
    }
}

} // verus!
