//! The X11 requests, replies and events that this crate exchanges with the
//! X server, held as plain values, and the protocol constants it uses, as
//! `x11rb_protocol` defines them.
use crate::frame::native_u32_bytes;
use crate::frame::native_u32_of;
use vstd::prelude::*;
use x11rb_protocol::protocol::xproto;

pub use x11rb_protocol::protocol::xproto::{Atom, Timestamp, Visualid, Window};

verus! {

/// `AtomEnum::ANY`.
pub open spec fn spec_atom_any() -> u32 {
    0
}

/// `AtomEnum::NONE`.
pub open spec fn spec_atom_none() -> u32 {
    0
}

/// `AtomEnum::ATOM`.
pub open spec fn spec_atom_atom() -> u32 {
    4
}

/// `AtomEnum::STRING`.
pub open spec fn spec_atom_string() -> u32 {
    31
}

/// `PropMode::APPEND`.
pub open spec fn spec_prop_mode_append() -> u8 {
    2
}

/// `EventMask::PROPERTY_CHANGE`.
pub open spec fn spec_event_mask_property_change() -> u32 {
    0x400000
}

/// `EventMask::NO_EVENT`.
pub open spec fn spec_event_mask_no_event() -> u32 {
    0
}

/// `WindowClass::INPUT_OUTPUT`.
pub open spec fn spec_window_class_input_output() -> u16 {
    1
}

/// The response type of a client message event.
pub open spec fn spec_client_message_event() -> u8 {
    33
}

/// `u32::from(xproto::AtomEnum::ANY)`: the atom 0.
#[verifier::external_body]
pub(crate) fn atom_any() -> (r: Atom)
    ensures
        r == spec_atom_any(),
{
    xproto::AtomEnum::ANY.into()
}

/// `u32::from(xproto::AtomEnum::NONE)`: the atom 0.
#[verifier::external_body]
pub(crate) fn atom_none() -> (r: Atom)
    ensures
        r == spec_atom_none(),
{
    xproto::AtomEnum::NONE.into()
}

/// `u32::from(xproto::AtomEnum::ATOM)`: the atom 4.
#[verifier::external_body]
pub(crate) fn atom_atom() -> (r: Atom)
    ensures
        r == spec_atom_atom(),
{
    xproto::AtomEnum::ATOM.into()
}

/// `u32::from(xproto::AtomEnum::STRING)`: the atom 31.
#[verifier::external_body]
pub(crate) fn atom_string() -> (r: Atom)
    ensures
        r == spec_atom_string(),
{
    xproto::AtomEnum::STRING.into()
}

/// `u8::from(xproto::PropMode::APPEND)`: the mode 2.
#[verifier::external_body]
pub(crate) fn prop_mode_append() -> (r: u8)
    ensures
        r == spec_prop_mode_append(),
{
    xproto::PropMode::APPEND.into()
}

/// `u32::from(xproto::EventMask::PROPERTY_CHANGE)`: the mask `1 << 22`.
#[verifier::external_body]
pub(crate) fn event_mask_property_change() -> (r: u32)
    ensures
        r == spec_event_mask_property_change(),
{
    xproto::EventMask::PROPERTY_CHANGE.into()
}

/// `u32::from(xproto::EventMask::NO_EVENT)`: the empty mask.
#[verifier::external_body]
pub(crate) fn event_mask_no_event() -> (r: u32)
    ensures
        r == spec_event_mask_no_event(),
{
    xproto::EventMask::NO_EVENT.into()
}

/// `u16::from(xproto::WindowClass::INPUT_OUTPUT)`: the class 1.
#[verifier::external_body]
pub(crate) fn window_class_input_output() -> (r: u16)
    ensures
        r == spec_window_class_input_output(),
{
    xproto::WindowClass::INPUT_OUTPUT.into()
}

/// `xproto::CLIENT_MESSAGE_EVENT`: the response type 33.
#[verifier::external_body]
pub(crate) fn client_message_event() -> (r: u8)
    ensures
        r == spec_client_message_event(),
{
    xproto::CLIENT_MESSAGE_EVENT
}

/// The bytes of five words laid one after the other in this machine's byte order.
pub open spec fn native_words_bytes(w: Seq<u32>) -> Seq<u8> {
    native_u32_bytes(w[0]) + native_u32_bytes(w[1]) + native_u32_bytes(w[2]) + native_u32_bytes(
        w[3],
    ) + native_u32_bytes(w[4])
}

/// The five words that twenty bytes hold in this machine's byte order.
pub open spec fn native_words_of(b: Seq<u8>) -> Seq<u32> {
    seq![
        native_u32_of(b.subrange(0, 4)),
        native_u32_of(b.subrange(4, 8)),
        native_u32_of(b.subrange(8, 12)),
        native_u32_of(b.subrange(12, 16)),
        native_u32_of(b.subrange(16, 20)),
    ]
}

/// Reading back the bytes of five words gives the words.
pub proof fn lemma_native_words(w: Seq<u32>)
    requires
        w.len() == 5,
    ensures
        native_words_bytes(w).len() == 20,
        native_words_of(native_words_bytes(w)) == w,
{
    let b = native_words_bytes(w);
    crate::frame::lemma_native_u32(w[0], seq![]);
    crate::frame::lemma_native_u32(w[1], seq![]);
    crate::frame::lemma_native_u32(w[2], seq![]);
    crate::frame::lemma_native_u32(w[3], seq![]);
    crate::frame::lemma_native_u32(w[4], seq![]);
    assert(b.subrange(0, 4) =~= native_u32_bytes(w[0]));
    assert(b.subrange(4, 8) =~= native_u32_bytes(w[1]));
    assert(b.subrange(8, 12) =~= native_u32_bytes(w[2]));
    assert(b.subrange(12, 16) =~= native_u32_bytes(w[3]));
    assert(b.subrange(16, 20) =~= native_u32_bytes(w[4]));
    assert(native_words_of(b) =~= w);
}

/// `xproto::ClientMessageData::from(words).as_data8()`: the words laid out in
/// this machine's byte order.
#[verifier::external_body]
fn data8_from_data32(words: [u32; 5]) -> (r: [u8; 20])
    ensures
        r@ == native_words_bytes(words@),
{
    xproto::ClientMessageData::from(words).as_data8()
}

/// `xproto::ClientMessageData::from(bytes).as_data32()`: the words that the
/// bytes hold in this machine's byte order.
#[verifier::external_body]
fn data32_from_data8(bytes: [u8; 20]) -> (r: [u32; 5])
    ensures
        r@ == native_words_of(bytes@),
{
    xproto::ClientMessageData::from(bytes).as_data32()
}

/// The twenty bytes of data that a client message carries.
#[derive(Debug, Clone, Copy)]
pub struct ClientMessageData {
    bytes: [u8; 20],
}

impl View for ClientMessageData {
    type V = Seq<u8>;

    closed spec fn view(&self) -> Seq<u8> {
        self.bytes@
    }
}

impl ClientMessageData {
    /// Every client message carries twenty bytes.
    pub proof fn lemma_len(&self)
        ensures
            self@.len() == 20,
    {
    }

    /// Data made of the given bytes.
    pub fn from_data8(bytes: [u8; 20]) -> (r: ClientMessageData)
        ensures
            r@ == bytes@,
    {
        ClientMessageData { bytes }
    }

    /// Data made of the given words, in this machine's byte order.
    pub fn from_data32(words: [u32; 5]) -> (r: ClientMessageData)
        ensures
            r@ == native_words_bytes(words@),
    {
        ClientMessageData { bytes: data8_from_data32(words) }
    }

    /// The data as bytes.
    pub fn as_data8(&self) -> (r: [u8; 20])
        ensures
            r@ == self@,
    {
        self.bytes
    }

    /// The data as words, in this machine's byte order.
    pub fn as_data32(&self) -> (r: [u32; 5])
        ensures
            r@ == native_words_of(self@),
    {
        data32_from_data8(self.bytes)
    }
}

/// A `ClientMessage` event.
#[derive(Debug, Clone, Copy)]
pub struct ClientMessageEvent {
    pub response_type: u8,
    pub format: u8,
    pub sequence: u16,
    pub window: Window,
    pub type_: Atom,
    pub data: ClientMessageData,
}

/// A `SelectionNotify` event.
#[derive(Debug, Clone, Copy, PartialEq, Eq, Structural)]
pub struct SelectionNotifyEvent {
    pub response_type: u8,
    pub sequence: u16,
    pub time: Timestamp,
    pub requestor: Window,
    pub selection: Atom,
    pub target: Atom,
    pub property: Atom,
}

/// A `GetProperty` request.
#[derive(Debug, Clone, Copy, PartialEq, Eq, Structural)]
pub struct GetPropertyRequest {
    pub delete: bool,
    pub window: Window,
    pub property: Atom,
    pub type_: Atom,
    pub long_offset: u32,
    pub long_length: u32,
}

/// The reply to a `GetProperty` request.
#[derive(Debug, Clone)]
pub struct GetPropertyReply {
    pub format: u8,
    pub sequence: u16,
    pub length: u32,
    pub type_: Atom,
    pub bytes_after: u32,
    pub value_len: u32,
    pub value: Vec<u8>,
}

/// A `ChangeProperty` request.
#[derive(Debug, Clone)]
pub struct ChangePropertyRequest {
    pub mode: u8,
    pub window: Window,
    pub property: Atom,
    pub type_: Atom,
    pub format: u8,
    pub data_len: u32,
    pub data: Vec<u8>,
}

/// An `InternAtom` request.
#[derive(Debug, Clone)]
pub struct InternAtomRequest {
    pub only_if_exists: bool,
    pub name: Vec<u8>,
}

/// A `GetSelectionOwner` request.
#[derive(Debug, Clone, Copy, PartialEq, Eq, Structural)]
pub struct GetSelectionOwnerRequest {
    pub selection: Atom,
}

/// The reply to a `GetSelectionOwner` request.
#[derive(Debug, Clone, Copy, PartialEq, Eq, Structural)]
pub struct GetSelectionOwnerReply {
    pub sequence: u16,
    pub length: u32,
    pub owner: Window,
}

/// A `GetAtomName` request.
#[derive(Debug, Clone, Copy, PartialEq, Eq, Structural)]
pub struct GetAtomNameRequest {
    pub atom: Atom,
}

/// The reply to a `GetAtomName` request.
#[derive(Debug, Clone)]
pub struct GetAtomNameReply {
    pub sequence: u16,
    pub length: u32,
    pub name: Vec<u8>,
}

/// A `CreateWindow` request, with no window attributes set.
#[derive(Debug, Clone, Copy, PartialEq, Eq, Structural)]
pub struct CreateWindowRequest {
    pub depth: u8,
    pub wid: Window,
    pub parent: Window,
    pub x: i16,
    pub y: i16,
    pub width: u16,
    pub height: u16,
    pub border_width: u16,
    pub class: u16,
    pub visual: Visualid,
}

/// A `DestroyWindow` request.
#[derive(Debug, Clone, Copy, PartialEq, Eq, Structural)]
pub struct DestroyWindowRequest {
    pub window: Window,
}

/// A `ConvertSelection` request.
#[derive(Debug, Clone, Copy, PartialEq, Eq, Structural)]
pub struct ConvertSelectionRequest {
    pub requestor: Window,
    pub selection: Atom,
    pub target: Atom,
    pub property: Atom,
    pub time: Timestamp,
}

/// A `SendEvent` request that sends a client message.
#[derive(Debug, Clone, Copy)]
pub struct SendEventRequest {
    pub propagate: bool,
    pub destination: Window,
    pub event_mask: u32,
    pub event: ClientMessageEvent,
}

/// What this crate reads of a screen.
#[derive(Debug, Clone, Copy, PartialEq, Eq, Structural)]
pub struct Screen {
    pub root: Window,
    pub root_visual: Visualid,
}

/// What this crate reads of the connection setup: its screens.
#[derive(Debug, Clone)]
pub struct Setup {
    pub roots: Vec<Screen>,
}

} // verus!
