//! The XIM frames that the connection handshake sends and reads.
use crate::frame::{pod_read_u16, word16};
use vstd::endian::{endianness, Endian};
use vstd::prelude::*;

verus! {

/// A `STR`: a string of bytes.
#[derive(Debug, Clone, Default)]
pub struct StrFr {
    pub string: Vec<u8>,
}

/// `XIM_CONNECT`: the client's byte order, protocol version and
/// authentication protocols.
#[derive(Debug, Clone)]
pub struct ConnectFr {
    pub byte_order: u8,
    pub client_major_protocol_version: u16,
    pub client_minor_protocol_version: u16,
    pub client_auth_protocol_names: Vec<Vec<u8>>,
}

/// `XIM_CONNECT_REPLY`: the server's protocol version.
#[derive(Debug, Clone, Copy, PartialEq, Eq, Structural)]
pub struct ConnectReplyFr {
    pub server_major_protocol_version: u16,
    pub server_minor_protocol_version: u16,
}

/// `XIM_OPEN`: the locale to open an input method for.
#[derive(Debug, Clone)]
pub struct OpenFr {
    pub field1: StrFr,
}

/// `XIM_OPEN_REPLY`, as far as this crate reads it: the input method's ID.
#[derive(Debug, Clone, Copy, PartialEq, Eq, Structural)]
pub struct OpenReplyFr {
    pub input_method_id: u16,
}

/// A frame that the client sends.
#[derive(Debug, Clone)]
pub enum XimFrame {
    ConnectFr(ConnectFr),
    OpenFr(OpenFr),
}

/// The byte-order mark that a client announces in `XIM_CONNECT`: `l` on a
/// little-endian machine, `B` on a big-endian one.
pub open spec fn spec_byte_order() -> u8 {
    match endianness() {
        Endian::Little => 0x6c,
        Endian::Big => 0x42,
    }
}

/// The byte-order mark of this machine, found by reading back a word.
pub fn byte_order() -> (r: u8)
    ensures
        r == spec_byte_order(),
{
    let probe: [u8; 2] = [1u8, 0u8];
    let word = pod_read_u16(probe.as_slice());
    assert(word16(1u8, 0u8) == 1u16 && word16(0u8, 1u8) == 256u16) by (bit_vector);
    assert(probe@ =~= seq![1u8, 0u8]);
    if word == 1 {
        0x6c
    } else {
        0x42
    }
}

} // verus!
