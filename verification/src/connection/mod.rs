//! Connecting to an XIM server: where to reach it, and the finished connection.
pub mod builder;

pub use builder::{
    BuilderView, CheckState, CheckView, Completion, ConnectError, CoreView, DirectiveView, Event,
    FrameView, SendEventView, ServerCheckDirective, ServerView, StageCheckServers,
    StageGetServers, XimBuilder,
};

use vstd::prelude::*;

verus! {

/// What a finished connection to an XIM server holds.
pub struct XimView {
    pub sequence: u32,
    pub connect_id: u16,
    pub client: u32,
    pub accept: u32,
    pub protocol: u32,
}

/// A sans-I/O connection to an XIM server.
pub struct Xim {
    /// The current sequence number.
    sequence: u32,
    /// The connection ID for this item.
    connect_id: u16,
    /// The window used to read frames.
    client: u32,
    /// The window used to send frames.
    accept: u32,
    /// The protocol atom
    protocol: u32,
}

impl View for Xim {
    type V = XimView;

    closed spec fn view(&self) -> XimView {
        XimView {
            sequence: self.sequence,
            connect_id: self.connect_id,
            client: self.client,
            accept: self.accept,
            protocol: self.protocol,
        }
    }
}

impl Xim {
    pub(crate) fn from_parts(sequence: u32, connect_id: u16, client: u32, accept: u32, protocol: u32) -> (r: Xim)
        ensures
            r@ == (XimView { sequence, connect_id, client, accept, protocol }),
    {
        Xim { sequence, connect_id, client, accept, protocol }
    }
}

/// The transport protocol over which an XIM server is reached.
#[derive(Debug, Copy, Clone, PartialEq, Eq, PartialOrd, Ord, Hash, Structural)]
pub enum Protocol {
    X11,
    Tcp,
    Local,
    Decnet,
}

/// The address to connect to.
#[derive(Debug, Clone, PartialEq, Eq, PartialOrd, Ord, Hash)]
pub struct Address {
    protocol: Protocol,
    address: Vec<u8>,
}

impl View for Address {
    type V = (Protocol, Seq<u8>);

    closed spec fn view(&self) -> (Protocol, Seq<u8>) {
        (self.protocol, self.address@)
    }
}

impl Address {
    /// Create a new address.
    pub fn new(protocol: Protocol, address: Vec<u8>) -> (r: Address)
        ensures
            r@ == (protocol, address@),
    {
        Address { protocol: protocol, address: address }
    }

    /// A copy of this address.
    pub fn duplicate(&self) -> (r: Address)
        ensures
            r@ == self@,
    {
        Address { protocol: self.protocol, address: self.address.clone() }
    }
}

/// The protocol name was none of the known ones.
#[derive(Debug, PartialEq, Eq, Structural)]
pub struct BadProtocol;

/// `b` with an ASCII upper-case letter turned to lower case.
pub open spec fn ascii_lower(b: u8) -> u8 {
    if 65 <= b <= 90 {
        (b + 32) as u8
    } else {
        b
    }
}

/// `a` and `b` are equal but for the case of ASCII letters.
pub open spec fn spec_eq_ignore_ascii_case(a: Seq<u8>, b: Seq<u8>) -> bool {
    &&& a.len() == b.len()
    &&& forall|i: int| 0 <= i < a.len() ==> ascii_lower(#[trigger] a[i]) == ascii_lower(b[i])
}

/// The protocol that a name stands for, compared without regard to ASCII case.
pub open spec fn spec_protocol_from_name(s: Seq<u8>) -> Result<Protocol, BadProtocol> {
    if spec_eq_ignore_ascii_case(s, seq![88u8]) {
        Ok(Protocol::X11)
    } else if spec_eq_ignore_ascii_case(s, seq![84u8, 67u8, 80u8]) {
        Ok(Protocol::Tcp)
    } else if spec_eq_ignore_ascii_case(s, seq![76u8, 79u8, 67u8, 65u8, 76u8]) {
        Ok(Protocol::Local)
    } else if spec_eq_ignore_ascii_case(s, seq![68u8, 69u8, 67u8, 78u8, 69u8, 84u8]) {
        Ok(Protocol::Decnet)
    } else {
        Err(BadProtocol)
    }
}

proof fn lemma_eq_ignore_ascii_case_trans(a: Seq<u8>, b: Seq<u8>, c: Seq<u8>)
    requires
        spec_eq_ignore_ascii_case(a, b),
    ensures
        spec_eq_ignore_ascii_case(b, c) <==> spec_eq_ignore_ascii_case(a, c),
{
    if spec_eq_ignore_ascii_case(b, c) {
        assert forall|i: int| 0 <= i < a.len() implies ascii_lower(#[trigger] a[i]) == ascii_lower(
            c[i],
        ) by {
            assert(ascii_lower(a[i]) == ascii_lower(b[i]));
            assert(ascii_lower(b[i]) == ascii_lower(c[i]));
        }
    }
    if spec_eq_ignore_ascii_case(a, c) {
        assert forall|i: int| 0 <= i < b.len() implies ascii_lower(#[trigger] b[i]) == ascii_lower(
            c[i],
        ) by {
            assert(ascii_lower(a[i]) == ascii_lower(b[i]));
            assert(ascii_lower(a[i]) == ascii_lower(c[i]));
        }
    }
}

/// Protocol names are read without regard to ASCII case: two names that
/// differ only in the case of their letters stand for the same protocol, or
/// are both refused.
pub proof fn lemma_protocol_name_ignores_case(a: Seq<u8>, b: Seq<u8>)
    requires
        spec_eq_ignore_ascii_case(a, b),
    ensures
        spec_protocol_from_name(a) == spec_protocol_from_name(b),
{
    lemma_eq_ignore_ascii_case_trans(a, b, seq![88u8]);
    lemma_eq_ignore_ascii_case_trans(a, b, seq![84u8, 67u8, 80u8]);
    lemma_eq_ignore_ascii_case_trans(a, b, seq![76u8, 79u8, 67u8, 65u8, 76u8]);
    lemma_eq_ignore_ascii_case_trans(a, b, seq![68u8, 69u8, 67u8, 78u8, 69u8, 84u8]);
}

/// Lowering the case of a byte turns each ASCII upper-case letter, `A` to
/// `Z`, into its lower-case letter, 32 further on, and leaves every other
/// byte as it is.
pub proof fn lemma_ascii_lower_letters(b: u8)
    ensures
        65 <= b <= 90 ==> ascii_lower(b) == b + 32,
        !(65 <= b <= 90) ==> ascii_lower(b) == b,
        97 <= b <= 122 ==> ascii_lower(b) == b,
{
}

/// `s` spells `name`, a word of ASCII upper-case letters, with each letter
/// in either case.
pub open spec fn spelled_in_any_case(s: Seq<u8>, name: Seq<u8>) -> bool {
    &&& s.len() == name.len()
    &&& forall|i: int| 0 <= i < s.len() ==> (#[trigger] s[i] == name[i] || s[i] == name[i] + 32)
}

proof fn lemma_any_case_is_ignored(s: Seq<u8>, name: Seq<u8>)
    requires
        spelled_in_any_case(s, name),
        forall|i: int| 0 <= i < name.len() ==> 65 <= #[trigger] name[i] <= 90,
    ensures
        spec_eq_ignore_ascii_case(s, name),
{
    assert forall|i: int| 0 <= i < s.len() implies ascii_lower(#[trigger] s[i]) == ascii_lower(
        name[i],
    ) by {
        assert(s[i] == name[i] || s[i] == name[i] + 32);
        assert(65 <= name[i] <= 90);
    }
}

/// The name of a protocol, in upper case: `X`, `TCP`, `LOCAL`, `DECNET`.
pub open spec fn protocol_name(p: Protocol) -> Seq<u8> {
    match p {
        Protocol::X11 => seq![88u8],
        Protocol::Tcp => seq![84u8, 67u8, 80u8],
        Protocol::Local => seq![76u8, 79u8, 67u8, 65u8, 76u8],
        Protocol::Decnet => seq![68u8, 69u8, 67u8, 78u8, 69u8, 84u8],
    }
}

proof fn lemma_ignored_case_is_any_case(s: Seq<u8>, name: Seq<u8>)
    requires
        spec_eq_ignore_ascii_case(s, name),
        forall|i: int| 0 <= i < name.len() ==> 65 <= #[trigger] name[i] <= 90,
    ensures
        spelled_in_any_case(s, name),
{
    assert forall|i: int| 0 <= i < s.len() implies (#[trigger] s[i] == name[i] || s[i] == name[i]
        + 32) by {
        assert(ascii_lower(s[i]) == ascii_lower(name[i]));
        assert(65 <= name[i] <= 90);
    }
}

proof fn lemma_name_any_case(s: Seq<u8>, p: Protocol)
    ensures
        spelled_in_any_case(s, protocol_name(p)) <==> spec_eq_ignore_ascii_case(s, protocol_name(p)),
{
    let name = protocol_name(p);
    assert(forall|i: int| 0 <= i < name.len() ==> 65 <= #[trigger] name[i] <= 90);
    if spelled_in_any_case(s, name) {
        lemma_any_case_is_ignored(s, name);
    }
    if spec_eq_ignore_ascii_case(s, name) {
        lemma_ignored_case_is_any_case(s, name);
    }
}

/// A name stands for a protocol exactly when it spells that protocol's name
/// with each letter in either case (`x` and `X`; `tcp`, `Tcp`, `TCP`;
/// `local`, `LOCAL`; `decnet`, `DecNet`, `DECNET`, and so on); any other
/// name is refused.
pub proof fn lemma_protocol_names_any_case(s: Seq<u8>, p: Protocol)
    ensures
        spec_protocol_from_name(s) == Ok::<Protocol, BadProtocol>(p) <==> spelled_in_any_case(
            s,
            protocol_name(p),
        ),
        spec_protocol_from_name(s) is Err <==> {
            &&& !spelled_in_any_case(s, protocol_name(Protocol::X11))
            &&& !spelled_in_any_case(s, protocol_name(Protocol::Tcp))
            &&& !spelled_in_any_case(s, protocol_name(Protocol::Local))
            &&& !spelled_in_any_case(s, protocol_name(Protocol::Decnet))
        },
{
    lemma_name_any_case(s, Protocol::X11);
    lemma_name_any_case(s, Protocol::Tcp);
    lemma_name_any_case(s, Protocol::Local);
    lemma_name_any_case(s, Protocol::Decnet);
}

fn to_ascii_lower(b: u8) -> (r: u8)
    ensures
        r == ascii_lower(b),
{
    if 65 <= b && b <= 90 {
        b + 32
    } else {
        b
    }
}

/// Compare two byte strings without regard to the case of ASCII letters.
pub fn eq_ignore_ascii_case(a: &[u8], b: &[u8]) -> (r: bool)
    ensures
        r == spec_eq_ignore_ascii_case(a@, b@),
{
    if a.len() != b.len() {
        return false;
    }
    let n = a.len();
    let mut i: usize = 0;
    while i < n
        invariant
            n == a@.len(),
            n == b@.len(),
            i <= n,
            forall|k: int| 0 <= k < i ==> ascii_lower(#[trigger] a@[k]) == ascii_lower(b@[k]),
        decreases n - i,
    {
        if to_ascii_lower(a[i]) != to_ascii_lower(b[i]) {
            return false;
        }
        i = i + 1;
    }
    true
}

impl Protocol {
    /// The protocol named by `name` (`X`, `TCP`, `LOCAL` or `DECNET`, in any
    /// ASCII case).
    pub fn from_name(name: &[u8]) -> (r: Result<Protocol, BadProtocol>)
        ensures
            r == spec_protocol_from_name(name@),
    {
        let x: [u8; 1] = [88u8];
        let tcp: [u8; 3] = [84u8, 67u8, 80u8];
        let local: [u8; 5] = [76u8, 79u8, 67u8, 65u8, 76u8];
        let decnet: [u8; 6] = [68u8, 69u8, 67u8, 78u8, 69u8, 84u8];
        assert(x@ =~= seq![88u8]);
        assert(tcp@ =~= seq![84u8, 67u8, 80u8]);
        assert(local@ =~= seq![76u8, 79u8, 67u8, 65u8, 76u8]);
        assert(decnet@ =~= seq![68u8, 69u8, 67u8, 78u8, 69u8, 84u8]);
        if eq_ignore_ascii_case(name, x.as_slice()) {
            Ok(Protocol::X11)
        } else if eq_ignore_ascii_case(name, tcp.as_slice()) {
            Ok(Protocol::Tcp)
        } else if eq_ignore_ascii_case(name, local.as_slice()) {
            Ok(Protocol::Local)
        } else if eq_ignore_ascii_case(name, decnet.as_slice()) {
            Ok(Protocol::Decnet)
        } else {
            Err(BadProtocol)
        }
    }
}

impl core::str::FromStr for Protocol {
    type Err = BadProtocol;

    fn from_str(s: &str) -> (r: Result<Self, Self::Err>)
        ensures
            r == spec_protocol_from_name(vstd::utf8::encode_utf8(s@)),
    {
        Protocol::from_name(s.as_bytes())
    }
}

} // verus!
