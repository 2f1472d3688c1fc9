//! Fixed-width words as they travel over the wire, in the byte order of the
//! machine that runs the program.
use vstd::endian::{endianness, Endian};
use vstd::prelude::*;

verus! {

/// The low byte of a 16-bit word.
pub open spec fn lo8(v: u16) -> u8 {
    (v & 0xff) as u8
}

/// The high byte of a 16-bit word.
pub open spec fn hi8(v: u16) -> u8 {
    (v >> 8u16) as u8
}

/// The 16-bit word made of a low and a high byte.
pub open spec fn word16(lo: u8, hi: u8) -> u16 {
    (lo as u16) | ((hi as u16) << 8u16)
}

/// Byte `k` (counting from the least significant) of a 32-bit word.
pub open spec fn byte_of32(v: u32, k: u32) -> u8 {
    ((v >> (8 * k)) & 0xff) as u8
}

/// The 32-bit word whose bytes, from least to most significant, are `b0` to `b3`.
pub open spec fn word32(b0: u8, b1: u8, b2: u8, b3: u8) -> u32 {
    (b0 as u32) | ((b1 as u32) << 8u32) | ((b2 as u32) << 16u32) | ((b3 as u32) << 24u32)
}

/// The bytes of `v` as they lie in memory on this machine.
pub open spec fn native_u16_bytes(v: u16) -> Seq<u8> {
    match endianness() {
        Endian::Little => seq![lo8(v), hi8(v)],
        Endian::Big => seq![hi8(v), lo8(v)],
    }
}

/// The 16-bit word that the first two bytes of `s` hold on this machine.
pub open spec fn native_u16_of(s: Seq<u8>) -> u16 {
    match endianness() {
        Endian::Little => word16(s[0], s[1]),
        Endian::Big => word16(s[1], s[0]),
    }
}

/// The bytes of `v` as they lie in memory on this machine.
pub open spec fn native_u32_bytes(v: u32) -> Seq<u8> {
    match endianness() {
        Endian::Little => seq![byte_of32(v, 0), byte_of32(v, 1), byte_of32(v, 2), byte_of32(v, 3)],
        Endian::Big => seq![byte_of32(v, 3), byte_of32(v, 2), byte_of32(v, 1), byte_of32(v, 0)],
    }
}

/// The 32-bit word that the first four bytes of `s` hold on this machine.
pub open spec fn native_u32_of(s: Seq<u8>) -> u32 {
    match endianness() {
        Endian::Little => word32(s[0], s[1], s[2], s[3]),
        Endian::Big => word32(s[3], s[2], s[1], s[0]),
    }
}

/// Reading back the bytes of a 16-bit word gives the word, and the bytes of
/// the word read from two bytes are those two bytes.
pub proof fn lemma_native_u16(v: u16, s: Seq<u8>)
    ensures
        native_u16_bytes(v).len() == 2,
        native_u16_of(native_u16_bytes(v)) == v,
        s.len() == 2 ==> native_u16_bytes(native_u16_of(s)) == s,
{
    assert(word16(lo8(v), hi8(v)) == v) by (bit_vector);
    if s.len() == 2 {
        let a = s[0];
        let b = s[1];
        assert(lo8(word16(a, b)) == a && hi8(word16(a, b)) == b) by (bit_vector);
        assert(lo8(word16(b, a)) == b && hi8(word16(b, a)) == a) by (bit_vector);
        assert(native_u16_bytes(native_u16_of(s)) =~= s);
    }
}

/// Reading back the bytes of a 32-bit word gives the word, and the bytes of
/// the word read from four bytes are those four bytes.
pub proof fn lemma_native_u32(v: u32, s: Seq<u8>)
    ensures
        native_u32_bytes(v).len() == 4,
        native_u32_of(native_u32_bytes(v)) == v,
        s.len() == 4 ==> native_u32_bytes(native_u32_of(s)) == s,
{
    assert(word32(byte_of32(v, 0), byte_of32(v, 1), byte_of32(v, 2), byte_of32(v, 3)) == v)
        by (bit_vector);
    if s.len() == 4 {
        let a = s[0];
        let b = s[1];
        let c = s[2];
        let d = s[3];
        assert(byte_of32(word32(a, b, c, d), 0) == a && byte_of32(word32(a, b, c, d), 1) == b
            && byte_of32(word32(a, b, c, d), 2) == c && byte_of32(word32(a, b, c, d), 3) == d)
            by (bit_vector);
        assert(byte_of32(word32(d, c, b, a), 0) == d && byte_of32(word32(d, c, b, a), 1) == c
            && byte_of32(word32(d, c, b, a), 2) == b && byte_of32(word32(d, c, b, a), 3) == a)
            by (bit_vector);
        assert(native_u32_bytes(native_u32_of(s)) =~= s);
    }
}

/// Distinct words have distinct bytes.
pub proof fn lemma_native_u16_injective(a: u16, b: u16)
    ensures
        native_u16_bytes(a) == native_u16_bytes(b) ==> a == b,
{
    lemma_native_u16(a, seq![]);
    lemma_native_u16(b, seq![]);
}

/// Distinct words have distinct bytes.
pub proof fn lemma_native_u32_injective(a: u32, b: u32)
    ensures
        native_u32_bytes(a) == native_u32_bytes(b) ==> a == b,
{
    lemma_native_u32(a, seq![]);
    lemma_native_u32(b, seq![]);
}

/// Reading a frame came up short.
#[derive(Debug)]
pub struct ParseError {
    /// The number of bytes the frame needs.
    pub expected: usize,
    /// The number of bytes that were there.
    pub got: usize,
}

/// A frame that can be sent over the wire: a value with a fixed encoding of
/// `spec_size()` bytes.
pub trait Frame: Sized {
    /// The encoding of this value.
    spec fn spec_bytes(&self) -> Seq<u8>;

    /// The length of every encoding.
    spec fn spec_size() -> nat;

    /// Every encoding has the same length, and the encoding determines the value.
    proof fn lemma_encoding(a: &Self, b: &Self)
        ensures
            a.spec_bytes().len() == Self::spec_size(),
            a.spec_bytes() == b.spec_bytes() ==> a == b,
    ;

    /// Parse this frame from the front of `bytes`, handing back the bytes after it.
    fn parse(bytes: &[u8]) -> (r: Result<(Self, &[u8]), ParseError>)
        ensures
            r is Err <==> bytes@.len() < Self::spec_size(),
            r matches Err(e) ==> e.expected == Self::spec_size() && e.got == bytes@.len(),
            r matches Ok((v, rem)) ==> {
                &&& v.spec_bytes() == bytes@.take(Self::spec_size() as int)
                &&& rem@ == bytes@.skip(Self::spec_size() as int)
            },
    ;

    /// The size of this frame in bytes.
    fn size(&self) -> (r: usize)
        ensures
            r == Self::spec_size(),
    ;

    /// Write this frame to the front of `target`, returning how many bytes it took.
    fn serialize(&self, target: &mut [u8]) -> (r: usize)
        requires
            old(target)@.len() >= Self::spec_size(),
        ensures
            r == Self::spec_size(),
            final(target)@ == self.spec_bytes() + old(target)@.skip(Self::spec_size() as int),
    ;

    /// The encoding of this frame as a vector.
    fn into_bytes(self) -> (r: Vec<u8>)
        ensures
            r@ == self.spec_bytes(),
    {
        let n = self.size();
        let mut bytes: Vec<u8> = vec![0u8; n];
        proof {
            Self::lemma_encoding(&self, &self);
        }
        self.serialize(bytes.as_mut_slice());
        assert(bytes@ =~= self.spec_bytes());
        bytes
    }
}

/// Copy `src` into the front of `target`.
fn copy_prefix(target: &mut [u8], src: &[u8])
    requires
        old(target)@.len() >= src@.len(),
    ensures
        final(target)@ == src@ + old(target)@.skip(src@.len() as int),
{
    let n = src.len();
    let mut i: usize = 0;
    while i < n
        invariant
            n == src@.len(),
            i <= n,
            target@.len() == old(target)@.len(),
            target@.len() >= n,
            forall|k: int| 0 <= k < i ==> target@[k] == src@[k],
            forall|k: int| i <= k < target@.len() ==> target@[k] == old(target)@[k],
        decreases n - i,
    {
        target[i] = src[i];
        i = i + 1;
    }
    assert(target@ =~= src@ + old(target)@.skip(n as int));
}

/// `bytemuck::pod_read_unaligned::<u8>`: the one byte given.
#[verifier::external_body]
fn pod_read_u8(bytes: &[u8]) -> (r: u8)
    requires
        bytes@.len() == 1,
    ensures
        r == bytes@[0],
{
    bytemuck::pod_read_unaligned::<u8>(bytes)
}

/// `bytemuck::pod_read_unaligned::<u16>`: the word whose in-memory bytes are the two given.
#[verifier::external_body]
pub(crate) fn pod_read_u16(bytes: &[u8]) -> (r: u16)
    requires
        bytes@.len() == 2,
    ensures
        r == native_u16_of(bytes@),
{
    bytemuck::pod_read_unaligned::<u16>(bytes)
}

/// `bytemuck::pod_read_unaligned::<u32>`: the word whose in-memory bytes are the four given.
#[verifier::external_body]
fn pod_read_u32(bytes: &[u8]) -> (r: u32)
    requires
        bytes@.len() == 4,
    ensures
        r == native_u32_of(bytes@),
{
    bytemuck::pod_read_unaligned::<u32>(bytes)
}

/// `bytemuck::bytes_of::<u8>`: the byte itself.
#[verifier::external_body]
fn bytes_of_u8(v: &u8) -> (r: &[u8])
    ensures
        r@ == seq![*v],
{
    bytemuck::bytes_of::<u8>(v)
}

/// `bytemuck::bytes_of::<u16>`: the in-memory bytes of the word.
#[verifier::external_body]
fn bytes_of_u16(v: &u16) -> (r: &[u8])
    ensures
        r@ == native_u16_bytes(*v),
{
    bytemuck::bytes_of::<u16>(v)
}

/// `bytemuck::bytes_of::<u32>`: the in-memory bytes of the word.
#[verifier::external_body]
fn bytes_of_u32(v: &u32) -> (r: &[u8])
    ensures
        r@ == native_u32_bytes(*v),
{
    bytemuck::bytes_of::<u32>(v)
}

impl Frame for u8 {
    open spec fn spec_bytes(&self) -> Seq<u8> {
        seq![*self]
    }

    open spec fn spec_size() -> nat {
        1
    }

    proof fn lemma_encoding(a: &Self, b: &Self) {
        if a.spec_bytes() == b.spec_bytes() {
            assert(a.spec_bytes()[0] == b.spec_bytes()[0]);
        }
    }

    fn parse(bytes: &[u8]) -> (r: Result<(Self, &[u8]), ParseError>) {
        if bytes.len() < 1 {
            return Err(ParseError { expected: 1, got: bytes.len() });
        }
        let (data, rem) = bytes.split_at(1);
        let v = pod_read_u8(data);
        assert(v.spec_bytes() =~= bytes@.take(1));
        assert(rem@ =~= bytes@.skip(1));
        Ok((v, rem))
    }

    fn size(&self) -> (r: usize) {
        assert(Self::spec_size() == 1);
        1
    }

    fn serialize(&self, target: &mut [u8]) -> (r: usize) {
        let bytes = bytes_of_u8(self);
        copy_prefix(target, bytes);
        1
    }
}

impl Frame for u16 {
    open spec fn spec_bytes(&self) -> Seq<u8> {
        native_u16_bytes(*self)
    }

    open spec fn spec_size() -> nat {
        2
    }

    proof fn lemma_encoding(a: &Self, b: &Self) {
        lemma_native_u16(*a, seq![]);
        lemma_native_u16_injective(*a, *b);
    }

    fn parse(bytes: &[u8]) -> (r: Result<(Self, &[u8]), ParseError>) {
        if bytes.len() < 2 {
            return Err(ParseError { expected: 2, got: bytes.len() });
        }
        let (data, rem) = bytes.split_at(2);
        let v = pod_read_u16(data);
        proof {
            lemma_native_u16(v, data@);
        }
        assert(data@ =~= bytes@.take(2));
        assert(rem@ =~= bytes@.skip(2));
        Ok((v, rem))
    }

    fn size(&self) -> (r: usize) {
        assert(Self::spec_size() == 2);
        2
    }

    fn serialize(&self, target: &mut [u8]) -> (r: usize) {
        let bytes = bytes_of_u16(self);
        proof {
            lemma_native_u16(*self, seq![]);
        }
        copy_prefix(target, bytes);
        2
    }
}

impl Frame for u32 {
    open spec fn spec_bytes(&self) -> Seq<u8> {
        native_u32_bytes(*self)
    }

    open spec fn spec_size() -> nat {
        4
    }

    proof fn lemma_encoding(a: &Self, b: &Self) {
        lemma_native_u32(*a, seq![]);
        lemma_native_u32_injective(*a, *b);
    }

    fn parse(bytes: &[u8]) -> (r: Result<(Self, &[u8]), ParseError>) {
        if bytes.len() < 4 {
            return Err(ParseError { expected: 4, got: bytes.len() });
        }
        let (data, rem) = bytes.split_at(4);
        let v = pod_read_u32(data);
        proof {
            lemma_native_u32(v, data@);
        }
        assert(data@ =~= bytes@.take(4));
        assert(rem@ =~= bytes@.skip(4));
        Ok((v, rem))
    }

    fn size(&self) -> (r: usize) {
        assert(Self::spec_size() == 4);
        4
    }

    fn serialize(&self, target: &mut [u8]) -> (r: usize) {
        let bytes = bytes_of_u32(self);
        proof {
            lemma_native_u32(*self, seq![]);
        }
        copy_prefix(target, bytes);
        4
    }
}

/// Parsing the encoding of a frame, followed by any bytes, gives back the
/// frame and exactly the bytes that followed it.
pub proof fn lemma_parse_of_encoding<F: Frame>(v: F, rest: Seq<u8>, parsed: F, rem: Seq<u8>)
    requires
        parsed.spec_bytes() == (v.spec_bytes() + rest).take(F::spec_size() as int),
        rem == (v.spec_bytes() + rest).skip(F::spec_size() as int),
    ensures
        parsed == v,
        rem == rest,
{
    F::lemma_encoding(&v, &parsed);
    F::lemma_encoding(&parsed, &v);
    assert((v.spec_bytes() + rest).take(F::spec_size() as int) =~= v.spec_bytes());
    assert((v.spec_bytes() + rest).skip(F::spec_size() as int) =~= rest);
}

} // verus!
