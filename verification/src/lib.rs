//! Codec for the memcached binary wire protocol.
//!
//! Packets consist of a fixed 24-byte header followed by three
//! variable-length segments (extras, key, body). Decoding turns a byte
//! buffer into a structured packet or a typed fault; encoding writes a
//! packet back to its exact wire layout, big-endian throughout.

use vstd::prelude::*;

pub mod opcode;
pub mod request;
pub mod response;
pub mod status;

pub use opcode::{opcode_parse, OpCode};
pub use request::{OwnedRequest, ReqHeader, Request};
pub use response::{OwnedResponse, ResHeader, Response};
pub use status::{status_parse, StatusField};

verus! {

use vstd::arithmetic::div_mod::{
    lemma_fundamental_div_mod,
    lemma_fundamental_div_mod_converse,
    lemma_mod_bound,
};
use vstd::slice::slice_index_get;

broadcast use vstd::slice::axiom_spec_len;

/// Everything that can go wrong while decoding a packet.
#[derive(Copy, Clone, Debug, PartialEq, Eq, Structural)]
pub enum Fault {
    /// The opcode byte lies outside every defined command range.
    BadOpCode,
    /// The status value of a response lies outside the defined set.
    BadStatus,
    /// More bytes are needed before the packet can be decoded.
    Incomplete,
    /// A fixed framing byte was wrong: the magic byte (`0x80` for
    /// requests, `0x81` for responses) or the datatype byte (`0x00`).
    BadMagic,
    /// Any other structural violation, such as a declared total body
    /// length smaller than the declared key and extras lengths.
    InvalidPacket,
}

/// Outcome of a decode operation: a value or a [`Fault`].
pub enum ParseResult<T> {
    Done(T),
    Fail(Fault),
}

impl<T> ParseResult<T> {
    /// Takes the decoded value out; only callable when decoding succeeded.
    pub fn unwrap(self) -> (r: T)
        requires
            self is Done,
        ensures
            self == ParseResult::Done(r),
    {
        match self {
            ParseResult::Done(x) => x,
            ParseResult::Fail(_) => vstd::pervasive::unreached(),
        }
    }

    /// True when decoding succeeded.
    pub fn is_ok(&self) -> (r: bool)
        ensures
            r == (self is Done),
    {
        match self {
            ParseResult::Done(_) => true,
            ParseResult::Fail(_) => false,
        }
    }

    /// True when decoding failed.
    pub fn is_err(&self) -> (r: bool)
        ensures
            r == (self is Fail),
    {
        !self.is_ok()
    }

    /// The decoded value, if any.
    pub fn ok(self) -> (r: Option<T>)
        ensures
            self matches ParseResult::Done(x) ==> r == Some(x),
            self is Fail ==> r is None,
    {
        match self {
            ParseResult::Done(x) => Some(x),
            ParseResult::Fail(_) => None,
        }
    }

    /// The fault, if any.
    pub fn err(self) -> (r: Option<Fault>)
        ensures
            self matches ParseResult::Fail(f) ==> r == Some(f),
            self is Done ==> r is None,
    {
        match self {
            ParseResult::Done(_) => None,
            ParseResult::Fail(f) => Some(f),
        }
    }
}

/// The two big-endian bytes of a 16-bit value, most significant first.
pub open spec fn be16_of(x: u16) -> Seq<u8> {
    seq![((x as int) / 0x100) as u8, ((x as int) % 0x100) as u8]
}

/// The four big-endian bytes of a 32-bit value.
pub open spec fn be32_of(x: u32) -> Seq<u8> {
    be16_of(((x as int) / 0x10000) as u16) + be16_of(((x as int) % 0x10000) as u16)
}

/// The eight big-endian bytes of a 64-bit value.
pub open spec fn be64_of(x: u64) -> Seq<u8> {
    be32_of(((x as int) / 0x100000000) as u32) + be32_of(((x as int) % 0x100000000) as u32)
}

/// The value of two bytes read in big-endian order.
pub open spec fn be16_val(s: Seq<u8>) -> int
    recommends
        s.len() == 2,
{
    (s[0] as int) * 0x100 + (s[1] as int)
}

/// The value of four bytes read in big-endian order.
pub open spec fn be32_val(s: Seq<u8>) -> int
    recommends
        s.len() == 4,
{
    (s[0] as int) * 0x1000000 + (s[1] as int) * 0x10000 + (s[2] as int) * 0x100 + (s[3] as int)
}

/// The value of eight bytes read in big-endian order.
pub open spec fn be64_val(s: Seq<u8>) -> int
    recommends
        s.len() == 8,
{
    (s[0] as int) * 0x100000000000000 + (s[1] as int) * 0x1000000000000 + (s[2] as int)
        * 0x10000000000 + (s[3] as int) * 0x100000000 + (s[4] as int) * 0x1000000 + (s[5] as int)
        * 0x10000 + (s[6] as int) * 0x100 + (s[7] as int)
}

/// A 16-bit value survives the trip through its big-endian bytes.
pub proof fn lemma_be16_round_trip(x: u16)
    ensures
        be16_of(x).len() == 2,
        be16_val(be16_of(x)) == x,
{
    lemma_fundamental_div_mod(x as int, 0x100);
    lemma_mod_bound(x as int, 0x100);
}

/// Two bytes survive the trip through their big-endian 16-bit value.
pub proof fn lemma_be16_bytes(s: Seq<u8>)
    requires
        s.len() == 2,
    ensures
        0 <= be16_val(s) < 0x10000,
        be16_of(be16_val(s) as u16) == s,
{
    let v = be16_val(s);
    lemma_fundamental_div_mod_converse(v, 0x100, s[0] as int, s[1] as int);
    assert(be16_of(v as u16) =~= s);
}

/// A 32-bit value survives the trip through its big-endian bytes.
pub proof fn lemma_be32_round_trip(x: u32)
    ensures
        be32_of(x).len() == 4,
        be32_val(be32_of(x)) == x,
{
    let hi = (x as int) / 0x10000;
    let lo = (x as int) % 0x10000;
    lemma_fundamental_div_mod(x as int, 0x10000);
    lemma_mod_bound(x as int, 0x10000);
    lemma_be16_round_trip(hi as u16);
    lemma_be16_round_trip(lo as u16);
}

/// Four bytes survive the trip through their big-endian 32-bit value.
pub proof fn lemma_be32_bytes(s: Seq<u8>)
    requires
        s.len() == 4,
    ensures
        0 <= be32_val(s) < 0x100000000,
        be32_of(be32_val(s) as u32) == s,
{
    let v = be32_val(s);
    let hi = be16_val(s.subrange(0, 2));
    let lo = be16_val(s.subrange(2, 4));
    lemma_be16_bytes(s.subrange(0, 2));
    lemma_be16_bytes(s.subrange(2, 4));
    lemma_fundamental_div_mod_converse(v, 0x10000, hi, lo);
    assert(be32_of(v as u32) =~= s);
}

/// A 64-bit value survives the trip through its big-endian bytes.
pub proof fn lemma_be64_round_trip(x: u64)
    ensures
        be64_of(x).len() == 8,
        be64_val(be64_of(x)) == x,
{
    let hi = (x as int) / 0x100000000;
    let lo = (x as int) % 0x100000000;
    lemma_fundamental_div_mod(x as int, 0x100000000);
    lemma_mod_bound(x as int, 0x100000000);
    lemma_be32_round_trip(hi as u32);
    lemma_be32_round_trip(lo as u32);
}

/// Eight bytes survive the trip through their big-endian 64-bit value.
pub proof fn lemma_be64_bytes(s: Seq<u8>)
    requires
        s.len() == 8,
    ensures
        0 <= be64_val(s) < 0x10000000000000000,
        be64_of(be64_val(s) as u64) == s,
{
    let v = be64_val(s);
    let hi = be32_val(s.subrange(0, 4));
    let lo = be32_val(s.subrange(4, 8));
    lemma_be32_bytes(s.subrange(0, 4));
    lemma_be32_bytes(s.subrange(4, 8));
    lemma_fundamental_div_mod_converse(v, 0x100000000, hi, lo);
    assert(be64_of(v as u64) =~= s);
}

/// The bytes of an optional borrowed segment; an absent segment
/// contributes no bytes.
pub open spec fn opt_bytes(x: Option<&[u8]>) -> Seq<u8> {
    match x {
        Some(s) => s@,
        None => Seq::empty(),
    }
}

/// The key length declared at offset 2 of a 24-byte header.
pub open spec fn hdr_keylen(b: Seq<u8>) -> int {
    be16_val(b.subrange(2, 4))
}

/// The extras length declared at offset 4 of a 24-byte header.
pub open spec fn hdr_extralen(b: Seq<u8>) -> int {
    b[4] as int
}

/// The discriminator at offset 6 of a 24-byte header: the vbucket id
/// of a request, or the status code of a response.
pub open spec fn hdr_disc(b: Seq<u8>) -> int {
    be16_val(b.subrange(6, 8))
}

/// The total body length (extras + key + value) declared at offset 8.
pub open spec fn hdr_total_body(b: Seq<u8>) -> int {
    be32_val(b.subrange(8, 12))
}

/// The value length implied by a 24-byte header: the declared total
/// body length less the declared key and extras lengths.
pub open spec fn hdr_bodylen(b: Seq<u8>) -> int {
    hdr_total_body(b) - hdr_keylen(b) - hdr_extralen(b)
}

/// The opaque correlation token at offset 12 of a 24-byte header.
pub open spec fn hdr_opaque(b: Seq<u8>) -> int {
    be32_val(b.subrange(12, 16))
}

/// The CAS version token at offset 16 of a 24-byte header.
pub open spec fn hdr_cas(b: Seq<u8>) -> int {
    be64_val(b.subrange(16, 24))
}

/// Two adjacent subranges of a sequence join into one.
pub proof fn lemma_subrange_pair(s: Seq<u8>, a: int, m: int, c: int)
    requires
        0 <= a <= m <= c <= s.len(),
    ensures
        s.subrange(a, m) + s.subrange(m, c) == s.subrange(a, c),
{
    assert(s.subrange(a, m) + s.subrange(m, c) =~= s.subrange(a, c));
}

/// Two 24-byte headers that agree on every field region are equal.
pub proof fn lemma_header_bytes_eq(a: Seq<u8>, b: Seq<u8>)
    requires
        a.len() == 24,
        b.len() == 24,
        a[0] == b[0],
        a[1] == b[1],
        a.subrange(2, 4) == b.subrange(2, 4),
        a[4] == b[4],
        a[5] == b[5],
        a.subrange(6, 8) == b.subrange(6, 8),
        a.subrange(8, 12) == b.subrange(8, 12),
        a.subrange(12, 16) == b.subrange(12, 16),
        a.subrange(16, 24) == b.subrange(16, 24),
    ensures
        a == b,
{
    assert forall|i: int| 0 <= i < 24 implies a[i] == b[i] by {
        if 2 <= i < 4 {
            assert(a[i] == a.subrange(2, 4)[i - 2]);
            assert(b[i] == b.subrange(2, 4)[i - 2]);
        } else if 6 <= i < 8 {
            assert(a[i] == a.subrange(6, 8)[i - 6]);
            assert(b[i] == b.subrange(6, 8)[i - 6]);
        } else if 8 <= i < 12 {
            assert(a[i] == a.subrange(8, 12)[i - 8]);
            assert(b[i] == b.subrange(8, 12)[i - 8]);
        } else if 12 <= i < 16 {
            assert(a[i] == a.subrange(12, 16)[i - 12]);
            assert(b[i] == b.subrange(12, 16)[i - 12]);
        } else if 16 <= i < 24 {
            assert(a[i] == a.subrange(16, 24)[i - 16]);
            assert(b[i] == b.subrange(16, 24)[i - 16]);
        }
    }
    assert(a =~= b);
}

/// Reads one byte at the given offset.
pub(crate) fn read_u8(b: &[u8], i: usize) -> (r: u8)
    requires
        i < b@.len(),
    ensures
        r == b@[i as int],
{
    *slice_index_get(b, i)
}

/// Reads a big-endian 16-bit value at the given offset.
pub(crate) fn read_u16(b: &[u8], i: usize) -> (r: u16)
    requires
        i + 2 <= b@.len(),
    ensures
        r == be16_val(b@.subrange(i as int, i + 2)),
{
    proof {
        assert(b@.len() == vstd::slice::spec_slice_len(b));
    }
    let b0 = *slice_index_get(b, i);
    let b1 = *slice_index_get(b, i + 1);
    (b0 as u16) * 0x100 + (b1 as u16)
}

/// Reads a big-endian 32-bit value at the given offset.
pub(crate) fn read_u32(b: &[u8], i: usize) -> (r: u32)
    requires
        i + 4 <= b@.len(),
    ensures
        r == be32_val(b@.subrange(i as int, i + 4)),
{
    proof {
        assert(b@.len() == vstd::slice::spec_slice_len(b));
    }
    let hi = read_u16(b, i);
    let lo = read_u16(b, i + 2);
    (hi as u32) * 0x10000 + (lo as u32)
}

/// Reads a big-endian 64-bit value at the given offset.
pub(crate) fn read_u64(b: &[u8], i: usize) -> (r: u64)
    requires
        i + 8 <= b@.len(),
    ensures
        r == be64_val(b@.subrange(i as int, i + 8)),
{
    proof {
        assert(b@.len() == vstd::slice::spec_slice_len(b));
    }
    let hi = read_u32(b, i);
    let lo = read_u32(b, i + 4);
    (hi as u64) * 0x100000000 + (lo as u64)
}

/// Lengths common to every packet and header.
///
/// The three getters report the lengths a packet declares for its key,
/// extras and value segments; `total_len` is the size of the whole
/// encoded packet, the 24-byte header included.
pub trait PacketVal {
    /// The declared key length.
    spec fn spec_keylen(&self) -> int;

    /// The declared extras length.
    spec fn spec_extralen(&self) -> int;

    /// The declared value length.
    spec fn spec_bodylen(&self) -> int;

    fn get_keylen(&self) -> (r: usize)
        ensures
            r == self.spec_keylen(),
            0 <= self.spec_keylen() <= u16::MAX,
    ;

    fn get_extralen(&self) -> (r: usize)
        ensures
            r == self.spec_extralen(),
            0 <= self.spec_extralen() <= u8::MAX,
    ;

    fn get_bodylen(&self) -> (r: usize)
        ensures
            r == self.spec_bodylen(),
            0 <= self.spec_bodylen() <= u32::MAX,
    ;

    /// The size in bytes of the whole encoded packet: the fixed
    /// header plus the three declared segment lengths.
    fn total_len(&self) -> (r: usize)
        requires
            24 + self.spec_extralen() + self.spec_keylen() + self.spec_bodylen() <= usize::MAX,
        ensures
            r == 24 + self.spec_extralen() + self.spec_keylen() + self.spec_bodylen(),
    {
        self.get_keylen() + self.get_extralen() + self.get_bodylen() + 24
    }
}

/// A byte buffer with a write cursor, used to encode packets.
///
/// The buffer holds exactly the bytes written so far; constructing it
/// from a packet reserves the packet's `total_len` up front, so the
/// sequential writes of one whole packet never reallocate.
pub struct Encoder {
    data: Vec<u8>,
}

impl View for Encoder {
    type V = Seq<u8>;

    closed spec fn view(&self) -> Seq<u8> {
        self.data@
    }
}

impl Encoder {
    /// Allocates an empty encoder with room for the given packet.
    pub fn new<P: PacketVal>(msg: &P) -> (r: Encoder)
        requires
            24 + msg.spec_extralen() + msg.spec_keylen() + msg.spec_bodylen() <= usize::MAX,
        ensures
            r@ == Seq::<u8>::empty(),
    {
        let len = msg.total_len();
        Encoder { data: Vec::with_capacity(len) }
    }

    /// Reuses a caller-supplied buffer, clearing it and growing its
    /// capacity only when it cannot hold the given packet.
    pub fn from_vec<P: PacketVal>(msg: &P, x: Vec<u8>) -> (r: Encoder)
        requires
            24 + msg.spec_extralen() + msg.spec_keylen() + msg.spec_bodylen() <= usize::MAX,
        ensures
            r@ == Seq::<u8>::empty(),
    {
        let mut x = x;
        let len = msg.total_len();
        x.clear();
        x.reserve(len);
        Encoder { data: x }
    }

    /// Allocates an empty encoder with the given capacity.
    pub fn with_capacity(size: usize) -> (r: Encoder)
        ensures
            r@ == Seq::<u8>::empty(),
    {
        Encoder { data: Vec::with_capacity(size) }
    }

    /// Consumes the encoder and hands back the underlying buffer, so
    /// its memory can be reused for a later packet.
    pub fn get_vec(self) -> (r: Vec<u8>)
        ensures
            r@ == self@,
    {
        self.data
    }

    /// The bytes written so far.
    pub fn as_slice(&self) -> (r: &[u8])
        ensures
            r@ == self@,
    {
        self.data.as_slice()
    }

    /// How many bytes have been written.
    pub fn len(&self) -> (r: usize)
        ensures
            r == self@.len(),
    {
        self.data.len()
    }

    /// Appends one byte.
    pub fn encode_u8(&mut self, x: u8)
        ensures
            final(self)@ == old(self)@.push(x),
    {
        self.data.push(x);
    }

    /// Appends a 16-bit value, big-endian.
    pub fn encode_u16(&mut self, x: u16)
        ensures
            final(self)@ == old(self)@ + be16_of(x),
    {
        proof {
            lemma_fundamental_div_mod(x as int, 0x100);
            lemma_mod_bound(x as int, 0x100);
        }
        self.data.push((x / 0x100) as u8);
        self.data.push((x % 0x100) as u8);
        proof {
            assert(self@ =~= old(self)@ + be16_of(x));
        }
    }

    /// Appends a 32-bit value, big-endian.
    pub fn encode_u32(&mut self, x: u32)
        ensures
            final(self)@ == old(self)@ + be32_of(x),
    {
        proof {
            lemma_fundamental_div_mod(x as int, 0x10000);
            lemma_mod_bound(x as int, 0x10000);
        }
        self.encode_u16((x / 0x10000) as u16);
        self.encode_u16((x % 0x10000) as u16);
        proof {
            assert(self@ =~= old(self)@ + be32_of(x));
        }
    }

    /// Appends a 64-bit value, big-endian.
    pub fn encode_u64(&mut self, x: u64)
        ensures
            final(self)@ == old(self)@ + be64_of(x),
    {
        proof {
            lemma_fundamental_div_mod(x as int, 0x100000000);
            lemma_mod_bound(x as int, 0x100000000);
        }
        self.encode_u32((x / 0x100000000) as u32);
        self.encode_u32((x % 0x100000000) as u32);
        proof {
            assert(self@ =~= old(self)@ + be64_of(x));
        }
    }

    /// Appends a whole byte slice.
    pub fn encode_slice(&mut self, x: &[u8])
        ensures
            final(self)@ == old(self)@ + x@,
    {
        self.data.extend_from_slice(x);
    }
}

/// Values that know their own wire bytes.
///
/// `enc_bytes` is the exact byte sequence a value stands for on the
/// wire; `encode` appends those bytes to an encoder. `enc_wf` holds of
/// every value whose declared lengths are consistent, which decoding
/// and the packet constructors guarantee.
pub trait Encoding {
    /// The wire bytes of this value.
    spec fn enc_bytes(&self) -> Seq<u8>;

    /// When the value can be encoded at all.
    spec fn enc_wf(&self) -> bool;

    /// Appends this value's wire bytes to the buffer.
    fn encode(&self, buffer: &mut Encoder)
        requires
            self.enc_wf(),
        ensures
            final(buffer)@ == old(buffer)@ + self.enc_bytes(),
    ;
}

impl Encoding for u8 {
    open spec fn enc_bytes(&self) -> Seq<u8> {
        seq![*self]
    }

    open spec fn enc_wf(&self) -> bool {
        true
    }

    fn encode(&self, buffer: &mut Encoder) {
        buffer.encode_u8(*self);
        proof {
            assert(buffer@ =~= old(buffer)@ + self.enc_bytes());
        }
    }
}

impl Encoding for u16 {
    open spec fn enc_bytes(&self) -> Seq<u8> {
        be16_of(*self)
    }

    open spec fn enc_wf(&self) -> bool {
        true
    }

    fn encode(&self, buffer: &mut Encoder) {
        buffer.encode_u16(*self);
    }
}

impl Encoding for u32 {
    open spec fn enc_bytes(&self) -> Seq<u8> {
        be32_of(*self)
    }

    open spec fn enc_wf(&self) -> bool {
        true
    }

    fn encode(&self, buffer: &mut Encoder) {
        buffer.encode_u32(*self);
    }
}

impl Encoding for u64 {
    open spec fn enc_bytes(&self) -> Seq<u8> {
        be64_of(*self)
    }

    open spec fn enc_wf(&self) -> bool {
        true
    }

    fn encode(&self, buffer: &mut Encoder) {
        buffer.encode_u64(*self);
    }
}

impl Encoding for [u8] {
    open spec fn enc_bytes(&self) -> Seq<u8> {
        self@
    }

    open spec fn enc_wf(&self) -> bool {
        true
    }

    fn encode(&self, buffer: &mut Encoder) {
        buffer.encode_slice(self);
    }
}

impl Encoding for Vec<u8> {
    open spec fn enc_bytes(&self) -> Seq<u8> {
        self@
    }

    open spec fn enc_wf(&self) -> bool {
        true
    }

    fn encode(&self, buffer: &mut Encoder) {
        buffer.encode_slice(self.as_slice());
    }
}

impl<'a> Encoding for Option<&'a [u8]> {
    open spec fn enc_bytes(&self) -> Seq<u8> {
        opt_bytes(*self)
    }

    open spec fn enc_wf(&self) -> bool {
        true
    }

    fn encode(&self, buffer: &mut Encoder) {
        match self {
            Option::None => {
                proof {
                    assert(buffer@ =~= old(buffer)@ + self.enc_bytes());
                }
            },
            Option::Some(x) => {
                buffer.encode_slice(x);
            },
        }
    }
}

} // verus!
