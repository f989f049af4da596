//! Response packets: the 24-byte response header carrying a status
//! code, a zero-copy packet borrowing its segments from the input
//! buffer, and an owning packet holding private copies.

use vstd::prelude::*;

verus! {

use crate::opcode::{
    lemma_opcode_byte_round_trip,
    lemma_opcode_round_trip,
    opcode_byte,
    opcode_of_byte,
    opcode_parse,
    valid_opcode_byte,
    OpCode,
};
use crate::status::{
    lemma_status_code_round_trip,
    lemma_status_round_trip,
    spec_valid_status,
    status_code,
    status_of_code,
    status_parse,
    StatusField,
};
use crate::{
    be16_of,
    be32_of,
    be64_of,
    hdr_cas,
    hdr_disc,
    hdr_extralen,
    hdr_keylen,
    hdr_opaque,
    hdr_total_body,
    lemma_be16_bytes,
    lemma_be16_round_trip,
    lemma_be32_bytes,
    lemma_be32_round_trip,
    lemma_be64_bytes,
    lemma_be64_round_trip,
    lemma_header_bytes_eq,
    lemma_subrange_pair,
    opt_bytes,
    read_u16,
    read_u32,
    read_u64,
    read_u8,
    Encoder,
    Encoding,
    Fault,
    PacketVal,
    ParseResult,
};
use vstd::slice::{slice_subrange, slice_to_vec};

/// The fixed 24-byte preamble of a response packet.
///
/// Where a request carries a vbucket id, a response carries a status;
/// `bodylen` is the length of the value segment alone.
#[derive(Clone, Debug, PartialEq, Eq)]
pub struct ResHeader {
    pub code: OpCode,
    pub extralen: u8,
    pub status: StatusField,
    pub keylen: u16,
    pub bodylen: u32,
    pub opaque: u32,
    pub cas: u64,
}

impl ResHeader {
    /// The total body length the header declares on the wire.
    pub open spec fn total_body(&self) -> int {
        self.extralen + self.keylen + self.bodylen
    }

    /// The declared lengths fit the 32-bit wire field.
    pub open spec fn wf(&self) -> bool {
        self.total_body() <= u32::MAX
    }
}

/// The exact 24 wire bytes of a response header.
pub open spec fn res_header_bytes(h: ResHeader) -> Seq<u8> {
    seq![0x81u8, opcode_byte(h.code)] + be16_of(h.keylen) + seq![h.extralen, 0x00u8] + be16_of(
        status_code(h.status),
    ) + be32_of(h.total_body() as u32) + be32_of(h.opaque) + be64_of(h.cas)
}

/// Why a buffer fails to decode as a response header, or `None` when
/// it decodes. The checks run in wire order and stop at the first
/// fault: magic byte, opcode, datatype byte, status, and last the
/// length arithmetic.
pub open spec fn res_header_fault(b: Seq<u8>) -> Option<Fault> {
    if b.len() < 1 {
        Some(Fault::Incomplete)
    } else if b[0] != 0x81 {
        Some(Fault::BadMagic)
    } else if b.len() < 2 {
        Some(Fault::Incomplete)
    } else if !valid_opcode_byte(b[1]) {
        Some(Fault::BadOpCode)
    } else if b.len() < 6 {
        Some(Fault::Incomplete)
    } else if b[5] != 0x00 {
        Some(Fault::BadMagic)
    } else if b.len() < 8 {
        Some(Fault::Incomplete)
    } else if !spec_valid_status(hdr_disc(b)) {
        Some(Fault::BadStatus)
    } else if b.len() < 24 {
        Some(Fault::Incomplete)
    } else if hdr_total_body(b) < hdr_keylen(b) + hdr_extralen(b) {
        Some(Fault::InvalidPacket)
    } else {
        None
    }
}

/// The header a fault-free buffer decodes to.
pub open spec fn res_header_model(b: Seq<u8>) -> ResHeader
    recommends
        res_header_fault(b) is None,
{
    ResHeader {
        code: opcode_of_byte(b[1]),
        extralen: b[4],
        status: status_of_code(hdr_disc(b)),
        keylen: hdr_keylen(b) as u16,
        bodylen: (hdr_total_body(b) - hdr_keylen(b) - hdr_extralen(b)) as u32,
        opaque: hdr_opaque(b) as u32,
        cas: hdr_cas(b) as u64,
    }
}

/// The wire bytes of a well-formed response header carry exactly its
/// fields: they pass every decoding check and decode back to the same
/// header.
pub proof fn lemma_res_header_parts(h: ResHeader)
    requires
        h.wf(),
    ensures
        res_header_bytes(h).len() == 24,
        res_header_bytes(h)[0] == 0x81u8,
        res_header_bytes(h)[1] == opcode_byte(h.code),
        res_header_bytes(h).subrange(2, 4) == be16_of(h.keylen),
        res_header_bytes(h)[4] == h.extralen,
        res_header_bytes(h)[5] == 0x00u8,
        res_header_bytes(h).subrange(6, 8) == be16_of(status_code(h.status)),
        res_header_bytes(h).subrange(8, 12) == be32_of(h.total_body() as u32),
        res_header_bytes(h).subrange(12, 16) == be32_of(h.opaque),
        res_header_bytes(h).subrange(16, 24) == be64_of(h.cas),
        hdr_keylen(res_header_bytes(h)) == h.keylen,
        hdr_extralen(res_header_bytes(h)) == h.extralen,
        hdr_disc(res_header_bytes(h)) == status_code(h.status),
        hdr_total_body(res_header_bytes(h)) == h.total_body(),
        hdr_opaque(res_header_bytes(h)) == h.opaque,
        hdr_cas(res_header_bytes(h)) == h.cas,
        res_header_fault(res_header_bytes(h)) is None,
        res_header_model(res_header_bytes(h)) == h,
{
    let s = res_header_bytes(h);
    lemma_be16_round_trip(h.keylen);
    lemma_be16_round_trip(status_code(h.status));
    lemma_be32_round_trip(h.total_body() as u32);
    lemma_be32_round_trip(h.opaque);
    lemma_be64_round_trip(h.cas);
    lemma_opcode_round_trip(h.code);
    lemma_status_round_trip(h.status);
    assert(s.subrange(2, 4) =~= be16_of(h.keylen));
    assert(s.subrange(6, 8) =~= be16_of(status_code(h.status)));
    assert(s.subrange(8, 12) =~= be32_of(h.total_body() as u32));
    assert(s.subrange(12, 16) =~= be32_of(h.opaque));
    assert(s.subrange(16, 24) =~= be64_of(h.cas));
}

impl ResHeader {
    /// The command this response answers.
    pub fn get_opcode(&self) -> (r: OpCode)
        ensures
            r == self.code,
    {
        self.code
    }

    /// The correlation token echoed back from the request.
    pub fn get_opaque(&self) -> (r: u32)
        ensures
            r == self.opaque,
    {
        self.opaque
    }

    /// The check-and-set version token.
    pub fn get_cas(&self) -> (r: u64)
        ensures
            r == self.cas,
    {
        self.cas
    }

    /// `Ok(())` exactly when the status is `NoError`; every other
    /// status is returned as the error, never silently coerced.
    pub fn check_status(&self) -> (r: Result<(), StatusField>)
        ensures
            r is Ok <==> self.status == StatusField::NoError,
            r matches Err(e) ==> e == self.status && e != StatusField::NoError,
    {
        self.status.check_status()
    }

    /// Decodes the first 24 bytes of a buffer as a response header.
    ///
    /// Succeeds exactly on the fault-free buffers, returning the
    /// decoded header, whose re-encoding is the buffer's own first 24
    /// bytes; otherwise returns the first fault in wire order.
    #[verifier::rlimit(60)]
    pub fn parse(x: &[u8]) -> (r: ParseResult<ResHeader>)
        ensures
            r matches ParseResult::Done(h) ==> ({
                &&& res_header_fault(x@) is None
                &&& h == res_header_model(x@)
                &&& h.wf()
                &&& x@.subrange(0, 24) == res_header_bytes(h)
            }),
            r matches ParseResult::Fail(f) ==> res_header_fault(x@) == Some(f),
    {
        if x.len() < 1 {
            return ParseResult::Fail(Fault::Incomplete);
        }
        if read_u8(x, 0) != 0x81 {
            return ParseResult::Fail(Fault::BadMagic);
        }
        if x.len() < 2 {
            return ParseResult::Fail(Fault::Incomplete);
        }
        let code = match opcode_parse(slice_subrange(x, 1, x.len())) {
            ParseResult::Done(c) => c,
            ParseResult::Fail(_) => {
                return ParseResult::Fail(Fault::BadOpCode);
            },
        };
        if x.len() < 6 {
            return ParseResult::Fail(Fault::Incomplete);
        }
        if read_u8(x, 5) != 0x00 {
            return ParseResult::Fail(Fault::BadMagic);
        }
        let status = match status_parse(slice_subrange(x, 6, x.len())) {
            ParseResult::Done(st) => st,
            ParseResult::Fail(f) => {
                proof {
                    if x@.len() >= 8 {
                        assert(x@.subrange(6, x@.len() as int).subrange(0, 2) =~= x@.subrange(
                            6,
                            8,
                        ));
                    }
                }
                return ParseResult::Fail(f);
            },
        };
        proof {
            assert(x@.subrange(6, x@.len() as int).subrange(0, 2) =~= x@.subrange(6, 8));
        }
        if x.len() < 24 {
            return ParseResult::Fail(Fault::Incomplete);
        }
        let keylen = read_u16(x, 2);
        let extralen = read_u8(x, 4);
        let total_body = read_u32(x, 8);
        let opaque = read_u32(x, 12);
        let cas = read_u64(x, 16);
        if total_body < (keylen as u32) + (extralen as u32) {
            return ParseResult::Fail(Fault::InvalidPacket);
        }
        let h = ResHeader {
            code,
            extralen,
            status,
            keylen,
            bodylen: total_body - (keylen as u32) - (extralen as u32),
            opaque,
            cas,
        };
        proof {
            let b = x@;
            assert(b.subrange(1, b.len() as int)[0] == b[1]);
            lemma_be16_bytes(b.subrange(2, 4));
            lemma_be16_bytes(b.subrange(6, 8));
            lemma_be32_bytes(b.subrange(8, 12));
            lemma_be32_bytes(b.subrange(12, 16));
            lemma_be64_bytes(b.subrange(16, 24));
            lemma_opcode_byte_round_trip(b[1]);
            lemma_status_code_round_trip(hdr_disc(b));
            lemma_res_header_parts(h);
            let s = b.subrange(0, 24);
            assert(s.subrange(2, 4) =~= b.subrange(2, 4));
            assert(s.subrange(6, 8) =~= b.subrange(6, 8));
            assert(s.subrange(8, 12) =~= b.subrange(8, 12));
            assert(s.subrange(12, 16) =~= b.subrange(12, 16));
            assert(s.subrange(16, 24) =~= b.subrange(16, 24));
            lemma_header_bytes_eq(s, res_header_bytes(h));
        }
        ParseResult::Done(h)
    }
}

impl PacketVal for ResHeader {
    open spec fn spec_keylen(&self) -> int {
        self.keylen as int
    }

    open spec fn spec_extralen(&self) -> int {
        self.extralen as int
    }

    open spec fn spec_bodylen(&self) -> int {
        self.bodylen as int
    }

    fn get_keylen(&self) -> usize {
        self.keylen as usize
    }

    fn get_extralen(&self) -> usize {
        self.extralen as usize
    }

    fn get_bodylen(&self) -> usize {
        self.bodylen as usize
    }
}

impl Encoding for ResHeader {
    open spec fn enc_bytes(&self) -> Seq<u8> {
        res_header_bytes(*self)
    }

    open spec fn enc_wf(&self) -> bool {
        self.wf()
    }

    /// Writes the nine header fields in wire order, re-inserting the
    /// magic and datatype constants.
    fn encode(&self, buffer: &mut Encoder) {
        buffer.encode_u8(0x81);
        buffer.encode_u8(crate::opcode::opcode_encode_byte(self.code));
        buffer.encode_u16(self.keylen);
        buffer.encode_u8(self.extralen);
        buffer.encode_u8(0x00);
        buffer.encode_u16(crate::status::status_encode_code(self.status));
        buffer.encode_u32(self.bodylen + (self.keylen as u32) + (self.extralen as u32));
        buffer.encode_u32(self.opaque);
        buffer.encode_u64(self.cas);
        proof {
            assert(buffer@ =~= old(buffer)@ + self.enc_bytes());
        }
    }
}

/// Why a buffer fails to decode as a whole response packet, or `None`
/// when it decodes: a header fault, or too few bytes for the declared
/// segments.
pub open spec fn res_packet_fault(b: Seq<u8>) -> Option<Fault> {
    if res_header_fault(b) is Some {
        res_header_fault(b)
    } else if b.len() < 24 + hdr_total_body(b) {
        Some(Fault::Incomplete)
    } else {
        None
    }
}

/// The length of an optional segment.
fn get_len(x: &Option<&[u8]>) -> (r: usize)
    ensures
        r == opt_bytes(*x).len(),
{
    match x {
        Option::None => 0,
        Option::Some(b) => b.len(),
    }
}

/// Normalizes a zero-length segment to an absent one, so presence
/// queries are reliable.
fn opt_norm<'b>(x: Option<&'b [u8]>) -> (r: Option<&'b [u8]>)
    ensures
        opt_bytes(r) == opt_bytes(x),
        r matches Some(s) ==> s@.len() > 0,
{
    match x {
        Option::Some(s) => {
            if s.len() == 0 {
                None
            } else {
                Some(s)
            }
        },
        Option::None => None,
    }
}

/// Copies an optional segment into an owned buffer; an absent segment
/// becomes an empty buffer that allocates nothing.
fn opt_to_vec(x: Option<&[u8]>) -> (r: Vec<u8>)
    ensures
        r@ == opt_bytes(x),
{
    match x {
        Option::Some(s) => slice_to_vec(s),
        Option::None => Vec::new(),
    }
}

/// A response packet borrowing its segments from the decoded buffer.
///
/// Decoding allocates nothing; the packet is valid as long as the
/// input buffer lives.
#[derive(Clone, Debug)]
pub struct Response<'a> {
    pub header: ResHeader,
    pub extra: Option<&'a [u8]>,
    pub key: Option<&'a [u8]>,
    pub body: Option<&'a [u8]>,
}

impl<'a> Response<'a> {
    /// The header lengths agree with the segments actually held, the
    /// declared lengths fit their wire fields and the whole packet is
    /// addressable, and no present segment is empty.
    pub open spec fn wf(&self) -> bool {
        &&& self.header.wf()
        &&& 24 + self.header.total_body() <= usize::MAX
        &&& opt_bytes(self.extra).len() == self.header.extralen
        &&& opt_bytes(self.key).len() == self.header.keylen
        &&& opt_bytes(self.body).len() == self.header.bodylen
        &&& (self.extra matches Some(s) ==> s@.len() > 0)
        &&& (self.key matches Some(s) ==> s@.len() > 0)
        &&& (self.body matches Some(s) ==> s@.len() > 0)
    }

    /// The exact wire bytes of the packet: header, extras, key, value.
    pub open spec fn spec_bytes(&self) -> Seq<u8> {
        res_header_bytes(self.header) + opt_bytes(self.extra) + opt_bytes(self.key) + opt_bytes(
            self.body,
        )
    }

    /// Decodes a whole response packet, borrowing its segments from
    /// the buffer.
    ///
    /// Succeeds exactly on the fault-free buffers; the decoded packet
    /// is well formed, its fields are the buffer's own, and its
    /// re-encoding is the buffer's first `total_len` bytes.
    pub fn parse(x: &'a [u8]) -> (r: ParseResult<Response<'a>>)
        ensures
            r matches ParseResult::Done(p) ==> ({
                &&& res_packet_fault(x@) is None
                &&& p.wf()
                &&& p.header == res_header_model(x@)
                &&& opt_bytes(p.extra) == x@.subrange(24, 24 + hdr_extralen(x@))
                &&& opt_bytes(p.key) == x@.subrange(
                    24 + hdr_extralen(x@),
                    24 + hdr_extralen(x@) + hdr_keylen(x@),
                )
                &&& opt_bytes(p.body) == x@.subrange(
                    24 + hdr_extralen(x@) + hdr_keylen(x@),
                    24 + hdr_total_body(x@),
                )
                &&& p.spec_bytes() == x@.subrange(0, 24 + hdr_total_body(x@))
            }),
            r matches ParseResult::Fail(f) ==> res_packet_fault(x@) == Some(f),
    {
        let h = match ResHeader::parse(x) {
            ParseResult::Done(h) => h,
            ParseResult::Fail(f) => {
                return ParseResult::Fail(f);
            },
        };
        let e = h.get_extralen();
        let k = h.get_keylen();
        let b = h.get_bodylen();
        let total = e + k + b;
        if x.len() - 24 < total {
            return ParseResult::Fail(Fault::Incomplete);
        }
        let extra = if e == 0 {
            None
        } else {
            Some(slice_subrange(x, 24, 24 + e))
        };
        let key = if k == 0 {
            None
        } else {
            Some(slice_subrange(x, 24 + e, 24 + e + k))
        };
        let body = if b == 0 {
            None
        } else {
            Some(slice_subrange(x, 24 + e + k, 24 + e + k + b))
        };
        let p = Response { header: h, extra, key, body };
        proof {
            let bytes = x@;
            let ei = e as int;
            let ki = k as int;
            let bi = b as int;
            assert(opt_bytes(p.extra) =~= bytes.subrange(24, 24 + ei));
            assert(opt_bytes(p.key) =~= bytes.subrange(24 + ei, 24 + ei + ki));
            assert(opt_bytes(p.body) =~= bytes.subrange(24 + ei + ki, 24 + ei + ki + bi));
            lemma_subrange_pair(bytes, 0, 24, 24 + ei);
            lemma_subrange_pair(bytes, 0, 24 + ei, 24 + ei + ki);
            lemma_subrange_pair(bytes, 0, 24 + ei + ki, 24 + ei + ki + bi);
        }
        ParseResult::Done(p)
    }

    /// Encodes the packet into a freshly sized buffer.
    pub fn encode_self(&self) -> (r: Encoder)
        requires
            self.wf(),
        ensures
            r@ == self.spec_bytes(),
            r@.len() == 24 + self.header.total_body(),
    {
        let mut e = Encoder::new(self);
        self.encode(&mut e);
        proof {
            lemma_res_header_parts(self.header);
        }
        e
    }

    /// Encodes the packet into a caller-supplied buffer, growing it
    /// only when its capacity is insufficient.
    pub fn encode_into_buffer(&self, x: Vec<u8>) -> (r: Encoder)
        requires
            self.wf(),
        ensures
            r@ == self.spec_bytes(),
            r@.len() == 24 + self.header.total_body(),
    {
        let mut e = Encoder::from_vec(self, x);
        self.encode(&mut e);
        proof {
            lemma_res_header_parts(self.header);
        }
        e
    }

    /// Builds a response from its parts, without validating segment
    /// contents: keys are opaque bytes to this codec. Zero-length
    /// segments are stored as absent.
    pub fn new(
        opcode: OpCode,
        status: StatusField,
        opaque: u32,
        cas: u64,
        extra: Option<&'a [u8]>,
        key: Option<&'a [u8]>,
        body: Option<&'a [u8]>,
    ) -> (r: Response<'a>)
        requires
            opt_bytes(extra).len() <= u8::MAX,
            opt_bytes(key).len() <= u16::MAX,
            opt_bytes(extra).len() + opt_bytes(key).len() + opt_bytes(body).len() <= u32::MAX,
            24 + opt_bytes(extra).len() + opt_bytes(key).len() + opt_bytes(body).len()
                <= usize::MAX,
        ensures
            r.wf(),
            r.header.code == opcode,
            r.header.status == status,
            r.header.opaque == opaque,
            r.header.cas == cas,
            r.header.extralen == opt_bytes(extra).len(),
            r.header.keylen == opt_bytes(key).len(),
            r.header.bodylen == opt_bytes(body).len(),
            opt_bytes(r.extra) == opt_bytes(extra),
            opt_bytes(r.key) == opt_bytes(key),
            opt_bytes(r.body) == opt_bytes(body),
    {
        let e = get_len(&extra);
        let k = get_len(&key);
        let b = get_len(&body);
        Response {
            header: ResHeader {
                code: opcode,
                status,
                extralen: e as u8,
                keylen: k as u16,
                bodylen: b as u32,
                opaque,
                cas,
            },
            extra: opt_norm(extra),
            key: opt_norm(key),
            body: opt_norm(body),
        }
    }

    /// Overwrites this response in place with the same semantics as
    /// [`Response::new`], reusing the existing storage.
    pub fn rebuild(
        &mut self,
        opcode: OpCode,
        status: StatusField,
        opaque: u32,
        cas: u64,
        extra: Option<&'a [u8]>,
        key: Option<&'a [u8]>,
        body: Option<&'a [u8]>,
    )
        requires
            opt_bytes(extra).len() <= u8::MAX,
            opt_bytes(key).len() <= u16::MAX,
            opt_bytes(extra).len() + opt_bytes(key).len() + opt_bytes(body).len() <= u32::MAX,
            24 + opt_bytes(extra).len() + opt_bytes(key).len() + opt_bytes(body).len()
                <= usize::MAX,
        ensures
            final(self).wf(),
            final(self).header.code == opcode,
            final(self).header.status == status,
            final(self).header.opaque == opaque,
            final(self).header.cas == cas,
            final(self).header.extralen == opt_bytes(extra).len(),
            final(self).header.keylen == opt_bytes(key).len(),
            final(self).header.bodylen == opt_bytes(body).len(),
            opt_bytes(final(self).extra) == opt_bytes(extra),
            opt_bytes(final(self).key) == opt_bytes(key),
            opt_bytes(final(self).body) == opt_bytes(body),
    {
        let e = get_len(&extra);
        let k = get_len(&key);
        let b = get_len(&body);
        self.header.code = opcode;
        self.header.status = status;
        self.header.extralen = e as u8;
        self.header.keylen = k as u16;
        self.header.bodylen = b as u32;
        self.header.opaque = opaque;
        self.header.cas = cas;
        self.extra = opt_norm(extra);
        self.key = opt_norm(key);
        self.body = opt_norm(body);
    }

    /// The command this response answers.
    pub fn get_opcode(&self) -> (r: OpCode)
        ensures
            r == self.header.code,
    {
        self.header.get_opcode()
    }

    /// The correlation token echoed back from the request.
    pub fn get_opaque(&self) -> (r: u32)
        ensures
            r == self.header.opaque,
    {
        self.header.opaque
    }

    /// The check-and-set version token.
    pub fn get_cas(&self) -> (r: u64)
        ensures
            r == self.header.cas,
    {
        self.header.cas
    }

    /// `Ok(())` exactly when the status is `NoError`; every other
    /// status is returned as the error, never silently coerced.
    pub fn check_status(&self) -> (r: Result<(), StatusField>)
        ensures
            r is Ok <==> self.header.status == StatusField::NoError,
            r matches Err(e) ==> e == self.header.status && e != StatusField::NoError,
    {
        self.header.check_status()
    }

    /// Whether an extras segment is present.
    pub fn has_extra(&self) -> (r: bool)
        ensures
            r == (self.extra is Some),
    {
        self.extra.is_some()
    }

    /// The extras segment, if present.
    pub fn get_extra(&'a self) -> (r: Option<&'a [u8]>)
        ensures
            r == self.extra,
    {
        self.extra
    }

    /// Whether a key segment is present.
    pub fn has_key(&self) -> (r: bool)
        ensures
            r == (self.key is Some),
    {
        self.key.is_some()
    }

    /// The key segment, if present.
    pub fn get_key(&'a self) -> (r: Option<&'a [u8]>)
        ensures
            r == self.key,
    {
        self.key
    }

    /// Whether a value segment is present.
    pub fn has_body(&self) -> (r: bool)
        ensures
            r == (self.body is Some),
    {
        self.body.is_some()
    }

    /// The value segment, if present.
    pub fn get_body(&'a self) -> (r: Option<&'a [u8]>)
        ensures
            r == self.body,
    {
        self.body
    }

    /// Copies the borrowed segments into an owning packet, so the
    /// packet can outlive the buffer it was decoded from. Absent
    /// segments become empty buffers that allocate nothing.
    pub fn to_owned(self) -> (r: OwnedResponse)
        ensures
            r.header == self.header,
            r.extra@ == opt_bytes(self.extra),
            r.key@ == opt_bytes(self.key),
            r.body@ == opt_bytes(self.body),
            self.wf() ==> r.wf(),
    {
        OwnedResponse {
            body: opt_to_vec(self.body),
            key: opt_to_vec(self.key),
            extra: opt_to_vec(self.extra),
            header: self.header,
        }
    }
}

impl<'a> PacketVal for Response<'a> {
    open spec fn spec_keylen(&self) -> int {
        self.header.keylen as int
    }

    open spec fn spec_extralen(&self) -> int {
        self.header.extralen as int
    }

    open spec fn spec_bodylen(&self) -> int {
        self.header.bodylen as int
    }

    fn get_keylen(&self) -> usize {
        self.header.keylen as usize
    }

    fn get_extralen(&self) -> usize {
        self.header.extralen as usize
    }

    fn get_bodylen(&self) -> usize {
        self.header.bodylen as usize
    }
}

impl<'a> Encoding for Response<'a> {
    open spec fn enc_bytes(&self) -> Seq<u8> {
        self.spec_bytes()
    }

    open spec fn enc_wf(&self) -> bool {
        self.wf()
    }

    /// Writes the header, then extras, key and value, in wire order.
    fn encode(&self, buffer: &mut Encoder) {
        self.header.encode(buffer);
        self.extra.encode(buffer);
        self.key.encode(buffer);
        self.body.encode(buffer);
        proof {
            assert(buffer@ =~= old(buffer)@ + self.enc_bytes());
        }
    }
}

/// A response packet owning private copies of its segments.
///
/// Behaves like [`Response`] but carries no lifetime, so it can
/// outlive the decoded buffer or move across threads.
pub struct OwnedResponse {
    pub header: ResHeader,
    pub extra: Vec<u8>,
    pub key: Vec<u8>,
    pub body: Vec<u8>,
}

impl OwnedResponse {
    /// The header lengths agree with the segments actually held, and
    /// the declared lengths fit their wire fields.
    pub open spec fn wf(&self) -> bool {
        &&& self.header.wf()
        &&& 24 + self.header.total_body() <= usize::MAX
        &&& self.extra@.len() == self.header.extralen
        &&& self.key@.len() == self.header.keylen
        &&& self.body@.len() == self.header.bodylen
    }

    /// The exact wire bytes of the packet: header, extras, key, value.
    pub open spec fn spec_bytes(&self) -> Seq<u8> {
        res_header_bytes(self.header) + self.extra@ + self.key@ + self.body@
    }

    /// Decodes a whole response packet, copying its segments into
    /// owned buffers. Segments are only copied once the whole packet
    /// has decoded.
    pub fn parse(x: &[u8]) -> (r: ParseResult<Self>)
        ensures
            r matches ParseResult::Done(p) ==> ({
                &&& res_packet_fault(x@) is None
                &&& p.wf()
                &&& p.header == res_header_model(x@)
                &&& p.extra@ == x@.subrange(24, 24 + hdr_extralen(x@))
                &&& p.key@ == x@.subrange(
                    24 + hdr_extralen(x@),
                    24 + hdr_extralen(x@) + hdr_keylen(x@),
                )
                &&& p.body@ == x@.subrange(
                    24 + hdr_extralen(x@) + hdr_keylen(x@),
                    24 + hdr_total_body(x@),
                )
                &&& p.spec_bytes() == x@.subrange(0, 24 + hdr_total_body(x@))
            }),
            r matches ParseResult::Fail(f) ==> res_packet_fault(x@) == Some(f),
    {
        match Response::parse(x) {
            ParseResult::Done(p) => ParseResult::Done(p.to_owned()),
            ParseResult::Fail(f) => ParseResult::Fail(f),
        }
    }

    /// Encodes the packet into a freshly sized buffer.
    pub fn encode_self(&self) -> (r: Encoder)
        requires
            self.wf(),
        ensures
            r@ == self.spec_bytes(),
            r@.len() == 24 + self.header.total_body(),
    {
        let mut e = Encoder::new(self);
        self.encode(&mut e);
        proof {
            lemma_res_header_parts(self.header);
        }
        e
    }

    /// Encodes the packet into a caller-supplied buffer, growing it
    /// only when its capacity is insufficient.
    pub fn encode_into_buffer(&self, x: Vec<u8>) -> (r: Encoder)
        requires
            self.wf(),
        ensures
            r@ == self.spec_bytes(),
            r@.len() == 24 + self.header.total_body(),
    {
        let mut e = Encoder::from_vec(self, x);
        self.encode(&mut e);
        proof {
            lemma_res_header_parts(self.header);
        }
        e
    }

    /// Builds a response from its parts, without validating segment
    /// contents: keys are opaque bytes to this codec.
    pub fn new(
        opcode: OpCode,
        status: StatusField,
        opaque: u32,
        cas: u64,
        extra: Vec<u8>,
        key: Vec<u8>,
        body: Vec<u8>,
    ) -> (r: Self)
        requires
            extra@.len() <= u8::MAX,
            key@.len() <= u16::MAX,
            extra@.len() + key@.len() + body@.len() <= u32::MAX,
            24 + extra@.len() + key@.len() + body@.len() <= usize::MAX,
        ensures
            r.wf(),
            r.header.code == opcode,
            r.header.status == status,
            r.header.opaque == opaque,
            r.header.cas == cas,
            r.extra@ == extra@,
            r.key@ == key@,
            r.body@ == body@,
    {
        let e = extra.len();
        let k = key.len();
        let b = body.len();
        OwnedResponse {
            header: ResHeader {
                code: opcode,
                status,
                extralen: e as u8,
                keylen: k as u16,
                bodylen: b as u32,
                opaque,
                cas,
            },
            extra,
            key,
            body,
        }
    }

    /// Overwrites this response in place with the same semantics as
    /// [`OwnedResponse::new`], reusing the existing storage.
    pub fn rebuild(
        &mut self,
        opcode: OpCode,
        status: StatusField,
        opaque: u32,
        cas: u64,
        extra: Vec<u8>,
        key: Vec<u8>,
        body: Vec<u8>,
    )
        requires
            extra@.len() <= u8::MAX,
            key@.len() <= u16::MAX,
            extra@.len() + key@.len() + body@.len() <= u32::MAX,
            24 + extra@.len() + key@.len() + body@.len() <= usize::MAX,
        ensures
            final(self).wf(),
            final(self).header.code == opcode,
            final(self).header.status == status,
            final(self).header.opaque == opaque,
            final(self).header.cas == cas,
            final(self).extra@ == extra@,
            final(self).key@ == key@,
            final(self).body@ == body@,
    {
        let e = extra.len();
        let k = key.len();
        let b = body.len();
        self.header.code = opcode;
        self.header.status = status;
        self.header.extralen = e as u8;
        self.header.keylen = k as u16;
        self.header.bodylen = b as u32;
        self.header.opaque = opaque;
        self.header.cas = cas;
        self.extra = extra;
        self.key = key;
        self.body = body;
    }

    /// The command this response answers.
    pub fn get_opcode(&self) -> (r: OpCode)
        ensures
            r == self.header.code,
    {
        self.header.get_opcode()
    }

    /// The correlation token echoed back from the request.
    pub fn get_opaque(&self) -> (r: u32)
        ensures
            r == self.header.opaque,
    {
        self.header.opaque
    }

    /// The check-and-set version token.
    pub fn get_cas(&self) -> (r: u64)
        ensures
            r == self.header.cas,
    {
        self.header.cas
    }

    /// `Ok(())` exactly when the status is `NoError`; every other
    /// status is returned as the error, never silently coerced.
    pub fn check_status(&self) -> (r: Result<(), StatusField>)
        ensures
            r is Ok <==> self.header.status == StatusField::NoError,
            r matches Err(e) ==> e == self.header.status && e != StatusField::NoError,
    {
        self.header.check_status()
    }

    /// Whether an extras segment is present.
    pub fn has_extra(&self) -> (r: bool)
        ensures
            r == (self.extra@.len() != 0),
    {
        self.extra.len() != 0
    }

    /// The extras segment, if present.
    pub fn get_extra<'a>(&'a self) -> (r: Option<&'a [u8]>)
        ensures
            self.extra@.len() != 0 ==> (r matches Some(s) && s@ == self.extra@),
            self.extra@.len() == 0 ==> r is None,
    {
        if self.has_extra() {
            Some(self.extra.as_slice())
        } else {
            None
        }
    }

    /// Whether a key segment is present.
    pub fn has_key(&self) -> (r: bool)
        ensures
            r == (self.key@.len() != 0),
    {
        self.key.len() != 0
    }

    /// The key segment, if present.
    pub fn get_key<'a>(&'a self) -> (r: Option<&'a [u8]>)
        ensures
            self.key@.len() != 0 ==> (r matches Some(s) && s@ == self.key@),
            self.key@.len() == 0 ==> r is None,
    {
        if self.has_key() {
            Some(self.key.as_slice())
        } else {
            None
        }
    }

    /// Whether a value segment is present.
    pub fn has_body(&self) -> (r: bool)
        ensures
            r == (self.body@.len() != 0),
    {
        self.body.len() != 0
    }

    /// The value segment, if present.
    pub fn get_body<'a>(&'a self) -> (r: Option<&'a [u8]>)
        ensures
            self.body@.len() != 0 ==> (r matches Some(s) && s@ == self.body@),
            self.body@.len() == 0 ==> r is None,
    {
        if self.has_body() {
            Some(self.body.as_slice())
        } else {
            None
        }
    }
}

impl PacketVal for OwnedResponse {
    open spec fn spec_keylen(&self) -> int {
        self.header.keylen as int
    }

    open spec fn spec_extralen(&self) -> int {
        self.header.extralen as int
    }

    open spec fn spec_bodylen(&self) -> int {
        self.header.bodylen as int
    }

    fn get_keylen(&self) -> usize {
        self.header.keylen as usize
    }

    fn get_extralen(&self) -> usize {
        self.header.extralen as usize
    }

    fn get_bodylen(&self) -> usize {
        self.header.bodylen as usize
    }
}

impl Encoding for OwnedResponse {
    open spec fn enc_bytes(&self) -> Seq<u8> {
        self.spec_bytes()
    }

    open spec fn enc_wf(&self) -> bool {
        self.wf()
    }

    /// Writes the header, then extras, key and value, in wire order.
    fn encode(&self, buffer: &mut Encoder) {
        self.header.encode(buffer);
        self.extra.encode(buffer);
        self.key.encode(buffer);
        self.body.encode(buffer);
        proof {
            assert(buffer@ =~= old(buffer)@ + self.enc_bytes());
        }
    }
}

/// Round trip at the byte level: a well-formed response header
/// followed by segments of its declared lengths passes every decoding
/// check and decodes back to exactly those parts.
#[verifier::rlimit(60)]
pub proof fn lemma_res_bytes_round_trip(h: ResHeader, e: Seq<u8>, k: Seq<u8>, v: Seq<u8>)
    requires
        h.wf(),
        e.len() == h.extralen,
        k.len() == h.keylen,
        v.len() == h.bodylen,
    ensures
        ({
            let bytes = res_header_bytes(h) + e + k + v;
            &&& bytes.len() == 24 + h.total_body()
            &&& res_packet_fault(bytes) is None
            &&& res_header_model(bytes) == h
            &&& bytes.subrange(0, 24) == res_header_bytes(h)
            &&& bytes.subrange(24, 24 + h.extralen as int) == e
            &&& bytes.subrange(24 + h.extralen as int, 24 + h.extralen + h.keylen) == k
            &&& bytes.subrange(24 + h.extralen + h.keylen, 24 + h.total_body()) == v
        }),
{
    let hb = res_header_bytes(h);
    let bytes = hb + e + k + v;
    lemma_res_header_parts(h);
    lemma_status_round_trip(h.status);
    assert(bytes.subrange(0, 24) =~= hb);
    assert(bytes.subrange(24, 24 + h.extralen as int) =~= e);
    assert(bytes.subrange(24 + h.extralen as int, 24 + h.extralen + h.keylen) =~= k);
    assert(bytes.subrange(24 + h.extralen + h.keylen, 24 + h.total_body()) =~= v);
    assert(bytes.subrange(2, 4) =~= hb.subrange(2, 4));
    assert(bytes.subrange(6, 8) =~= hb.subrange(6, 8));
    assert(bytes.subrange(8, 12) =~= hb.subrange(8, 12));
    assert(bytes.subrange(12, 16) =~= hb.subrange(12, 16));
    assert(bytes.subrange(16, 24) =~= hb.subrange(16, 24));
}

/// Round trip: decoding the encoded bytes of any well-formed borrowed
/// response yields a packet equal to it, field by field and segment by
/// segment.
pub proof fn lemma_response_round_trip(p: Response)
    requires
        p.wf(),
    ensures
        p.spec_bytes().len() == 24 + p.header.total_body(),
        res_packet_fault(p.spec_bytes()) is None,
        res_header_model(p.spec_bytes()) == p.header,
        p.spec_bytes().subrange(24, 24 + p.header.extralen as int) == opt_bytes(p.extra),
        p.spec_bytes().subrange(
            24 + p.header.extralen as int,
            24 + p.header.extralen + p.header.keylen,
        ) == opt_bytes(p.key),
        p.spec_bytes().subrange(24 + p.header.extralen + p.header.keylen, 24 + p.header.total_body())
            == opt_bytes(p.body),
{
    lemma_res_bytes_round_trip(p.header, opt_bytes(p.extra), opt_bytes(p.key), opt_bytes(p.body));
}

/// Round trip: decoding the encoded bytes of any well-formed owned
/// response yields a packet equal to it, field by field and segment by
/// segment.
pub proof fn lemma_owned_response_round_trip(p: OwnedResponse)
    requires
        p.wf(),
    ensures
        p.spec_bytes().len() == 24 + p.header.total_body(),
        res_packet_fault(p.spec_bytes()) is None,
        res_header_model(p.spec_bytes()) == p.header,
        p.spec_bytes().subrange(24, 24 + p.header.extralen as int) == p.extra@,
        p.spec_bytes().subrange(
            24 + p.header.extralen as int,
            24 + p.header.extralen + p.header.keylen,
        ) == p.key@,
        p.spec_bytes().subrange(24 + p.header.extralen + p.header.keylen, 24 + p.header.total_body())
            == p.body@,
{
    lemma_res_bytes_round_trip(p.header, p.extra@, p.key@, p.body@);
}

/// Truncation: every strict prefix of a fault-free response packet
/// fails with `Incomplete`, never with another fault and never with a
/// short packet.
pub proof fn lemma_truncated_response(b: Seq<u8>, n: int)
    requires
        res_packet_fault(b) is None,
        0 <= n < 24 + hdr_total_body(b),
    ensures
        res_packet_fault(b.subrange(0, n)) == Some(Fault::Incomplete),
{
    let p = b.subrange(0, n);
    if n >= 8 {
        assert(p.subrange(6, 8) =~= b.subrange(6, 8));
    }
    if n >= 24 {
        assert(p.subrange(2, 4) =~= b.subrange(2, 4));
        assert(p.subrange(8, 12) =~= b.subrange(8, 12));
    }
}

/// A buffer whose first byte is not the response magic always fails
/// response-style decoding with `BadMagic`.
pub proof fn lemma_response_bad_magic(b: Seq<u8>)
    requires
        b.len() >= 1,
        b[0] != 0x81,
    ensures
        res_packet_fault(b) == Some(Fault::BadMagic),
{
}

/// A buffer with a non-zero datatype byte fails with `BadMagic`, no
/// matter how valid its other fields are.
pub proof fn lemma_response_bad_datatype(b: Seq<u8>)
    requires
        b.len() >= 6,
        b[0] == 0x81,
        valid_opcode_byte(b[1]),
        b[5] != 0x00,
    ensures
        res_packet_fault(b) == Some(Fault::BadMagic),
{
}

} // verus!
