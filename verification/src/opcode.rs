//! The command codes of the protocol and their byte representation.

use vstd::prelude::*;

verus! {

use crate::{read_u8, Encoder, Encoding, Fault, ParseResult};

/// Command codes.
///
/// Valid wire bytes fall in three disjoint ranges: the base command
/// block, the SASL block and the replication/TAP extension block.
/// Every other byte is rejected on decode.
#[derive(Copy, Clone, Debug, PartialEq, Eq, Structural)]
pub enum OpCode {
    Get,
    SetOp,
    Add,
    Replace,
    Delete,
    Increment,
    Decrement,
    Quit,
    Flush,
    GetQ,
    Nop,
    Version,
    GetK,
    GetKQ,
    Append,
    Prepare,
    Stat,
    SetQ,
    AddQ,
    ReplaceQ,
    DeleteQ,
    IncrementQ,
    DecrementQ,
    QuitQ,
    FlushQ,
    AppendQ,
    PrependQ,
    Verbosity,
    Touch,
    GAT,
    GATQ,
    SASLlistmech,
    SASLAuth,
    SASLStep,
    RGet,
    RSet,
    RSetQ,
    RAppend,
    RAppendQ,
    RPrepend,
    RPrependQ,
    RDelete,
    RDeleteQ,
    RIncr,
    RIncrQ,
    RDecr,
    RDecrQ,
    SetVBucket,
    GetVBucket,
    DelVBucket,
    TAPConnect,
    TAPMutate,
    TAPDelete,
    TAPFlush,
    TAPOpaque,
    TAPVBucketSet,
    TAPCheckpointStart,
    TAPCheckpointEnd,
}

/// True for the bytes that stand for a defined command.
pub open spec fn valid_opcode_byte(b: u8) -> bool {
    b <= 0x1E || (0x20 <= b && b <= 0x22) || (0x30 <= b && b <= 0x47)
}

/// The wire byte of each command.
pub open spec fn opcode_byte(c: OpCode) -> u8 {
    match c {
        OpCode::Get => 0x00,
        OpCode::SetOp => 0x01,
        OpCode::Add => 0x02,
        OpCode::Replace => 0x03,
        OpCode::Delete => 0x04,
        OpCode::Increment => 0x05,
        OpCode::Decrement => 0x06,
        OpCode::Quit => 0x07,
        OpCode::Flush => 0x08,
        OpCode::GetQ => 0x09,
        OpCode::Nop => 0x0A,
        OpCode::Version => 0x0B,
        OpCode::GetK => 0x0C,
        OpCode::GetKQ => 0x0D,
        OpCode::Append => 0x0E,
        OpCode::Prepare => 0x0F,
        OpCode::Stat => 0x10,
        OpCode::SetQ => 0x11,
        OpCode::AddQ => 0x12,
        OpCode::ReplaceQ => 0x13,
        OpCode::DeleteQ => 0x14,
        OpCode::IncrementQ => 0x15,
        OpCode::DecrementQ => 0x16,
        OpCode::QuitQ => 0x17,
        OpCode::FlushQ => 0x18,
        OpCode::AppendQ => 0x19,
        OpCode::PrependQ => 0x1A,
        OpCode::Verbosity => 0x1B,
        OpCode::Touch => 0x1C,
        OpCode::GAT => 0x1D,
        OpCode::GATQ => 0x1E,
        OpCode::SASLlistmech => 0x20,
        OpCode::SASLAuth => 0x21,
        OpCode::SASLStep => 0x22,
        OpCode::RGet => 0x30,
        OpCode::RSet => 0x31,
        OpCode::RSetQ => 0x32,
        OpCode::RAppend => 0x33,
        OpCode::RAppendQ => 0x34,
        OpCode::RPrepend => 0x35,
        OpCode::RPrependQ => 0x36,
        OpCode::RDelete => 0x37,
        OpCode::RDeleteQ => 0x38,
        OpCode::RIncr => 0x39,
        OpCode::RIncrQ => 0x3A,
        OpCode::RDecr => 0x3B,
        OpCode::RDecrQ => 0x3C,
        OpCode::SetVBucket => 0x3D,
        OpCode::GetVBucket => 0x3E,
        OpCode::DelVBucket => 0x3F,
        OpCode::TAPConnect => 0x40,
        OpCode::TAPMutate => 0x41,
        OpCode::TAPDelete => 0x42,
        OpCode::TAPFlush => 0x43,
        OpCode::TAPOpaque => 0x44,
        OpCode::TAPVBucketSet => 0x45,
        OpCode::TAPCheckpointStart => 0x46,
        OpCode::TAPCheckpointEnd => 0x47,
    }
}

/// The command a valid wire byte stands for.
pub open spec fn opcode_of_byte(b: u8) -> OpCode
    recommends
        valid_opcode_byte(b),
{
    if b == 0x00 {
        OpCode::Get
    } else if b == 0x01 {
        OpCode::SetOp
    } else if b == 0x02 {
        OpCode::Add
    } else if b == 0x03 {
        OpCode::Replace
    } else if b == 0x04 {
        OpCode::Delete
    } else if b == 0x05 {
        OpCode::Increment
    } else if b == 0x06 {
        OpCode::Decrement
    } else if b == 0x07 {
        OpCode::Quit
    } else if b == 0x08 {
        OpCode::Flush
    } else if b == 0x09 {
        OpCode::GetQ
    } else if b == 0x0A {
        OpCode::Nop
    } else if b == 0x0B {
        OpCode::Version
    } else if b == 0x0C {
        OpCode::GetK
    } else if b == 0x0D {
        OpCode::GetKQ
    } else if b == 0x0E {
        OpCode::Append
    } else if b == 0x0F {
        OpCode::Prepare
    } else if b == 0x10 {
        OpCode::Stat
    } else if b == 0x11 {
        OpCode::SetQ
    } else if b == 0x12 {
        OpCode::AddQ
    } else if b == 0x13 {
        OpCode::ReplaceQ
    } else if b == 0x14 {
        OpCode::DeleteQ
    } else if b == 0x15 {
        OpCode::IncrementQ
    } else if b == 0x16 {
        OpCode::DecrementQ
    } else if b == 0x17 {
        OpCode::QuitQ
    } else if b == 0x18 {
        OpCode::FlushQ
    } else if b == 0x19 {
        OpCode::AppendQ
    } else if b == 0x1A {
        OpCode::PrependQ
    } else if b == 0x1B {
        OpCode::Verbosity
    } else if b == 0x1C {
        OpCode::Touch
    } else if b == 0x1D {
        OpCode::GAT
    } else if b == 0x1E {
        OpCode::GATQ
    } else if b == 0x20 {
        OpCode::SASLlistmech
    } else if b == 0x21 {
        OpCode::SASLAuth
    } else if b == 0x22 {
        OpCode::SASLStep
    } else if b == 0x30 {
        OpCode::RGet
    } else if b == 0x31 {
        OpCode::RSet
    } else if b == 0x32 {
        OpCode::RSetQ
    } else if b == 0x33 {
        OpCode::RAppend
    } else if b == 0x34 {
        OpCode::RAppendQ
    } else if b == 0x35 {
        OpCode::RPrepend
    } else if b == 0x36 {
        OpCode::RPrependQ
    } else if b == 0x37 {
        OpCode::RDelete
    } else if b == 0x38 {
        OpCode::RDeleteQ
    } else if b == 0x39 {
        OpCode::RIncr
    } else if b == 0x3A {
        OpCode::RIncrQ
    } else if b == 0x3B {
        OpCode::RDecr
    } else if b == 0x3C {
        OpCode::RDecrQ
    } else if b == 0x3D {
        OpCode::SetVBucket
    } else if b == 0x3E {
        OpCode::GetVBucket
    } else if b == 0x3F {
        OpCode::DelVBucket
    } else if b == 0x40 {
        OpCode::TAPConnect
    } else if b == 0x41 {
        OpCode::TAPMutate
    } else if b == 0x42 {
        OpCode::TAPDelete
    } else if b == 0x43 {
        OpCode::TAPFlush
    } else if b == 0x44 {
        OpCode::TAPOpaque
    } else if b == 0x45 {
        OpCode::TAPVBucketSet
    } else if b == 0x46 {
        OpCode::TAPCheckpointStart
    } else {
        OpCode::TAPCheckpointEnd
    }
}

/// Converts a command to its wire byte.
pub fn opcode_encode_byte(c: OpCode) -> (r: u8)
    ensures
        r == opcode_byte(c),
{
    match c {
        OpCode::Get => 0x00,
        OpCode::SetOp => 0x01,
        OpCode::Add => 0x02,
        OpCode::Replace => 0x03,
        OpCode::Delete => 0x04,
        OpCode::Increment => 0x05,
        OpCode::Decrement => 0x06,
        OpCode::Quit => 0x07,
        OpCode::Flush => 0x08,
        OpCode::GetQ => 0x09,
        OpCode::Nop => 0x0A,
        OpCode::Version => 0x0B,
        OpCode::GetK => 0x0C,
        OpCode::GetKQ => 0x0D,
        OpCode::Append => 0x0E,
        OpCode::Prepare => 0x0F,
        OpCode::Stat => 0x10,
        OpCode::SetQ => 0x11,
        OpCode::AddQ => 0x12,
        OpCode::ReplaceQ => 0x13,
        OpCode::DeleteQ => 0x14,
        OpCode::IncrementQ => 0x15,
        OpCode::DecrementQ => 0x16,
        OpCode::QuitQ => 0x17,
        OpCode::FlushQ => 0x18,
        OpCode::AppendQ => 0x19,
        OpCode::PrependQ => 0x1A,
        OpCode::Verbosity => 0x1B,
        OpCode::Touch => 0x1C,
        OpCode::GAT => 0x1D,
        OpCode::GATQ => 0x1E,
        OpCode::SASLlistmech => 0x20,
        OpCode::SASLAuth => 0x21,
        OpCode::SASLStep => 0x22,
        OpCode::RGet => 0x30,
        OpCode::RSet => 0x31,
        OpCode::RSetQ => 0x32,
        OpCode::RAppend => 0x33,
        OpCode::RAppendQ => 0x34,
        OpCode::RPrepend => 0x35,
        OpCode::RPrependQ => 0x36,
        OpCode::RDelete => 0x37,
        OpCode::RDeleteQ => 0x38,
        OpCode::RIncr => 0x39,
        OpCode::RIncrQ => 0x3A,
        OpCode::RDecr => 0x3B,
        OpCode::RDecrQ => 0x3C,
        OpCode::SetVBucket => 0x3D,
        OpCode::GetVBucket => 0x3E,
        OpCode::DelVBucket => 0x3F,
        OpCode::TAPConnect => 0x40,
        OpCode::TAPMutate => 0x41,
        OpCode::TAPDelete => 0x42,
        OpCode::TAPFlush => 0x43,
        OpCode::TAPOpaque => 0x44,
        OpCode::TAPVBucketSet => 0x45,
        OpCode::TAPCheckpointStart => 0x46,
        OpCode::TAPCheckpointEnd => 0x47,
    }
}

impl Encoding for OpCode {
    open spec fn enc_bytes(&self) -> Seq<u8> {
        seq![opcode_byte(*self)]
    }

    open spec fn enc_wf(&self) -> bool {
        true
    }

    /// Writes the command's single wire byte.
    fn encode(&self, buffer: &mut Encoder) {
        buffer.encode_u8(opcode_encode_byte(*self));
        proof {
            assert(buffer@ =~= old(buffer)@ + self.enc_bytes());
        }
    }
}

/// Converts a valid wire byte to its command.
pub(crate) fn opcode_from_byte(b: u8) -> (r: OpCode)
    requires
        valid_opcode_byte(b),
    ensures
        r == opcode_of_byte(b),
{
    match b {
        0x00 => OpCode::Get,
        0x01 => OpCode::SetOp,
        0x02 => OpCode::Add,
        0x03 => OpCode::Replace,
        0x04 => OpCode::Delete,
        0x05 => OpCode::Increment,
        0x06 => OpCode::Decrement,
        0x07 => OpCode::Quit,
        0x08 => OpCode::Flush,
        0x09 => OpCode::GetQ,
        0x0A => OpCode::Nop,
        0x0B => OpCode::Version,
        0x0C => OpCode::GetK,
        0x0D => OpCode::GetKQ,
        0x0E => OpCode::Append,
        0x0F => OpCode::Prepare,
        0x10 => OpCode::Stat,
        0x11 => OpCode::SetQ,
        0x12 => OpCode::AddQ,
        0x13 => OpCode::ReplaceQ,
        0x14 => OpCode::DeleteQ,
        0x15 => OpCode::IncrementQ,
        0x16 => OpCode::DecrementQ,
        0x17 => OpCode::QuitQ,
        0x18 => OpCode::FlushQ,
        0x19 => OpCode::AppendQ,
        0x1A => OpCode::PrependQ,
        0x1B => OpCode::Verbosity,
        0x1C => OpCode::Touch,
        0x1D => OpCode::GAT,
        0x1E => OpCode::GATQ,
        0x20 => OpCode::SASLlistmech,
        0x21 => OpCode::SASLAuth,
        0x22 => OpCode::SASLStep,
        0x30 => OpCode::RGet,
        0x31 => OpCode::RSet,
        0x32 => OpCode::RSetQ,
        0x33 => OpCode::RAppend,
        0x34 => OpCode::RAppendQ,
        0x35 => OpCode::RPrepend,
        0x36 => OpCode::RPrependQ,
        0x37 => OpCode::RDelete,
        0x38 => OpCode::RDeleteQ,
        0x39 => OpCode::RIncr,
        0x3A => OpCode::RIncrQ,
        0x3B => OpCode::RDecr,
        0x3C => OpCode::RDecrQ,
        0x3D => OpCode::SetVBucket,
        0x3E => OpCode::GetVBucket,
        0x3F => OpCode::DelVBucket,
        0x40 => OpCode::TAPConnect,
        0x41 => OpCode::TAPMutate,
        0x42 => OpCode::TAPDelete,
        0x43 => OpCode::TAPFlush,
        0x44 => OpCode::TAPOpaque,
        0x45 => OpCode::TAPVBucketSet,
        0x46 => OpCode::TAPCheckpointStart,
        0x47 => OpCode::TAPCheckpointEnd,
        _ => vstd::pervasive::unreached(),
    }
}

/// Every command's wire byte is valid and decodes back to the same
/// command, so distinct commands have distinct wire bytes.
pub proof fn lemma_opcode_round_trip(c: OpCode)
    ensures
        valid_opcode_byte(opcode_byte(c)),
        opcode_of_byte(opcode_byte(c)) == c,
{
}

/// Every valid wire byte decodes to a command that encodes back to
/// the same byte, so distinct bytes decode to distinct commands.
pub proof fn lemma_opcode_byte_round_trip(b: u8)
    requires
        valid_opcode_byte(b),
    ensures
        opcode_byte(opcode_of_byte(b)) == b,
{
}

/// Decodes the opcode at the head of the input.
///
/// An empty input needs more bytes; a byte outside the defined ranges
/// is an unknown command.
pub fn opcode_parse(i: &[u8]) -> (r: ParseResult<OpCode>)
    ensures
        i@.len() == 0 ==> r == ParseResult::<OpCode>::Fail(Fault::Incomplete),
        i@.len() > 0 && valid_opcode_byte(i@[0]) ==> r == ParseResult::Done(opcode_of_byte(i@[0])),
        i@.len() > 0 && !valid_opcode_byte(i@[0]) ==> r == ParseResult::<OpCode>::Fail(
            Fault::BadOpCode,
        ),
{
    if i.len() == 0 {
        return ParseResult::Fail(Fault::Incomplete);
    }
    let byte = read_u8(i, 0);
    if byte <= 0x1E || (byte >= 0x20 && byte <= 0x22) || (byte >= 0x30 && byte <= 0x47) {
        ParseResult::Done(opcode_from_byte(byte))
    } else {
        ParseResult::Fail(Fault::BadOpCode)
    }
}

} // verus!
