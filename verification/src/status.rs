//! The status codes carried by response packets.

use vstd::prelude::*;

verus! {

use crate::{be16_of, be16_val, read_u16, Encoder, Encoding, Fault, ParseResult};

/// Status of a response packet.
///
/// `NoError` is the single success value; every other code reports a
/// client error (codes 1 through 9) or a server error (codes `0x81`
/// through `0x86`).
#[derive(Copy, Clone, Debug, PartialEq, Eq, Structural)]
pub enum StatusField {
    NoError,
    KeyNotFound,
    KeyExists,
    ValueTooLarge,
    InvalidArguments,
    ItemNotStored,
    IncrDecrNonNumeric,
    VBucketNotHere,
    AuthError,
    AuthContinue,
    UnknownCommand,
    OutOfMemory,
    NotSupported,
    InternalError,
    Busy,
    TemporaryFailure,
}

/// True for the 16-bit values that stand for a defined status.
pub open spec fn spec_valid_status(v: int) -> bool {
    (0 <= v && v <= 9) || (0x81 <= v && v <= 0x86)
}

/// The wire value of each status.
pub open spec fn status_code(s: StatusField) -> u16 {
    match s {
        StatusField::NoError => 0,
        StatusField::KeyNotFound => 1,
        StatusField::KeyExists => 2,
        StatusField::ValueTooLarge => 3,
        StatusField::InvalidArguments => 4,
        StatusField::ItemNotStored => 5,
        StatusField::IncrDecrNonNumeric => 6,
        StatusField::VBucketNotHere => 7,
        StatusField::AuthError => 8,
        StatusField::AuthContinue => 9,
        StatusField::UnknownCommand => 0x81,
        StatusField::OutOfMemory => 0x82,
        StatusField::NotSupported => 0x83,
        StatusField::InternalError => 0x84,
        StatusField::Busy => 0x85,
        StatusField::TemporaryFailure => 0x86,
    }
}

/// The status a valid wire value stands for.
pub open spec fn status_of_code(v: int) -> StatusField
    recommends
        spec_valid_status(v),
{
    if v == 0 {
        StatusField::NoError
    } else if v == 1 {
        StatusField::KeyNotFound
    } else if v == 2 {
        StatusField::KeyExists
    } else if v == 3 {
        StatusField::ValueTooLarge
    } else if v == 4 {
        StatusField::InvalidArguments
    } else if v == 5 {
        StatusField::ItemNotStored
    } else if v == 6 {
        StatusField::IncrDecrNonNumeric
    } else if v == 7 {
        StatusField::VBucketNotHere
    } else if v == 8 {
        StatusField::AuthError
    } else if v == 9 {
        StatusField::AuthContinue
    } else if v == 0x81 {
        StatusField::UnknownCommand
    } else if v == 0x82 {
        StatusField::OutOfMemory
    } else if v == 0x83 {
        StatusField::NotSupported
    } else if v == 0x84 {
        StatusField::InternalError
    } else if v == 0x85 {
        StatusField::Busy
    } else {
        StatusField::TemporaryFailure
    }
}

impl StatusField {
    /// Separates the success status from every error status.
    ///
    /// Returns `Ok(())` exactly when the status is `NoError`;
    /// otherwise returns the status itself as the error, so the error
    /// value can never be `NoError`.
    pub fn check_status(&self) -> (r: Result<(), StatusField>)
        ensures
            r is Ok <==> *self == StatusField::NoError,
            r matches Err(e) ==> e == *self && e != StatusField::NoError,
    {
        match *self {
            StatusField::NoError => Ok(()),
            x => Err(x),
        }
    }
}

/// Converts a status to its wire value.
pub fn status_encode_code(s: StatusField) -> (r: u16)
    ensures
        r == status_code(s),
{
    match s {
        StatusField::NoError => 0,
        StatusField::KeyNotFound => 1,
        StatusField::KeyExists => 2,
        StatusField::ValueTooLarge => 3,
        StatusField::InvalidArguments => 4,
        StatusField::ItemNotStored => 5,
        StatusField::IncrDecrNonNumeric => 6,
        StatusField::VBucketNotHere => 7,
        StatusField::AuthError => 8,
        StatusField::AuthContinue => 9,
        StatusField::UnknownCommand => 0x81,
        StatusField::OutOfMemory => 0x82,
        StatusField::NotSupported => 0x83,
        StatusField::InternalError => 0x84,
        StatusField::Busy => 0x85,
        StatusField::TemporaryFailure => 0x86,
    }
}

impl Encoding for StatusField {
    open spec fn enc_bytes(&self) -> Seq<u8> {
        be16_of(status_code(*self))
    }

    open spec fn enc_wf(&self) -> bool {
        true
    }

    /// Writes the status' two big-endian wire bytes.
    fn encode(&self, buffer: &mut Encoder) {
        buffer.encode_u16(status_encode_code(*self));
    }
}

/// Converts a valid wire value to its status.
pub(crate) fn status_from_code(v: u16) -> (r: StatusField)
    requires
        spec_valid_status(v as int),
    ensures
        r == status_of_code(v as int),
{
    match v {
        0 => StatusField::NoError,
        1 => StatusField::KeyNotFound,
        2 => StatusField::KeyExists,
        3 => StatusField::ValueTooLarge,
        4 => StatusField::InvalidArguments,
        5 => StatusField::ItemNotStored,
        6 => StatusField::IncrDecrNonNumeric,
        7 => StatusField::VBucketNotHere,
        8 => StatusField::AuthError,
        9 => StatusField::AuthContinue,
        0x81 => StatusField::UnknownCommand,
        0x82 => StatusField::OutOfMemory,
        0x83 => StatusField::NotSupported,
        0x84 => StatusField::InternalError,
        0x85 => StatusField::Busy,
        0x86 => StatusField::TemporaryFailure,
        _ => vstd::pervasive::unreached(),
    }
}

/// Checks whether a 16-bit value stands for a defined status.
pub fn valid_status(val: u16) -> (r: bool)
    ensures
        r == spec_valid_status(val as int),
{
    val <= 9 || (val >= 0x81 && val <= 0x86)
}

/// Every status' wire value is valid and decodes back to the same
/// status, so distinct statuses have distinct wire values.
pub proof fn lemma_status_round_trip(s: StatusField)
    ensures
        spec_valid_status(status_code(s) as int),
        status_of_code(status_code(s) as int) == s,
{
}

/// Every valid wire value decodes to a status that encodes back to
/// the same value, so distinct values decode to distinct statuses.
pub proof fn lemma_status_code_round_trip(v: int)
    requires
        spec_valid_status(v),
    ensures
        status_code(status_of_code(v)) == v,
{
}

/// Decodes the big-endian status at the head of the input.
///
/// Fewer than two bytes need more input; a value outside the defined
/// set is not a supported status.
pub fn status_parse(i: &[u8]) -> (r: ParseResult<StatusField>)
    ensures
        i@.len() < 2 ==> r == ParseResult::<StatusField>::Fail(Fault::Incomplete),
        i@.len() >= 2 && spec_valid_status(be16_val(i@.subrange(0, 2))) ==> r == ParseResult::Done(
            status_of_code(be16_val(i@.subrange(0, 2))),
        ),
        i@.len() >= 2 && !spec_valid_status(be16_val(i@.subrange(0, 2))) ==> r
            == ParseResult::<StatusField>::Fail(Fault::BadStatus),
{
    if i.len() < 2 {
        return ParseResult::Fail(Fault::Incomplete);
    }
    let val = read_u16(i, 0);
    if valid_status(val) {
        ParseResult::Done(status_from_code(val))
    } else {
        ParseResult::Fail(Fault::BadStatus)
    }
}

} // verus!
