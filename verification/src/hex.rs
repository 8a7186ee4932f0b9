//! Firmware images in Intel HEX.

use ihex::{Reader, Record};
use vstd::prelude::*;

verus! {

/// One record of an Intel HEX object.
#[derive(Debug, PartialEq, Eq)]
pub enum HexRecord {
    /// Bytes to be placed from `offset` on.
    Data { offset: u16, value: Vec<u8> },
    EndOfFile,
    ExtendedSegmentAddress(u16),
    StartSegmentAddress { cs: u16, ip: u16 },
    ExtendedLinearAddress(u16),
    StartLinearAddress(u32),
}

/// A line that is not a record.
#[derive(Clone, Copy, Debug, PartialEq, Eq, Structural)]
pub enum HexError {
    Malformed,
}

/// What `ihex::Reader` yields for a text: the records of its non-empty lines
/// in order, up to and including the first end-of-file record or the first
/// line that is not a record.
pub uninterp spec fn hex_records(text: Seq<char>) -> Seq<Result<HexRecord, HexError>>;

/// Reads a text as Intel HEX with `ihex::Reader::new`, collecting what the
/// reader yields and copying each item, variant by variant, into this
/// library's types. Trusted to be a function of the text alone.
#[verifier::external_body]
pub(crate) fn read_hex(text: &str) -> (records: Vec<Result<HexRecord, HexError>>)
    ensures
        records@ == hex_records(text@),
{
    Reader::new(text).map(|item| match item {
        Ok(Record::Data { offset, value }) => Ok(HexRecord::Data { offset, value }),
        Ok(Record::EndOfFile) => Ok(HexRecord::EndOfFile),
        Ok(Record::ExtendedSegmentAddress(a)) => Ok(HexRecord::ExtendedSegmentAddress(a)),
        Ok(Record::StartSegmentAddress { cs, ip }) => Ok(HexRecord::StartSegmentAddress { cs, ip }),
        Ok(Record::ExtendedLinearAddress(a)) => Ok(HexRecord::ExtendedLinearAddress(a)),
        Ok(Record::StartLinearAddress(a)) => Ok(HexRecord::StartLinearAddress(a)),
        Err(_) => Err(HexError::Malformed),
    }).collect()
}

/// The bytes of a memory after the first `n` of `value` have been placed
/// from `offset` on. Bytes that fall outside the memory are dropped.
pub open spec fn placed(bytes: Seq<u8>, offset: int, value: Seq<u8>, n: int) -> Seq<u8>
    decreases n,
{
    if n <= 0 {
        bytes
    } else {
        let before = placed(bytes, offset, value, n - 1);
        if offset + n - 1 < before.len() {
            before.update(offset + n - 1, value[n - 1])
        } else {
            before
        }
    }
}

/// The bytes of a memory after the first `n` items of what a reader yielded
/// have been taken in, together with the error that ended the reading, if
/// any: data records are placed at their offsets, the other records change
/// nothing, and nothing is taken in after an error.
pub open spec fn programmed(bytes: Seq<u8>, records: Seq<Result<HexRecord, HexError>>, n: int) -> (
    Seq<u8>,
    Option<HexError>,
)
    decreases n,
{
    if n <= 0 {
        (bytes, None)
    } else {
        let before = programmed(bytes, records, n - 1);
        if before.1 is Some {
            before
        } else {
            match records[n - 1] {
                Ok(HexRecord::Data { offset, value }) => (
                    placed(before.0, offset as int, value@, value@.len() as int),
                    None,
                ),
                Ok(_) => before,
                Err(error) => (before.0, Some(error)),
            }
        }
    }
}

} // verus!
