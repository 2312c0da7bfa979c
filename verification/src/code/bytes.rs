//! The bytes of a compiled program and the reads that the constant parsers
//! make on them.
//!
//! The buffer and its reads belong to `extendable_vm`. This module names the
//! bytes that a buffer holds and states what each read returns and where it
//! leaves the pointer, as the runtime's source shows it. Multi-byte integers
//! are little-endian.

use crate::runtime::{fault_of, Fault};
use extendable_vm::parsing_exceptions::CodeEndedAt;
use extendable_vm::{ByteReadable, Exception, ExceptionType, RawBytes, RawBytesPointer};
use std::string::FromUtf8Error;
use vstd::prelude::*;
use vstd::utf8::{decode_utf8, valid_utf8};

verus! {

/// A buffer of bytes. Its bytes are private: the verifier sees none of it.
#[verifier::external_type_specification]
#[verifier::external_body]
pub struct ExRawBytes(RawBytes);

/// A place in a buffer: the index of the next byte, which is public.
#[verifier::external_type_specification]
pub struct ExRawBytesPointer(RawBytesPointer);

/// The error of `String::from_utf8`, carried and never looked into.
#[verifier::external_type_specification]
#[verifier::external_body]
pub struct ExFromUtf8Error(FromUtf8Error);

/// What a buffer holds: its field `data`, the vector of its bytes.
pub uninterp spec fn raw_data(bytes: &RawBytes) -> Vec<u8>;

/// The bytes that a buffer holds, in order.
pub open spec fn raw_bytes(bytes: &RawBytes) -> Seq<u8> {
    raw_data(bytes)@
}

/// A buffer holds no more bytes than there are addresses.
pub proof fn buffer_fits(bytes: &RawBytes)
    ensures
        raw_bytes(bytes).len() <= usize::MAX,
{
    assert(raw_data(bytes).len() == raw_data(bytes)@.len());
}

/// Whether `count` bytes can be read at `position`. No byte is needed for a
/// read of none.
pub open spec fn can_read(data: Seq<u8>, position: int, count: int) -> bool {
    count == 0 || position + count <= data.len()
}

/// The bytes that a read of `count` bytes at `position` returns.
pub open spec fn bytes_read(data: Seq<u8>, position: int, count: int) -> Seq<u8> {
    if count == 0 {
        Seq::empty()
    } else {
        data.subrange(position, position + count)
    }
}

/// Where a read of `count` bytes at `position` leaves the pointer: behind
/// the bytes it read, or, where the buffer ends before, one behind the place
/// of the byte that was missing.
pub open spec fn position_after(data: Seq<u8>, position: int, count: int) -> int {
    if can_read(data, position, count) {
        position + count
    } else if position < data.len() {
        data.len() as int + 1
    } else {
        position + 1
    }
}

/// The unsigned 16-bit integer of two little-endian bytes.
pub open spec fn u16_of(data: Seq<u8>) -> int
    recommends
        data.len() == 2,
{
    data[0] + 256 * data[1]
}

/// The signed 32-bit integer of four little-endian bytes, in two's
/// complement.
pub open spec fn i32_of(data: Seq<u8>) -> int
    recommends
        data.len() == 4,
{
    let unsigned = data[0] + 256 * data[1] + 65536 * data[2] + 16777216 * data[3];
    if unsigned < 2147483648 {
        unsigned
    } else {
        unsigned - 4294967296
    }
}

/// The fault of a buffer that ends where the named item was expected.
pub open spec fn code_ended_fault(expected: Seq<char>) -> Fault {
    Fault {
        severity: ExceptionType::Static,
        name: "CodeEndedAt"@,
        message: "Code ended while reading "@ + expected,
    }
}

/// `ByteReadable::read` of a buffer: the byte at the pointer, or nothing
/// behind the end of the buffer. The pointer moves one byte on in both
/// cases, which overflows at the largest address.
#[verifier::external_body]
pub(crate) fn read(bytes: &RawBytes, pointer: &mut RawBytesPointer) -> (byte: Option<u8>)
    requires
        old(pointer).next_byte < usize::MAX,
    ensures
        byte == (if old(pointer).next_byte < raw_data(bytes)@.len() {
            Some(raw_data(bytes)@[old(pointer).next_byte as int])
        } else {
            None
        }),
        final(pointer).next_byte == old(pointer).next_byte + 1,
{
    bytes.read(pointer)
}

/// `ByteReadable::read_n` of a buffer: the next `count` bytes, read one by
/// one, or nothing where the buffer ends before the last of them.
#[verifier::external_body]
pub(crate) fn read_n(bytes: &RawBytes, pointer: &mut RawBytesPointer, count: usize) -> (data:
    Option<Vec<u8>>)
    requires
        old(pointer).next_byte + count <= usize::MAX,
    ensures
        match data {
            Some(read) => {
                &&& can_read(raw_data(bytes)@, old(pointer).next_byte as int, count as int)
                &&& read@ == bytes_read(
                    raw_data(bytes)@,
                    old(pointer).next_byte as int,
                    count as int,
                )
            },
            None => !can_read(raw_data(bytes)@, old(pointer).next_byte as int, count as int),
        },
        final(pointer).next_byte == position_after(
            raw_data(bytes)@,
            old(pointer).next_byte as int,
            count as int,
        ),
{
    bytes.read_n(pointer, count)
}

/// `ByteReadable::read_u16` of a buffer: the little-endian integer of the
/// next two bytes, read as by `read_n`.
#[verifier::external_body]
pub(crate) fn read_u16(bytes: &RawBytes, pointer: &mut RawBytesPointer) -> (number: Option<u16>)
    requires
        old(pointer).next_byte + 2 <= usize::MAX,
    ensures
        match number {
            Some(read) => {
                &&& can_read(raw_data(bytes)@, old(pointer).next_byte as int, 2)
                &&& read == u16_of(bytes_read(raw_data(bytes)@, old(pointer).next_byte as int, 2))
            },
            None => !can_read(raw_data(bytes)@, old(pointer).next_byte as int, 2),
        },
        final(pointer).next_byte == position_after(
            raw_data(bytes)@,
            old(pointer).next_byte as int,
            2,
        ),
{
    bytes.read_u16(pointer)
}

/// `ByteReadable::read_i32` of a buffer: the little-endian integer of the
/// next four bytes, read as by `read_n`.
#[verifier::external_body]
pub(crate) fn read_i32(bytes: &RawBytes, pointer: &mut RawBytesPointer) -> (number: Option<i32>)
    requires
        old(pointer).next_byte + 4 <= usize::MAX,
    ensures
        match number {
            Some(read) => {
                &&& can_read(raw_data(bytes)@, old(pointer).next_byte as int, 4)
                &&& read == i32_of(bytes_read(raw_data(bytes)@, old(pointer).next_byte as int, 4))
            },
            None => !can_read(raw_data(bytes)@, old(pointer).next_byte as int, 4),
        },
        final(pointer).next_byte == position_after(
            raw_data(bytes)@,
            old(pointer).next_byte as int,
            4,
        ),
{
    bytes.read_i32(pointer)
}

/// `String::from_utf8`: the text that the bytes encode in UTF-8, or an error
/// where they encode none.
#[verifier::external_body]
pub(crate) fn string_from_utf8(data: Vec<u8>) -> (text: Result<String, FromUtf8Error>)
    ensures
        match text {
            Ok(decoded) => valid_utf8(data@) && decoded@ == decode_utf8(data@),
            Err(_) => !valid_utf8(data@),
        },
{
    String::from_utf8(data)
}

/// `Exception::from` of `CodeEndedAt`: the load fault that names the item
/// that the buffer ended at.
#[verifier::external_body]
pub(crate) fn code_ended_at(expected: String) -> (exception: Exception)
    ensures
        fault_of(exception) == code_ended_fault(expected@),
{
    Exception::from(CodeEndedAt(expected))
}

} // verus!
