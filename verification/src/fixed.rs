//! The fixed-capacity containers of the `arrayvec` crate, as far as the
//! library fills and reads them.
//!
//! Nothing in this file is proved: each contract restates what the
//! `arrayvec` source does, over the bytes a container holds.

use vstd::prelude::*;
use vstd::string::*;
use vstd::utf8::*;
use arrayvec::ArrayString;
use arrayvec::ArrayVec;
use arrayvec::CapacityError;

verus! {

/// `arrayvec::ArrayString`, opaque to the verifier.
#[verifier::external_type_specification]
#[verifier::external_body]
pub struct ExArrayString<const CAP: usize>(ArrayString<CAP>);

/// `arrayvec::ArrayVec`, opaque to the verifier.
#[verifier::external_type_specification]
#[verifier::external_body]
#[verifier::reject_recursive_types(T)]
pub struct ExArrayVec<T, const CAP: usize>(ArrayVec<T, CAP>);

/// `arrayvec::CapacityError`, opaque to the verifier.
#[verifier::external_type_specification]
#[verifier::external_body]
#[verifier::reject_recursive_types(T)]
pub struct ExCapacityError<T>(CapacityError<T>);

/// The bytes that a file name buffer holds, in order. The buffer has room
/// for 64 bytes.
pub uninterp spec fn name_buffer_bytes(buf: ArrayString<64>) -> Seq<u8>;

/// `ArrayString::new`: an empty buffer.
#[verifier::external_body]
pub(crate) fn name_buffer_new() -> (buf: ArrayString<64>)
    ensures
        name_buffer_bytes(buf) == Seq::<u8>::empty(),
{
    ArrayString::new()
}

/// `ArrayString::try_push_str`: appends the bytes of `s` when they fit in
/// what is left of the capacity, and otherwise changes nothing and fails.
#[verifier::external_body]
pub(crate) fn name_buffer_try_push_str<'a>(buf: &mut ArrayString<64>, s: &'a str) -> (pushed:
    Result<(), CapacityError<&'a str>>)
    ensures
        pushed is Ok <==> name_buffer_bytes(*old(buf)).len() + s.spec_bytes().len() <= 64,
        pushed is Ok ==> name_buffer_bytes(*final(buf)) == name_buffer_bytes(*old(buf))
            + s.spec_bytes(),
        pushed is Err ==> name_buffer_bytes(*final(buf)) == name_buffer_bytes(*old(buf)),
{
    buf.try_push_str(s)
}

/// `ArrayString::try_push`: appends the UTF-8 encoding of `c` when it fits
/// in what is left of the capacity, and otherwise changes nothing and fails.
#[verifier::external_body]
pub(crate) fn name_buffer_try_push(buf: &mut ArrayString<64>, c: char) -> (pushed: Result<
    (),
    CapacityError<char>,
>)
    ensures
        pushed is Ok <==> name_buffer_bytes(*old(buf)).len() + encode_utf8(seq![c]).len() <= 64,
        pushed is Ok ==> name_buffer_bytes(*final(buf)) == name_buffer_bytes(*old(buf))
            + encode_utf8(seq![c]),
        pushed is Err ==> name_buffer_bytes(*final(buf)) == name_buffer_bytes(*old(buf)),
{
    buf.try_push(c)
}

/// `ArrayString::as_str`: the whole content as a string slice.
#[verifier::external_body]
pub(crate) fn name_buffer_as_str(buf: &ArrayString<64>) -> (s: &str)
    ensures
        s.spec_bytes() == name_buffer_bytes(*buf),
{
    buf.as_str()
}

/// The bytes that a report line buffer holds, in order. The buffer has room
/// for 1024 bytes.
pub uninterp spec fn line_buffer_bytes(buf: ArrayString<1024>) -> Seq<u8>;

/// `ArrayString::new`: an empty buffer.
#[verifier::external_body]
pub(crate) fn line_buffer_new() -> (buf: ArrayString<1024>)
    ensures
        line_buffer_bytes(buf) == Seq::<u8>::empty(),
{
    ArrayString::new()
}

/// `ArrayString::len`: the number of bytes held, never more than the
/// capacity.
#[verifier::external_body]
pub(crate) fn line_buffer_len(buf: &ArrayString<1024>) -> (len: usize)
    ensures
        len == line_buffer_bytes(*buf).len(),
        len <= 1024,
{
    buf.len()
}

/// `ArrayString::try_push`: appends the UTF-8 encoding of `c` when it fits
/// in what is left of the capacity, and otherwise changes nothing and fails.
#[verifier::external_body]
pub(crate) fn line_buffer_try_push(buf: &mut ArrayString<1024>, c: char) -> (pushed: Result<
    (),
    CapacityError<char>,
>)
    ensures
        pushed is Ok <==> line_buffer_bytes(*old(buf)).len() + encode_utf8(seq![c]).len() <= 1024,
        pushed is Ok ==> line_buffer_bytes(*final(buf)) == line_buffer_bytes(*old(buf))
            + encode_utf8(seq![c]),
        pushed is Err ==> line_buffer_bytes(*final(buf)) == line_buffer_bytes(*old(buf)),
{
    buf.try_push(c)
}

/// `ArrayString::clear`: empties the buffer.
#[verifier::external_body]
pub(crate) fn line_buffer_clear(buf: &mut ArrayString<1024>)
    ensures
        line_buffer_bytes(*final(buf)) == Seq::<u8>::empty(),
{
    buf.clear()
}

/// `ArrayString::as_str`: the whole content as a string slice.
#[verifier::external_body]
pub(crate) fn line_buffer_as_str(buf: &ArrayString<1024>) -> (s: &str)
    ensures
        s.spec_bytes() == line_buffer_bytes(*buf),
{
    buf.as_str()
}

/// The bytes that a sector-sized vector holds, in order. The vector has room
/// for 8192 bytes.
pub uninterp spec fn sector_bytes(buf: ArrayVec<u8, 8192>) -> Seq<u8>;

/// `ArrayVec::new`: an empty vector.
#[verifier::external_body]
pub(crate) fn sector_new() -> (buf: ArrayVec<u8, 8192>)
    ensures
        sector_bytes(buf) == Seq::<u8>::empty(),
{
    ArrayVec::new()
}

/// `ArrayVec::len`: the number of bytes held, never more than the capacity.
#[verifier::external_body]
pub(crate) fn sector_len(buf: &ArrayVec<u8, 8192>) -> (len: usize)
    ensures
        len == sector_bytes(*buf).len(),
        len <= 8192,
{
    buf.len()
}

/// `ArrayVec::try_extend_from_slice`: appends all of `other` when it fits
/// in what is left of the capacity, and otherwise changes nothing and fails.
#[verifier::external_body]
pub(crate) fn sector_try_extend_from_slice(buf: &mut ArrayVec<u8, 8192>, other: &[u8]) -> (extended:
    Result<(), CapacityError>)
    ensures
        extended is Ok <==> sector_bytes(*old(buf)).len() + other@.len() <= 8192,
        extended is Ok ==> sector_bytes(*final(buf)) == sector_bytes(*old(buf)) + other@,
        extended is Err ==> sector_bytes(*final(buf)) == sector_bytes(*old(buf)),
{
    buf.try_extend_from_slice(other)
}

/// `ArrayVec::push`: appends one byte. It panics on a full vector, which the
/// precondition rules out.
#[verifier::external_body]
pub(crate) fn sector_push(buf: &mut ArrayVec<u8, 8192>, byte: u8)
    requires
        sector_bytes(*old(buf)).len() < 8192,
    ensures
        sector_bytes(*final(buf)) == sector_bytes(*old(buf)).push(byte),
{
    buf.push(byte)
}

/// `ArrayVec::as_slice`: the bytes held, as a slice.
#[verifier::external_body]
pub(crate) fn sector_as_slice(buf: &ArrayVec<u8, 8192>) -> (bytes: &[u8])
    ensures
        bytes@ == sector_bytes(*buf),
{
    buf.as_slice()
}

} // verus!
