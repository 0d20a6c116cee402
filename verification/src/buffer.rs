//! The accumulation buffer: a `BytesMut` of the `bytes` crate, the type that
//! `actix_web::web` hands on under the same name, with what this library
//! relies on of it.

use vstd::prelude::*;
use bytes::BytesMut;

verus! {

/// `bytes::BytesMut`. What it holds is spoken of through `buffer_bytes`.
#[verifier::external_type_specification]
#[verifier::external_body]
pub struct ExBytesMut(BytesMut);

/// The bytes that a buffer holds, first to last.
pub uninterp spec fn buffer_bytes(buffer: BytesMut) -> Seq<u8>;

/// The most bytes that a buffer is ever asked to hold: half of what one
/// allocation can hold on this machine. A buffer that grows may take up to
/// twice the room it needs, and that room has to stay within `isize::MAX`.
pub open spec fn max_buffer_len() -> int {
    isize::MAX as int / 2
}

/// `BytesMut::with_capacity`: a buffer that holds no bytes and has room for
/// `capacity` of them. The call allocates through `Vec::with_capacity`, which
/// cannot serve more than `isize::MAX` bytes; no more than half of that is
/// asked for here.
#[verifier::external_body]
pub(crate) fn buffer_with_capacity(capacity: usize) -> (buffer: BytesMut)
    requires
        capacity <= max_buffer_len(),
    ensures
        buffer_bytes(buffer) == Seq::<u8>::empty(),
{
    BytesMut::with_capacity(capacity)
}

/// `BytesMut::len`: the number of bytes that the buffer holds.
#[verifier::external_body]
pub(crate) fn buffer_len(buffer: &BytesMut) -> (len: usize)
    ensures
        len == buffer_bytes(*buffer).len(),
{
    buffer.len()
}

/// `BytesMut::extend_from_slice`: appends `extend` to the buffer and leaves
/// what it held in place. Where the buffer has to grow, the call reserves
/// room through `Vec::reserve`, which may take more than it was asked for and
/// cannot go past `isize::MAX` bytes. A buffer grows only while its room is
/// below the length it needs, so twice that length bounds what is taken; the
/// length that is needed therefore stays within half of `isize::MAX`. This
/// is said of a buffer that `buffer_with_capacity` made and that was only
/// ever appended to, which is the only kind that this library holds.
#[verifier::external_body]
pub(crate) fn buffer_extend(buffer: &mut BytesMut, extend: &[u8])
    requires
        buffer_bytes(*old(buffer)).len() + extend@.len() <= max_buffer_len(),
    ensures
        buffer_bytes(*final(buffer)) == buffer_bytes(*old(buffer)) + extend@,
{
    buffer.extend_from_slice(extend)
}

/// `BytesMut::as_ref`: the bytes that the buffer holds, as a slice.
#[verifier::external_body]
pub(crate) fn buffer_slice(buffer: &BytesMut) -> (bytes: &[u8])
    ensures
        bytes@ == buffer_bytes(*buffer),
{
    buffer.as_ref()
}

} // verus!
