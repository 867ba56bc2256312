//! The byte buffers of a connection are `bytes::BytesMut` values. This file
//! holds what the rest of the library takes on trust about that type.

use bytes::Buf;
use bytes::BytesMut;
use vstd::prelude::*;

verus! {

/// `bytes::BytesMut`: what it holds is known through `contents` alone.
#[verifier::external_type_specification]
#[verifier::external_body]
pub struct ExBytesMut(bytes::BytesMut);

/// The bytes that a buffer holds, oldest first.
pub uninterp spec fn contents(buf: &BytesMut) -> Seq<u8>;

/// `BytesMut::new`: the new buffer holds no bytes.
#[verifier::external_body]
pub(crate) fn buf_new() -> (buf: BytesMut)
    ensures
        contents(&buf) == Seq::<u8>::empty(),
{
    BytesMut::new()
}

/// `BytesMut::as_ref`: the slice is the buffer's bytes, in order.
#[verifier::external_body]
pub(crate) fn buf_bytes(buf: &BytesMut) -> (bytes: &[u8])
    ensures
        bytes@ == contents(buf),
{
    buf.as_ref()
}

/// `BytesMut::extend_from_slice`: `data` is appended behind what the buffer held.
#[verifier::external_body]
pub(crate) fn buf_extend(buf: &mut BytesMut, data: &[u8])
    ensures
        contents(final(buf)) == contents(old(buf)) + data@,
{
    buf.extend_from_slice(data)
}

/// `Buf::advance` on a `BytesMut`: the first `cnt` bytes leave the buffer. The
/// call panics where the buffer holds fewer.
#[verifier::external_body]
pub(crate) fn buf_advance(buf: &mut BytesMut, cnt: usize)
    requires
        cnt <= contents(old(buf)).len(),
    ensures
        contents(final(buf)) == contents(old(buf)).skip(cnt as int),
{
    buf.advance(cnt)
}

/// `BytesMut::split_to`: the first `at` bytes move to the buffer that is
/// returned, the others stay. The call panics where `at` is past the end.
#[verifier::external_body]
pub(crate) fn buf_split_to(buf: &mut BytesMut, at: usize) -> (head: BytesMut)
    requires
        at <= contents(old(buf)).len(),
    ensures
        contents(&head) == contents(old(buf)).take(at as int),
        contents(final(buf)) == contents(old(buf)).skip(at as int),
{
    buf.split_to(at)
}

/// `Buf::get_u16` on a `BytesMut`: the first two bytes leave the buffer and are
/// read as a big-endian number. The call panics where the buffer holds fewer.
#[verifier::external_body]
pub(crate) fn buf_get_u16(buf: &mut BytesMut) -> (value: u16)
    requires
        2 <= contents(old(buf)).len(),
    ensures
        value == contents(old(buf))[0] * 256 + contents(old(buf))[1],
        contents(final(buf)) == contents(old(buf)).skip(2),
{
    buf.get_u16()
}

} // verus!
