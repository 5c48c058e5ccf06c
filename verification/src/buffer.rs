//! The receive buffer: a `bytes::BytesMut`, known to the verifier through the
//! sequence of bytes it holds.

use bytes::{Buf, BytesMut};
use vstd::prelude::*;

verus! {

#[verifier::external_type_specification]
#[verifier::external_body]
pub struct ExBytesMut(BytesMut);

/// The bytes that a buffer holds, oldest first.
pub uninterp spec fn buffered(buffer: BytesMut) -> Seq<u8>;

/// `BytesMut::with_capacity` returns a buffer that holds no bytes. It allocates
/// through `Vec::with_capacity`, which refuses more than `isize::MAX` bytes.
pub assume_specification[ BytesMut::with_capacity ](capacity: usize) -> (buffer: BytesMut)
    requires
        capacity <= isize::MAX,
    ensures
        buffered(buffer) == Seq::<u8>::empty(),
;

/// `BytesMut::extend_from_slice` puts the bytes of the slice behind those already
/// held. It makes room first, and making room panics where the buffer would
/// outgrow what can be allocated, which is `isize::MAX` bytes.
pub assume_specification[ BytesMut::extend_from_slice ](buffer: &mut BytesMut, extend: &[u8])
    requires
        buffered(*old(buffer)).len() + extend@.len() <= isize::MAX,
    ensures
        buffered(*final(buffer)) == buffered(*old(buffer)) + extend@,
;

/// `Buf::advance` on a `BytesMut` drops the first `count` bytes and keeps the
/// rest in order. It panics when asked to drop more than the buffer holds.
#[verifier::external_body]
pub(crate) fn discard_front(buffer: &mut BytesMut, count: usize)
    requires
        count <= buffered(*old(buffer)).len(),
    ensures
        buffered(*final(buffer)) == buffered(*old(buffer)).skip(count as int),
{
    buffer.advance(count);
}

/// `AsRef<[u8]>` on a `BytesMut` lends exactly the bytes held, in order.
#[verifier::external_body]
pub(crate) fn contents(buffer: &BytesMut) -> (bytes: &[u8])
    ensures
        bytes@ == buffered(*buffer),
{
    buffer.as_ref()
}

} // verus!
